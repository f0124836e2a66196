//! Parameters of special channel behaviour: 5-volt supply, automatic reset after bus-off,
//! listen-only mode, bit rate adapting and the delay between frames.
use vstd::prelude::*;
use crate::bus::{PccBus, UsbBus};
use crate::socket::{PccCanSocket, UsbCanSocket};

verus! {

/// Capability: the channel lets its user read whether the 5-volt supply is on.
pub trait FiveVoltsPower {}
impl FiveVoltsPower for PccBus {}
impl FiveVoltsPower for UsbBus {}
impl FiveVoltsPower for PccCanSocket {}
impl FiveVoltsPower for UsbCanSocket {}

/// Capability: the channel lets its user switch the 5-volt supply on or off.
pub trait SetFiveVoltsPower {}
impl SetFiveVoltsPower for PccCanSocket {}
impl SetFiveVoltsPower for UsbCanSocket {}

/// Capability: the channel lets its user read whether the controller resets itself after bus-off.
pub trait BusOffAutoreset {}
impl BusOffAutoreset for UsbCanSocket {}

/// Capability: the channel lets its user switch the automatic reset after bus-off on or off.
pub trait SetBusOffAutoreset {}
impl SetBusOffAutoreset for UsbCanSocket {}

/// Capability: the channel lets its user read whether the channel only listens.
pub trait ListenOnly {}
impl ListenOnly for UsbCanSocket {}

/// Capability: the channel lets its user switch listen-only mode on or off.
pub trait SetListenOnly {}
impl SetListenOnly for UsbCanSocket {}

/// Capability: the channel lets its user read whether the channel adapts to the bus's bit rate.
pub trait BitrateAdapting {}

/// Capability: the channel lets its user switch bit rate adapting on or off.
pub trait SetBitrateAdapting {}

/// Capability: the channel lets its user read the delay between sent frames.
pub trait InterframeDelay {}
impl InterframeDelay for UsbCanSocket {}

/// Capability: the channel lets its user set the delay between sent frames.
pub trait SetInterframeDelay {}
impl SetInterframeDelay for UsbCanSocket {}

} // verus!
