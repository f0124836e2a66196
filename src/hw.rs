//! Hardware identification parameters of a channel, and what the driver reports of each
//! attached channel.
use vstd::prelude::*;
use crate::error::{check_status, CanError};
use crate::param::{after_status, is_nul_trimmed, le_u32, trim_nul, u32_from_le};
use crate::bus::{IsaBus, LanBus, PccBus, PciBus, UsbBus};
use crate::socket::{DngCanSocket, IsaCanSocket, LanCanSocket, PccCanSocket, PciCanSocket, UsbCanSocket};

verus! {

/// Whether a channel can be used.
#[derive(Debug, Clone, Copy, PartialEq, Eq, Structural)]
pub enum ChannelConditionStatus {
    /// The channel is not available.
    Unavailable,
    /// The channel is available.
    Available,
    /// The channel is in use.
    Occupied,
    /// The channel is in use by PCAN-View, and can be connected to as well.
    CanView,
}

/// The driver's value of a channel condition.
pub open spec fn condition_code(c: ChannelConditionStatus) -> u32 {
    match c {
        ChannelConditionStatus::Unavailable => 0,
        ChannelConditionStatus::Available => 1,
        ChannelConditionStatus::Occupied => 2,
        ChannelConditionStatus::CanView => 3,
    }
}

impl ChannelConditionStatus {
    /// The driver's value of this condition.
    pub fn code(&self) -> (r: u32)
        ensures
            r == condition_code(*self),
    {
        match self {
            ChannelConditionStatus::Unavailable => 0,
            ChannelConditionStatus::Available => 1,
            ChannelConditionStatus::Occupied => 2,
            ChannelConditionStatus::CanView => 3,
        }
    }

    /// The condition that the driver's value `v` stands for, if any.
    pub fn from_code(v: u32) -> (r: Option<ChannelConditionStatus>)
        ensures
            forall|c: ChannelConditionStatus| #[trigger] condition_code(c) == v <==> r == Some(c),
    {
        if v == 0 {
            Some(ChannelConditionStatus::Unavailable)
        } else if v == 1 {
            Some(ChannelConditionStatus::Available)
        } else if v == 2 {
            Some(ChannelConditionStatus::Occupied)
        } else if v == 3 {
            Some(ChannelConditionStatus::CanView)
        } else {
            None
        }
    }
}

/// The condition that a parameter value stands for; [`CanError::Unknown`] for a value
/// that stands for none.
pub open spec fn condition_of(v: u32) -> Result<ChannelConditionStatus, CanError> {
    if exists|c: ChannelConditionStatus| condition_code(c) == v {
        Ok(choose|c: ChannelConditionStatus| condition_code(c) == v)
    } else {
        Err(CanError::Unknown)
    }
}

/// The answer to a get call of the channel condition.
pub fn decode_channel_condition(code: u32, data: [u8; 4]) -> (r: Result<
    ChannelConditionStatus,
    CanError,
>)
    ensures
        r == after_status(code, condition_of(le_u32(data@))),
{
    match check_status(code) {
        Ok(()) => {
            let v = u32_from_le(data);
            match ChannelConditionStatus::from_code(v) {
                Some(c) => {
                    assert(condition_code(c) == v);
                    assert(forall|x: ChannelConditionStatus| condition_code(x) == v ==> x == c);
                    assert(condition_of(v) == Ok::<ChannelConditionStatus, CanError>(c));
                    Ok(c)
                },
                None => {
                    assert(!exists|x: ChannelConditionStatus| condition_code(x) == v);
                    Err(CanError::Unknown)
                },
            }
        },
        Err(e) => Err(e),
    }
}

/// The characters of `b`, one for each byte, read as Latin-1.
pub open spec fn latin1(b: Seq<u8>) -> Seq<char> {
    b.map_values(|x: u8| x as char)
}

/// Relies on `String::push`: it appends the one character.
#[verifier::external_body]
fn push_char(s: &mut String, c: char)
    ensures
        final(s)@ == old(s)@.push(c),
{
    s.push(c)
}

/// The text of bytes read as Latin-1.
pub fn latin1_string(b: &[u8]) -> (r: String)
    ensures
        r@ == latin1(b@),
{
    let mut s = String::new();
    let mut i: usize = 0;
    while i < b.len()
        invariant
            i <= b@.len(),
            s@ == latin1(b@.subrange(0, i as int)),
        decreases b@.len() - i,
    {
        push_char(&mut s, b[i] as char);
        i = i + 1;
        assert(s@ =~= latin1(b@.subrange(0, i as int)));
    }
    assert(b@.subrange(0, b@.len() as int) =~= b@);
    s
}

/// What the driver reports of an attached channel.
#[derive(Debug, Clone, Copy)]
pub struct ChannelInformation {
    /// The channel's handle.
    pub channel_handle: u16,
    /// The hardware family.
    pub device_type: u8,
    /// The controller's number on its device.
    pub controller_number: u8,
    /// The feature bits of the channel.
    pub device_features: u32,
    /// The device's name, NUL-padded.
    pub device_name: [u8; 33],
    /// The device's identifier.
    pub device_id: u32,
    /// The channel's condition, as the driver's value.
    pub channel_condition: u32,
}

impl ChannelInformation {
    /// A record with every field zero.
    pub fn new() -> (r: ChannelInformation)
        ensures
            r.channel_handle == 0 && r.device_type == 0 && r.controller_number == 0,
            r.device_features == 0 && r.device_id == 0 && r.channel_condition == 0,
            forall|i: int| 0 <= i < 33 ==> r.device_name@[i] == 0,
    {
        ChannelInformation {
            channel_handle: 0,
            device_type: 0,
            controller_number: 0,
            device_features: 0,
            device_name: [0u8; 33],
            device_id: 0,
            channel_condition: 0,
        }
    }

    /// The device's name: its bytes read as Latin-1, the NUL padding taken off both ends.
    pub fn device_name(&self) -> (r: String)
        ensures
            exists|t: Seq<u8>| is_nul_trimmed(self.device_name@, t) && r@ == latin1(t),
    {
        let t = trim_nul(self.device_name.as_slice());
        latin1_string(t.as_slice())
    }
}

/// Capability: the channel lets its user read whether the channel is available.
pub trait ChannelCondition {}
impl ChannelCondition for IsaBus {}
impl ChannelCondition for LanBus {}
impl ChannelCondition for PccBus {}
impl ChannelCondition for PciBus {}
impl ChannelCondition for UsbBus {}

/// Capability: the channel lets its user read and switch the identifying blink of the channel's LED.
pub trait ChannelIdentifying {}
impl ChannelIdentifying for UsbBus {}
impl ChannelIdentifying for UsbCanSocket {}

/// Capability: the channel lets its user read the device identifier.
pub trait DeviceId {}
impl DeviceId for LanBus {}
impl DeviceId for PciBus {}
impl DeviceId for UsbBus {}
impl DeviceId for LanCanSocket {}
impl DeviceId for PciCanSocket {}
impl DeviceId for UsbCanSocket {}

/// Capability: the channel lets its user set the device identifier.
pub trait SetDeviceId {}
impl SetDeviceId for LanCanSocket {}
impl SetDeviceId for PciCanSocket {}
impl SetDeviceId for UsbCanSocket {}

/// Capability: the channel lets its user read the hardware name.
pub trait HardwareName {}
impl HardwareName for IsaBus {}
impl HardwareName for LanBus {}
impl HardwareName for PccBus {}
impl HardwareName for PciBus {}
impl HardwareName for UsbBus {}
impl HardwareName for DngCanSocket {}
impl HardwareName for IsaCanSocket {}
impl HardwareName for LanCanSocket {}
impl HardwareName for PccCanSocket {}
impl HardwareName for PciCanSocket {}
impl HardwareName for UsbCanSocket {}

/// Capability: the channel lets its user read the controller number.
pub trait ControllerNumber {}
impl ControllerNumber for IsaBus {}
impl ControllerNumber for LanBus {}
impl ControllerNumber for PccBus {}
impl ControllerNumber for PciBus {}
impl ControllerNumber for UsbBus {}
impl ControllerNumber for DngCanSocket {}
impl ControllerNumber for IsaCanSocket {}
impl ControllerNumber for LanCanSocket {}
impl ControllerNumber for PccCanSocket {}
impl ControllerNumber for PciCanSocket {}
impl ControllerNumber for UsbCanSocket {}

/// Capability: the channel lets its user set the controller number.
pub trait SetControllerNumber {}
impl SetControllerNumber for DngCanSocket {}
impl SetControllerNumber for IsaCanSocket {}
impl SetControllerNumber for LanCanSocket {}
impl SetControllerNumber for PccCanSocket {}
impl SetControllerNumber for PciCanSocket {}
impl SetControllerNumber for UsbCanSocket {}

/// Capability: the channel lets its user read the device's IP address.
pub trait IpAddress {}
impl IpAddress for LanBus {}
impl IpAddress for LanCanSocket {}

/// Capability: the channel lets its user read the device's part number.
pub trait DevicePartNumber {}
impl DevicePartNumber for IsaBus {}
impl DevicePartNumber for LanBus {}
impl DevicePartNumber for PccBus {}
impl DevicePartNumber for PciBus {}
impl DevicePartNumber for UsbBus {}
impl DevicePartNumber for DngCanSocket {}
impl DevicePartNumber for IsaCanSocket {}
impl DevicePartNumber for LanCanSocket {}
impl DevicePartNumber for PccCanSocket {}
impl DevicePartNumber for PciCanSocket {}
impl DevicePartNumber for UsbCanSocket {}

} // verus!
