//! Channels opened on the driver, the standard bit rates, and receive timestamps.
use vstd::prelude::*;
use crate::bus::{DngBus, IsaBus, LanBus, PccBus, PciBus, UsbBus};
use crate::error::{check_status, status_result, CanError};

verus! {

/// A standard bit rate, as the driver's register value for classic CAN.
#[derive(Debug, Clone, Copy, PartialEq, Eq, Structural)]
pub enum Baudrate {
    /// 1 MBit/s
    Baud1M,
    /// 800 kBit/s
    Baud800K,
    /// 500 kBit/s
    Baud500K,
    /// 250 kBit/s
    Baud250K,
    /// 125 kBit/s
    Baud125K,
    /// 100 kBit/s
    Baud100K,
    /// 95.238 kBit/s
    Baud95K,
    /// 83.333 kBit/s
    Baud83K,
    /// 50 kBit/s
    Baud50K,
    /// 47.619 kBit/s
    Baud47K,
    /// 33.333 kBit/s
    Baud33K,
    /// 20 kBit/s
    Baud20K,
    /// 10 kBit/s
    Baud10K,
    /// 5 kBit/s
    Baud5K,
}

/// The driver's register value of a standard bit rate.
pub open spec fn baud_code(b: Baudrate) -> u16 {
    match b {
        Baudrate::Baud1M => 0x0014,
        Baudrate::Baud800K => 0x0016,
        Baudrate::Baud500K => 0x001c,
        Baudrate::Baud250K => 0x011c,
        Baudrate::Baud125K => 0x031c,
        Baudrate::Baud100K => 0x432f,
        Baudrate::Baud95K => 0xc34e,
        Baudrate::Baud83K => 0x852b,
        Baudrate::Baud50K => 0x472f,
        Baudrate::Baud47K => 0x1414,
        Baudrate::Baud33K => 0x8b2f,
        Baudrate::Baud20K => 0x532f,
        Baudrate::Baud10K => 0x672f,
        Baudrate::Baud5K => 0x7f7f,
    }
}

impl Baudrate {
    /// The register value that initializes a channel at this bit rate.
    pub fn code(&self) -> (r: u16)
        ensures
            r == baud_code(*self),
    {
        match self {
            Baudrate::Baud1M => 0x0014,
            Baudrate::Baud800K => 0x0016,
            Baudrate::Baud500K => 0x001c,
            Baudrate::Baud250K => 0x011c,
            Baudrate::Baud125K => 0x031c,
            Baudrate::Baud100K => 0x432f,
            Baudrate::Baud95K => 0xc34e,
            Baudrate::Baud83K => 0x852b,
            Baudrate::Baud50K => 0x472f,
            Baudrate::Baud47K => 0x1414,
            Baudrate::Baud33K => 0x8b2f,
            Baudrate::Baud20K => 0x532f,
            Baudrate::Baud10K => 0x672f,
            Baudrate::Baud5K => 0x7f7f,
        }
    }
}

/// When a classic frame was received: milliseconds, the microseconds past them (0 to 999),
/// and how often the 32-bit millisecond counter has wrapped.
#[derive(Debug, Clone, Copy, PartialEq, Eq, Structural, Default)]
pub struct Timestamp {
    pub millis: u32,
    pub millis_overflow: u16,
    pub micros: u16,
}

/// A channel of any hardware family, opened with a standard bit rate.
#[derive(Debug, PartialEq, Eq, Structural)]
pub struct CanSocket {
    handle: u16,
}

impl CanSocket {
    /// The driver's handle of the channel.
    pub closed spec fn spec_handle(&self) -> u16 {
        self.handle
    }

    /// The driver's handle of the channel.
    pub fn handle(&self) -> (r: u16)
        ensures
            r == self.spec_handle(),
    {
        self.handle
    }

    /// The socket on channel `handle` once the driver has answered its initialization
    /// with the status code `code`.
    pub fn opened(handle: u16, code: u32) -> (r: Result<CanSocket, CanError>)
        ensures
            r is Ok <==> status_result(code) is Ok,
            r matches Ok(s) ==> s.spec_handle() == handle,
            r matches Err(e) ==> status_result(code) == Err::<(), CanError>(e),
    {
        match check_status(code) {
            Ok(()) => Ok(CanSocket { handle }),
            Err(e) => Err(e),
        }
    }
}

/// An opened dongle channel.
#[derive(Debug, PartialEq, Eq, Structural)]
pub struct DngCanSocket {
    handle: u16,
}

impl DngCanSocket {
    /// The driver's handle of the channel.
    pub closed spec fn spec_handle(&self) -> u16 {
        self.handle
    }

    /// The driver's handle of the channel.
    pub fn handle(&self) -> (r: u16)
        ensures
            r == self.spec_handle(),
    {
        self.handle
    }

    /// The socket on channel `bus` once the driver has answered its initialization with
    /// the status code `code`.
    pub fn opened(bus: DngBus, code: u32) -> (r: Result<DngCanSocket, CanError>)
        ensures
            r is Ok <==> status_result(code) is Ok,
            r matches Ok(s) ==> s.spec_handle() == crate::bus::spec_dngbus_handle(bus),
            r matches Err(e) ==> status_result(code) == Err::<(), CanError>(e),
    {
        match check_status(code) {
            Ok(()) => Ok(DngCanSocket { handle: bus.handle() }),
            Err(e) => Err(e),
        }
    }
}

/// An opened ISA channel.
#[derive(Debug, PartialEq, Eq, Structural)]
pub struct IsaCanSocket {
    handle: u16,
}

impl IsaCanSocket {
    /// The driver's handle of the channel.
    pub closed spec fn spec_handle(&self) -> u16 {
        self.handle
    }

    /// The driver's handle of the channel.
    pub fn handle(&self) -> (r: u16)
        ensures
            r == self.spec_handle(),
    {
        self.handle
    }

    /// The socket on channel `bus` once the driver has answered its initialization with
    /// the status code `code`.
    pub fn opened(bus: IsaBus, code: u32) -> (r: Result<IsaCanSocket, CanError>)
        ensures
            r is Ok <==> status_result(code) is Ok,
            r matches Ok(s) ==> s.spec_handle() == crate::bus::spec_isabus_handle(bus),
            r matches Err(e) ==> status_result(code) == Err::<(), CanError>(e),
    {
        match check_status(code) {
            Ok(()) => Ok(IsaCanSocket { handle: bus.handle() }),
            Err(e) => Err(e),
        }
    }
}

/// An opened LAN channel.
#[derive(Debug, PartialEq, Eq, Structural)]
pub struct LanCanSocket {
    handle: u16,
}

impl LanCanSocket {
    /// The driver's handle of the channel.
    pub closed spec fn spec_handle(&self) -> u16 {
        self.handle
    }

    /// The driver's handle of the channel.
    pub fn handle(&self) -> (r: u16)
        ensures
            r == self.spec_handle(),
    {
        self.handle
    }

    /// The socket on channel `bus` once the driver has answered its initialization with
    /// the status code `code`.
    pub fn opened(bus: LanBus, code: u32) -> (r: Result<LanCanSocket, CanError>)
        ensures
            r is Ok <==> status_result(code) is Ok,
            r matches Ok(s) ==> s.spec_handle() == crate::bus::spec_lanbus_handle(bus),
            r matches Err(e) ==> status_result(code) == Err::<(), CanError>(e),
    {
        match check_status(code) {
            Ok(()) => Ok(LanCanSocket { handle: bus.handle() }),
            Err(e) => Err(e),
        }
    }
}

/// An opened PC-card channel.
#[derive(Debug, PartialEq, Eq, Structural)]
pub struct PccCanSocket {
    handle: u16,
}

impl PccCanSocket {
    /// The driver's handle of the channel.
    pub closed spec fn spec_handle(&self) -> u16 {
        self.handle
    }

    /// The driver's handle of the channel.
    pub fn handle(&self) -> (r: u16)
        ensures
            r == self.spec_handle(),
    {
        self.handle
    }

    /// The socket on channel `bus` once the driver has answered its initialization with
    /// the status code `code`.
    pub fn opened(bus: PccBus, code: u32) -> (r: Result<PccCanSocket, CanError>)
        ensures
            r is Ok <==> status_result(code) is Ok,
            r matches Ok(s) ==> s.spec_handle() == crate::bus::spec_pccbus_handle(bus),
            r matches Err(e) ==> status_result(code) == Err::<(), CanError>(e),
    {
        match check_status(code) {
            Ok(()) => Ok(PccCanSocket { handle: bus.handle() }),
            Err(e) => Err(e),
        }
    }
}

/// An opened PCI channel.
#[derive(Debug, PartialEq, Eq, Structural)]
pub struct PciCanSocket {
    handle: u16,
}

impl PciCanSocket {
    /// The driver's handle of the channel.
    pub closed spec fn spec_handle(&self) -> u16 {
        self.handle
    }

    /// The driver's handle of the channel.
    pub fn handle(&self) -> (r: u16)
        ensures
            r == self.spec_handle(),
    {
        self.handle
    }

    /// The socket on channel `bus` once the driver has answered its initialization with
    /// the status code `code`.
    pub fn opened(bus: PciBus, code: u32) -> (r: Result<PciCanSocket, CanError>)
        ensures
            r is Ok <==> status_result(code) is Ok,
            r matches Ok(s) ==> s.spec_handle() == crate::bus::spec_pcibus_handle(bus),
            r matches Err(e) ==> status_result(code) == Err::<(), CanError>(e),
    {
        match check_status(code) {
            Ok(()) => Ok(PciCanSocket { handle: bus.handle() }),
            Err(e) => Err(e),
        }
    }
}

/// An opened USB channel.
#[derive(Debug, PartialEq, Eq, Structural)]
pub struct UsbCanSocket {
    handle: u16,
}

impl UsbCanSocket {
    /// The driver's handle of the channel.
    pub closed spec fn spec_handle(&self) -> u16 {
        self.handle
    }

    /// The driver's handle of the channel.
    pub fn handle(&self) -> (r: u16)
        ensures
            r == self.spec_handle(),
    {
        self.handle
    }

    /// The socket on channel `bus` once the driver has answered its initialization with
    /// the status code `code`.
    pub fn opened(bus: UsbBus, code: u32) -> (r: Result<UsbCanSocket, CanError>)
        ensures
            r is Ok <==> status_result(code) is Ok,
            r matches Ok(s) ==> s.spec_handle() == crate::bus::spec_usbbus_handle(bus),
            r matches Err(e) ==> status_result(code) == Err::<(), CanError>(e),
    {
        match check_status(code) {
            Ok(()) => Ok(UsbCanSocket { handle: bus.handle() }),
            Err(e) => Err(e),
        }
    }

    /// The socket on channel `bus`, for a channel that is already initialized.
    pub fn open_with_usb_bus(bus: UsbBus) -> (r: UsbCanSocket)
        ensures
            r.spec_handle() == crate::bus::spec_usbbus_handle(bus),
    {
        UsbCanSocket { handle: bus.handle() }
    }
}

/// Capability: the channel lets its user receive classic frames.
pub trait RecvCan {}

impl RecvCan for DngCanSocket {}
impl RecvCan for IsaCanSocket {}
impl RecvCan for LanCanSocket {}
impl RecvCan for PccCanSocket {}
impl RecvCan for PciCanSocket {}
impl RecvCan for UsbCanSocket {}

/// Capability: the channel lets its user receive CAN FD frames.
pub trait RecvCanFd {}

impl RecvCanFd for UsbCanSocket {}

/// Capability: the channel lets its user send classic frames.
pub trait SendCan {}

impl SendCan for DngCanSocket {}
impl SendCan for IsaCanSocket {}
impl SendCan for LanCanSocket {}
impl SendCan for PccCanSocket {}
impl SendCan for PciCanSocket {}
impl SendCan for UsbCanSocket {}

/// Capability: the channel lets its user send CAN FD frames.
pub trait SendCanFd {}

impl SendCanFd for UsbCanSocket {}

} // verus!
