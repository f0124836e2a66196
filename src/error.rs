//! The driver's status codes: every failure as a [`CanError`], and success or failure as a
//! [`CanOkError`].
use vstd::prelude::*;

verus! {

/// Status code of success.
pub const ERROR_OK: u32 = 0;

/// Status code of [`CanError::XmtFull`].
pub const ERROR_XMTFULL: u32 = 0x1;

/// Status code of [`CanError::Overrun`].
pub const ERROR_OVERRUN: u32 = 0x2;

/// Status code of [`CanError::BusLight`].
pub const ERROR_BUSLIGHT: u32 = 0x4;

/// Status code of [`CanError::BusHeavy`].
pub const ERROR_BUSHEAVY: u32 = 0x8;

/// Status code of [`CanError::BusPassive`].
pub const ERROR_BUSPASSIVE: u32 = 0x40000;

/// Status code of [`CanError::BusOff`].
pub const ERROR_BUSOFF: u32 = 0x10;

/// Status code of [`CanError::AnyBusErr`].
pub const ERROR_ANYBUSERR: u32 = 0x4001c;

/// Status code of [`CanError::QrcvEmpty`].
pub const ERROR_QRCVEMPTY: u32 = 0x20;

/// Status code of [`CanError::QOverrun`].
pub const ERROR_QOVERRUN: u32 = 0x40;

/// Status code of [`CanError::QxmtFull`].
pub const ERROR_QXMTFULL: u32 = 0x80;

/// Status code of [`CanError::RegTest`].
pub const ERROR_REGTEST: u32 = 0x100;

/// Status code of [`CanError::NoDriver`].
pub const ERROR_NODRIVER: u32 = 0x200;

/// Status code of [`CanError::HwInUse`].
pub const ERROR_HWINUSE: u32 = 0x400;

/// Status code of [`CanError::NetInUse`].
pub const ERROR_NETINUSE: u32 = 0x800;

/// Status code of [`CanError::IllHw`].
pub const ERROR_ILLHW: u32 = 0x1400;

/// Status code of [`CanError::IllNet`].
pub const ERROR_ILLNET: u32 = 0x1800;

/// Status code of [`CanError::IllClient`].
pub const ERROR_ILLCLIENT: u32 = 0x1c00;

/// Status code of [`CanError::Resource`].
pub const ERROR_RESOURCE: u32 = 0x2000;

/// Status code of [`CanError::IllParamType`].
pub const ERROR_ILLPARAMTYPE: u32 = 0x4000;

/// Status code of [`CanError::IllParamVal`].
pub const ERROR_ILLPARAMVAL: u32 = 0x8000;

/// Status code of [`CanError::Unknown`].
pub const ERROR_UNKNOWN: u32 = 0x10000;

/// Status code of [`CanError::IllData`].
pub const ERROR_ILLDATA: u32 = 0x20000;

/// Status code of [`CanError::IllMode`].
pub const ERROR_ILLMODE: u32 = 0x80000;

/// Status code of [`CanError::Caution`].
pub const ERROR_CAUTION: u32 = 0x2000000;

/// Status code of [`CanError::Initialize`].
pub const ERROR_INITIALIZE: u32 = 0x4000000;

/// Status code of [`CanError::IllOperation`].
pub const ERROR_ILLOPERATION: u32 = 0x8000000;

/// A failure that the driver reports.
#[derive(Debug, Clone, Copy, PartialEq, Eq, Structural)]
pub enum CanError {
    /// The transmit buffer of the controller is full.
    XmtFull,
    /// The controller was read too late.
    Overrun,
    /// Bus error: an error counter reached the light limit.
    BusLight,
    /// Bus error: an error counter reached the heavy limit.
    BusHeavy,
    /// Bus error: the controller is error passive.
    BusPassive,
    /// Bus error: the controller is in bus-off state.
    BusOff,
    /// Any of the bus errors.
    AnyBusErr,
    /// The receive queue is empty.
    QrcvEmpty,
    /// The receive queue was read too late.
    QOverrun,
    /// The transmit queue is full.
    QxmtFull,
    /// The controller's registers did not pass the test.
    RegTest,
    /// The driver is not loaded.
    NoDriver,
    /// The hardware is in use by another net.
    HwInUse,
    /// A client is already connected to the net.
    NetInUse,
    /// The hardware handle is not valid.
    IllHw,
    /// The net handle is not valid.
    IllNet,
    /// The client handle is not valid.
    IllClient,
    /// A resource could not be created.
    Resource,
    /// The parameter is not allowed or applicable.
    IllParamType,
    /// The parameter value is not valid.
    IllParamVal,
    /// An unknown error.
    Unknown,
    /// The data is not valid.
    IllData,
    /// The driver object state does not allow the operation.
    IllMode,
    /// The operation succeeded with an irregularity.
    Caution,
    /// The channel is not initialized.
    Initialize,
    /// The operation is not allowed in the current configuration.
    IllOperation,
}

/// Success, or the failure that the driver reports.
#[derive(Debug, Clone, Copy, PartialEq, Eq, Structural)]
pub enum CanOkError {
    /// The operation succeeded.
    Success,
    /// The operation failed.
    Failure(CanError),
}

/// The status code of a failure.
pub open spec fn error_code(e: CanError) -> u32 {
    match e {
        CanError::XmtFull => ERROR_XMTFULL,
        CanError::Overrun => ERROR_OVERRUN,
        CanError::BusLight => ERROR_BUSLIGHT,
        CanError::BusHeavy => ERROR_BUSHEAVY,
        CanError::BusPassive => ERROR_BUSPASSIVE,
        CanError::BusOff => ERROR_BUSOFF,
        CanError::AnyBusErr => ERROR_ANYBUSERR,
        CanError::QrcvEmpty => ERROR_QRCVEMPTY,
        CanError::QOverrun => ERROR_QOVERRUN,
        CanError::QxmtFull => ERROR_QXMTFULL,
        CanError::RegTest => ERROR_REGTEST,
        CanError::NoDriver => ERROR_NODRIVER,
        CanError::HwInUse => ERROR_HWINUSE,
        CanError::NetInUse => ERROR_NETINUSE,
        CanError::IllHw => ERROR_ILLHW,
        CanError::IllNet => ERROR_ILLNET,
        CanError::IllClient => ERROR_ILLCLIENT,
        CanError::Resource => ERROR_RESOURCE,
        CanError::IllParamType => ERROR_ILLPARAMTYPE,
        CanError::IllParamVal => ERROR_ILLPARAMVAL,
        CanError::Unknown => ERROR_UNKNOWN,
        CanError::IllData => ERROR_ILLDATA,
        CanError::IllMode => ERROR_ILLMODE,
        CanError::Caution => ERROR_CAUTION,
        CanError::Initialize => ERROR_INITIALIZE,
        CanError::IllOperation => ERROR_ILLOPERATION,
    }
}

/// The status code of an outcome.
pub open spec fn status_code(s: CanOkError) -> u32 {
    match s {
        CanOkError::Success => ERROR_OK,
        CanOkError::Failure(e) => error_code(e),
    }
}

/// The result that a status code stands for: `Ok` for success, the failure it names, or
/// [`CanError::Unknown`] for a code that names none.
pub open spec fn status_result(code: u32) -> Result<(), CanError> {
    if code == ERROR_OK {
        Ok(())
    } else if exists|e: CanError| error_code(e) == code {
        Err(choose|e: CanError| error_code(e) == code)
    } else {
        Err(CanError::Unknown)
    }
}

impl CanError {
    /// The driver's status code of this failure.
    pub fn code(&self) -> (r: u32)
        ensures
            r == error_code(*self),
            r != ERROR_OK,
    {
        match self {
            CanError::XmtFull => ERROR_XMTFULL,
            CanError::Overrun => ERROR_OVERRUN,
            CanError::BusLight => ERROR_BUSLIGHT,
            CanError::BusHeavy => ERROR_BUSHEAVY,
            CanError::BusPassive => ERROR_BUSPASSIVE,
            CanError::BusOff => ERROR_BUSOFF,
            CanError::AnyBusErr => ERROR_ANYBUSERR,
            CanError::QrcvEmpty => ERROR_QRCVEMPTY,
            CanError::QOverrun => ERROR_QOVERRUN,
            CanError::QxmtFull => ERROR_QXMTFULL,
            CanError::RegTest => ERROR_REGTEST,
            CanError::NoDriver => ERROR_NODRIVER,
            CanError::HwInUse => ERROR_HWINUSE,
            CanError::NetInUse => ERROR_NETINUSE,
            CanError::IllHw => ERROR_ILLHW,
            CanError::IllNet => ERROR_ILLNET,
            CanError::IllClient => ERROR_ILLCLIENT,
            CanError::Resource => ERROR_RESOURCE,
            CanError::IllParamType => ERROR_ILLPARAMTYPE,
            CanError::IllParamVal => ERROR_ILLPARAMVAL,
            CanError::Unknown => ERROR_UNKNOWN,
            CanError::IllData => ERROR_ILLDATA,
            CanError::IllMode => ERROR_ILLMODE,
            CanError::Caution => ERROR_CAUTION,
            CanError::Initialize => ERROR_INITIALIZE,
            CanError::IllOperation => ERROR_ILLOPERATION,
        }
    }

    /// The failure that a status code names, if any.
    pub fn from_code(code: u32) -> (r: Option<CanError>)
        ensures
            forall|e: CanError| #[trigger] error_code(e) == code <==> r == Some(e),
    {
        if code == ERROR_XMTFULL {
            Some(CanError::XmtFull)
        } else if code == ERROR_OVERRUN {
            Some(CanError::Overrun)
        } else if code == ERROR_BUSLIGHT {
            Some(CanError::BusLight)
        } else if code == ERROR_BUSHEAVY {
            Some(CanError::BusHeavy)
        } else if code == ERROR_BUSPASSIVE {
            Some(CanError::BusPassive)
        } else if code == ERROR_BUSOFF {
            Some(CanError::BusOff)
        } else if code == ERROR_ANYBUSERR {
            Some(CanError::AnyBusErr)
        } else if code == ERROR_QRCVEMPTY {
            Some(CanError::QrcvEmpty)
        } else if code == ERROR_QOVERRUN {
            Some(CanError::QOverrun)
        } else if code == ERROR_QXMTFULL {
            Some(CanError::QxmtFull)
        } else if code == ERROR_REGTEST {
            Some(CanError::RegTest)
        } else if code == ERROR_NODRIVER {
            Some(CanError::NoDriver)
        } else if code == ERROR_HWINUSE {
            Some(CanError::HwInUse)
        } else if code == ERROR_NETINUSE {
            Some(CanError::NetInUse)
        } else if code == ERROR_ILLHW {
            Some(CanError::IllHw)
        } else if code == ERROR_ILLNET {
            Some(CanError::IllNet)
        } else if code == ERROR_ILLCLIENT {
            Some(CanError::IllClient)
        } else if code == ERROR_RESOURCE {
            Some(CanError::Resource)
        } else if code == ERROR_ILLPARAMTYPE {
            Some(CanError::IllParamType)
        } else if code == ERROR_ILLPARAMVAL {
            Some(CanError::IllParamVal)
        } else if code == ERROR_UNKNOWN {
            Some(CanError::Unknown)
        } else if code == ERROR_ILLDATA {
            Some(CanError::IllData)
        } else if code == ERROR_ILLMODE {
            Some(CanError::IllMode)
        } else if code == ERROR_CAUTION {
            Some(CanError::Caution)
        } else if code == ERROR_INITIALIZE {
            Some(CanError::Initialize)
        } else if code == ERROR_ILLOPERATION {
            Some(CanError::IllOperation)
        } else {
            None
        }
    }
}

impl CanOkError {
    /// The driver's status code of this outcome.
    pub fn code(&self) -> (r: u32)
        ensures
            r == status_code(*self),
    {
        match self {
            CanOkError::Success => ERROR_OK,
            CanOkError::Failure(e) => e.code(),
        }
    }

    /// The outcome that a status code names, if any.
    pub fn from_code(code: u32) -> (r: Option<CanOkError>)
        ensures
            forall|s: CanOkError| #[trigger] status_code(s) == code <==> r == Some(s),
    {
        if code == ERROR_OK {
            Some(CanOkError::Success)
        } else {
            match CanError::from_code(code) {
                Some(e) => Some(CanOkError::Failure(e)),
                None => None,
            }
        }
    }
}

/// What a driver call's status code means to its caller: `Ok` on success, the failure it
/// names, and [`CanError::Unknown`] for a code that names none.
pub fn check_status(code: u32) -> (r: Result<(), CanError>)
    ensures
        r == status_result(code),
        r is Ok <==> code == ERROR_OK,
        r matches Err(e) ==> error_code(e) == code || (e == CanError::Unknown && forall|x: CanError|
            error_code(x) != code),
{
    if code == ERROR_OK {
        return Ok(());
    }
    match CanError::from_code(code) {
        Some(e) => {
            assert(error_code(e) == code);
            assert(forall|x: CanError| error_code(x) == code ==> x == e);
            Err(e)
        },
        None => Err(CanError::Unknown),
    }
}

} // verus!
