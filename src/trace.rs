//! Tracing parameters of a channel: where the trace file goes, whether tracing runs, how
//! large a file may grow and how files are made.
use vstd::prelude::*;
use crate::error::{check_status, CanError};
use crate::param::{after_status, le_u32, u32_from_le};
use crate::socket::{DngCanSocket, IsaCanSocket, LanCanSocket, PccCanSocket, PciCanSocket, UsbCanSocket};

verus! {

/// The trace location that stands for the driver's default directory.
pub const DEFAULT_TRACE_LOCATION: &'static str = " ";

/// The trace file size, in megabytes, that stands for the driver's default size.
pub const DEFAULT_TRACE_SIZE: u8 = 0;

/// How trace files are made.
#[derive(Debug, Clone, Copy, PartialEq, Eq, Structural)]
pub enum TraceFile {
    /// One file that ends at its size limit.
    Single,
    /// A new file each time the size limit is reached.
    Segmented,
    /// The date in the file name.
    Date,
    /// The time in the file name.
    Time,
    /// An existing file is overwritten.
    Overwrite,
}

/// The driver's value of a trace file configuration.
pub open spec fn trace_file_code(t: TraceFile) -> u32 {
    match t {
        TraceFile::Single => 0x00,
        TraceFile::Segmented => 0x01,
        TraceFile::Date => 0x02,
        TraceFile::Time => 0x04,
        TraceFile::Overwrite => 0x80,
    }
}

impl TraceFile {
    /// The driver's value of this configuration.
    pub fn code(&self) -> (r: u32)
        ensures
            r == trace_file_code(*self),
    {
        match self {
            TraceFile::Single => 0x00,
            TraceFile::Segmented => 0x01,
            TraceFile::Date => 0x02,
            TraceFile::Time => 0x04,
            TraceFile::Overwrite => 0x80,
        }
    }

    /// The configuration whose driver value is `v`, if any.
    pub fn from_code(v: u32) -> (r: Option<TraceFile>)
        ensures
            forall|t: TraceFile| #[trigger] trace_file_code(t) == v <==> r == Some(t),
    {
        if v == 0x00 {
            Some(TraceFile::Single)
        } else if v == 0x01 {
            Some(TraceFile::Segmented)
        } else if v == 0x02 {
            Some(TraceFile::Date)
        } else if v == 0x04 {
            Some(TraceFile::Time)
        } else if v == 0x80 {
            Some(TraceFile::Overwrite)
        } else {
            None
        }
    }
}

/// The configuration that a parameter value stands for; [`CanError::Unknown`] for a value
/// that stands for none.
pub open spec fn trace_file_of(v: u32) -> Result<TraceFile, CanError> {
    if exists|t: TraceFile| trace_file_code(t) == v {
        Ok(choose|t: TraceFile| trace_file_code(t) == v)
    } else {
        Err(CanError::Unknown)
    }
}

/// The answer to a get call of the trace file configuration.
pub fn decode_trace_configuration(code: u32, data: [u8; 4]) -> (r: Result<TraceFile, CanError>)
    ensures
        r == after_status(code, trace_file_of(le_u32(data@))),
{
    match check_status(code) {
        Ok(()) => {
            let v = u32_from_le(data);
            match TraceFile::from_code(v) {
                Some(t) => {
                    assert(trace_file_code(t) == v);
                    assert(forall|x: TraceFile| trace_file_code(x) == v ==> x == t);
                    assert(trace_file_of(v) == Ok::<TraceFile, CanError>(t));
                    Ok(t)
                },
                None => {
                    assert(!exists|x: TraceFile| trace_file_code(x) == v);
                    Err(CanError::Unknown)
                },
            }
        },
        Err(e) => Err(e),
    }
}

/// Capability: the channel lets its user read where trace files are written.
pub trait TraceLocation {}
impl TraceLocation for DngCanSocket {}
impl TraceLocation for IsaCanSocket {}
impl TraceLocation for LanCanSocket {}
impl TraceLocation for PccCanSocket {}
impl TraceLocation for PciCanSocket {}
impl TraceLocation for UsbCanSocket {}

/// Capability: the channel lets its user set where trace files are written.
pub trait SetTraceLocation {}
impl SetTraceLocation for DngCanSocket {}
impl SetTraceLocation for IsaCanSocket {}
impl SetTraceLocation for LanCanSocket {}
impl SetTraceLocation for PccCanSocket {}
impl SetTraceLocation for PciCanSocket {}
impl SetTraceLocation for UsbCanSocket {}

/// Capability: the channel lets its user read whether tracing runs.
pub trait TraceStatus {}
impl TraceStatus for DngCanSocket {}
impl TraceStatus for IsaCanSocket {}
impl TraceStatus for LanCanSocket {}
impl TraceStatus for PccCanSocket {}
impl TraceStatus for PciCanSocket {}
impl TraceStatus for UsbCanSocket {}

/// Capability: the channel lets its user start or stop tracing.
pub trait SetTraceStatus {}
impl SetTraceStatus for DngCanSocket {}
impl SetTraceStatus for IsaCanSocket {}
impl SetTraceStatus for LanCanSocket {}
impl SetTraceStatus for PccCanSocket {}
impl SetTraceStatus for PciCanSocket {}
impl SetTraceStatus for UsbCanSocket {}

/// Capability: the channel lets its user read the largest size of a trace file.
pub trait TraceSize {}
impl TraceSize for DngCanSocket {}
impl TraceSize for IsaCanSocket {}
impl TraceSize for LanCanSocket {}
impl TraceSize for PccCanSocket {}
impl TraceSize for PciCanSocket {}
impl TraceSize for UsbCanSocket {}

/// Capability: the channel lets its user set the largest size of a trace file.
pub trait SetTraceSize {}
impl SetTraceSize for DngCanSocket {}
impl SetTraceSize for IsaCanSocket {}
impl SetTraceSize for LanCanSocket {}
impl SetTraceSize for PccCanSocket {}
impl SetTraceSize for PciCanSocket {}
impl SetTraceSize for UsbCanSocket {}

/// Capability: the channel lets its user read how trace files are made.
pub trait TraceConfigure {}
impl TraceConfigure for DngCanSocket {}
impl TraceConfigure for IsaCanSocket {}
impl TraceConfigure for LanCanSocket {}
impl TraceConfigure for PccCanSocket {}
impl TraceConfigure for PciCanSocket {}
impl TraceConfigure for UsbCanSocket {}

/// Capability: the channel lets its user set how trace files are made.
pub trait SetTraceConfigure {}
impl SetTraceConfigure for DngCanSocket {}
impl SetTraceConfigure for IsaCanSocket {}
impl SetTraceConfigure for LanCanSocket {}
impl SetTraceConfigure for PccCanSocket {}
impl SetTraceConfigure for PciCanSocket {}
impl SetTraceConfigure for UsbCanSocket {}

} // verus!
