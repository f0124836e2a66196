//! Informational parameters of a channel: versions, features, bit rates and bus speeds.
use vstd::prelude::*;
use crate::error::{check_status, CanError};
use crate::param::{after_status, is_nul_trimmed, le_u16, trim_nul};
use crate::error::status_result;
use crate::bus::{IsaBus, LanBus, PccBus, PciBus, UsbBus};
use crate::socket::{DngCanSocket, IsaCanSocket, LanCanSocket, PccCanSocket, PciCanSocket, UsbCanSocket};

verus! {

/// Feature bit: the channel can do CAN FD.
pub const FEATURE_FD_CAPABLE: u32 = 0x01;

/// Feature bit: the channel can delay between frames.
pub const FEATURE_DELAY_CAPABLE: u32 = 0x02;

/// Feature bit: the channel has I/O pins.
pub const FEATURE_IO_CAPABLE: u32 = 0x04;

/// LAN service status: stopped.
pub const SERVICE_STATUS_STOPPED: u32 = 0x01;

/// LAN service status: running.
pub const SERVICE_STATUS_RUNNING: u32 = 0x04;

/// The three lines of a channel's version text.
#[derive(Debug, PartialEq, Clone)]
pub struct Version {
    pub device_driver_name_and_version: String,
    pub year_of_copyright: String,
    pub company_name_and_city: String,
}

/// The answer to a get call of the bit rate of a classic channel: its two register bytes
/// BTR0 and BTR1, each read as a 16-bit value.
pub fn decode_bitrate_info(code: u32, data: [u8; 4]) -> (r: Result<(u16, u16), CanError>)
    ensures
        r == after_status(
            code,
            Ok::<(u16, u16), CanError>((le_u16(data[0], data[1]), le_u16(data[2], data[3]))),
        ),
{
    match check_status(code) {
        Ok(()) => Ok(
            (crate::param::u16_from_le(data[0], data[1]), crate::param::u16_from_le(data[2], data[3])),
        ),
        Err(e) => Err(e),
    }
}

/// Line feed.
pub const LF: u8 = 0x0A;

/// Carriage return.
pub const CR: u8 = 0x0D;

/// The pieces of `s` between line feeds: one more than the number of line feeds.
pub open spec fn split_lf(s: Seq<u8>) -> Seq<Seq<u8>>
    decreases s.len(),
{
    if s.len() == 0 {
        seq![Seq::empty()]
    } else {
        let init = split_lf(s.drop_last());
        if s.last() == LF {
            init.push(Seq::empty())
        } else {
            init.update(init.len() - 1, init.last().push(s.last()))
        }
    }
}

/// A line that ended in a line feed, without a carriage return before it.
pub open spec fn strip_cr(l: Seq<u8>) -> Seq<u8> {
    if l.len() > 0 && l.last() == CR {
        l.drop_last()
    } else {
        l
    }
}

/// The lines of a text: the pieces between line feeds, a carriage return before a line
/// feed dropped, and an empty piece after the last line feed not counted as a line.
pub open spec fn text_lines(s: Seq<u8>) -> Seq<Seq<u8>> {
    let p = split_lf(s);
    let ended = p.drop_last().map_values(|l: Seq<u8>| strip_cr(l));
    if p.last().len() == 0 {
        ended
    } else {
        ended.push(p.last())
    }
}

proof fn lemma_split_lf_nonempty(s: Seq<u8>)
    ensures
        split_lf(s).len() >= 1,
    decreases s.len(),
{
    if s.len() > 0 {
        lemma_split_lf_nonempty(s.drop_last());
    }
}

/// Whether `v` holds the three lines of a version text, each without its NUL padding.
pub open spec fn is_version_of(data: Seq<u8>, v: (Seq<u8>, Seq<u8>, Seq<u8>)) -> bool {
    let lines = text_lines(data);
    &&& lines.len() == 3
    &&& is_nul_trimmed(lines[0], v.0)
    &&& is_nul_trimmed(lines[1], v.1)
    &&& is_nul_trimmed(lines[2], v.2)
}

fn without_cr(l: &[u8]) -> (r: Vec<u8>)
    ensures
        r@ == strip_cr(l@),
{
    let m: usize = if l.len() > 0 && l[l.len() - 1] == CR {
        l.len() - 1
    } else {
        l.len()
    };
    let mut r: Vec<u8> = Vec::new();
    let mut i: usize = 0;
    while i < m
        invariant
            i <= m <= l@.len(),
            r@ == l@.subrange(0, i as int),
        decreases m - i,
    {
        r.push(l[i]);
        i = i + 1;
        assert(r@ =~= l@.subrange(0, i as int));
    }
    assert(r@ =~= strip_cr(l@));
    r
}

/// The answer to a get call of the channel's version text: its three lines (driver name
/// and version, copyright year, company name and city), each without NUL padding. Fails
/// with [`CanError::Unknown`] where the text does not have exactly three lines.
pub fn decode_version(code: u32, data: &[u8]) -> (r: Result<(Vec<u8>, Vec<u8>, Vec<u8>), CanError>)
    ensures
        r is Ok <==> (status_result(code) is Ok && text_lines(data@).len() == 3),
        r matches Ok(v) ==> is_version_of(data@, (v.0@, v.1@, v.2@)),
        r matches Err(e) ==> (status_result(code) == Err::<(), CanError>(e) || (status_result(
            code,
        ) is Ok && e == CanError::Unknown)),
{
    if let Err(e) = check_status(code) {
        return Err(e);
    }
    let mut done: Vec<Vec<u8>> = Vec::new();
    let mut cur: Vec<u8> = Vec::new();
    let mut i: usize = 0;
    while i < data.len()
        invariant
            i <= data@.len(),
            split_lf(data@.subrange(0, i as int)) == done@.map_values(|v: Vec<u8>| v@).push(cur@),
        decreases data@.len() - i,
    {
        let b = data[i];
        proof {
            let pre = data@.subrange(0, i as int);
            let next = data@.subrange(0, i + 1);
            assert(next.drop_last() =~= pre);
            assert(next.last() == b);
        }
        if b == LF {
            done.push(cur);
            cur = Vec::new();
        } else {
            cur.push(b);
        }
        i = i + 1;
        proof {
            assert(split_lf(data@.subrange(0, i as int)) =~= done@.map_values(|v: Vec<u8>| v@).push(
                cur@,
            ));
        }
    }
    assert(data@.subrange(0, data@.len() as int) =~= data@);
    let ghost p = split_lf(data@);
    proof {
        lemma_split_lf_nonempty(data@);
    }
    assert(p.drop_last() =~= done@.map_values(|v: Vec<u8>| v@));
    assert(p.last() == cur@);
    let mut lines: Vec<Vec<u8>> = Vec::new();
    let mut k: usize = 0;
    let n = done.len();
    while k < n
        invariant
            k <= n == done@.len(),
            p.len() >= 1,
            lines@.len() == k,
            p.drop_last() == done@.map_values(|v: Vec<u8>| v@),
            lines@.map_values(|v: Vec<u8>| v@) == p.drop_last().subrange(0, k as int).map_values(
                |l: Seq<u8>| strip_cr(l),
            ),
        decreases n - k,
    {
        let l = without_cr(done[k].as_slice());
        let ghost before = lines@;
        proof {
            assert(done@.map_values(|v: Vec<u8>| v@)[k as int] == done@[k as int]@);
            assert(l@ == strip_cr(p.drop_last()[k as int]));
        }
        lines.push(l);
        proof {
            let want = p.drop_last().subrange(0, k + 1).map_values(|l: Seq<u8>| strip_cr(l));
            assert(lines@ == before.push(l));
            assert forall|j: int| 0 <= j < k + 1 implies lines@.map_values(|v: Vec<u8>| v@)[j]
                == want[j] by {
                assert(lines@.map_values(|v: Vec<u8>| v@)[j] == lines@[j]@);
                assert(want[j] == strip_cr(p.drop_last()[j]));
                if j < k {
                    assert(lines@[j] == before[j]);
                    assert(before.map_values(|v: Vec<u8>| v@)[j] == before[j]@);
                    assert(before.map_values(|v: Vec<u8>| v@)[j] == p.drop_last().subrange(
                        0,
                        k as int,
                    ).map_values(|l: Seq<u8>| strip_cr(l))[j]);
                }
            }
            assert(lines@.map_values(|v: Vec<u8>| v@) =~= want);
        }
        k = k + 1;
    }
    assert(p.drop_last().subrange(0, n as int) =~= p.drop_last());
    if cur.len() > 0 {
        lines.push(cur);
    }
    let ghost tl = text_lines(data@);
    assert(lines@.map_values(|v: Vec<u8>| v@) =~= tl);
    if lines.len() != 3 {
        return Err(CanError::Unknown);
    }
    let c = trim_nul(lines[2].as_slice());
    let b = trim_nul(lines[1].as_slice());
    let a = trim_nul(lines[0].as_slice());
    proof {
        assert(lines@[0]@ == tl[0]);
        assert(lines@[1]@ == tl[1]);
        assert(lines@[2]@ == tl[2]);
    }
    Ok((a, b, c))
}

/// Capability: the channel lets its user read the driver's version text.
pub trait ChannelVersion {}
impl ChannelVersion for IsaBus {}
impl ChannelVersion for LanBus {}
impl ChannelVersion for PccBus {}
impl ChannelVersion for PciBus {}
impl ChannelVersion for UsbBus {}
impl ChannelVersion for DngCanSocket {}
impl ChannelVersion for IsaCanSocket {}
impl ChannelVersion for LanCanSocket {}
impl ChannelVersion for PccCanSocket {}
impl ChannelVersion for PciCanSocket {}
impl ChannelVersion for UsbCanSocket {}

/// Capability: the channel lets its user read the feature bits (FD, delay, I/O).
pub trait ChannelFeatures {}
impl ChannelFeatures for IsaBus {}
impl ChannelFeatures for LanBus {}
impl ChannelFeatures for PccBus {}
impl ChannelFeatures for PciBus {}
impl ChannelFeatures for UsbBus {}
impl ChannelFeatures for DngCanSocket {}
impl ChannelFeatures for IsaCanSocket {}
impl ChannelFeatures for LanCanSocket {}
impl ChannelFeatures for PccCanSocket {}
impl ChannelFeatures for PciCanSocket {}
impl ChannelFeatures for UsbCanSocket {}

/// Capability: the channel lets its user read the classic bit rate register.
pub trait BitrateInfo {}
impl BitrateInfo for IsaBus {}
impl BitrateInfo for LanBus {}
impl BitrateInfo for PccBus {}
impl BitrateInfo for PciBus {}
impl BitrateInfo for UsbBus {}
impl BitrateInfo for DngCanSocket {}
impl BitrateInfo for IsaCanSocket {}
impl BitrateInfo for LanCanSocket {}
impl BitrateInfo for PccCanSocket {}
impl BitrateInfo for PciCanSocket {}
impl BitrateInfo for UsbCanSocket {}

/// Capability: the channel lets its user read the CAN FD bit rate text.
pub trait BitrateInfoFd {}
impl BitrateInfoFd for IsaBus {}
impl BitrateInfoFd for LanBus {}
impl BitrateInfoFd for PccBus {}
impl BitrateInfoFd for PciBus {}
impl BitrateInfoFd for UsbBus {}

/// Capability: the channel lets its user read the nominal bus speed in bit/s.
pub trait NominalBusSpeed {}
impl NominalBusSpeed for DngCanSocket {}
impl NominalBusSpeed for IsaCanSocket {}
impl NominalBusSpeed for LanCanSocket {}
impl NominalBusSpeed for PccCanSocket {}
impl NominalBusSpeed for PciCanSocket {}
impl NominalBusSpeed for UsbCanSocket {}

/// Capability: the channel lets its user read the data phase bus speed in bit/s.
pub trait DataBusSpeed {}
impl DataBusSpeed for DngCanSocket {}
impl DataBusSpeed for IsaCanSocket {}
impl DataBusSpeed for LanCanSocket {}
impl DataBusSpeed for PccCanSocket {}
impl DataBusSpeed for PciCanSocket {}
impl DataBusSpeed for UsbCanSocket {}

/// Capability: the channel lets its user read the firmware version.
pub trait FirmwareVersion {}
impl FirmwareVersion for DngCanSocket {}
impl FirmwareVersion for IsaCanSocket {}
impl FirmwareVersion for LanCanSocket {}
impl FirmwareVersion for PccCanSocket {}
impl FirmwareVersion for PciCanSocket {}
impl FirmwareVersion for UsbCanSocket {}

} // verus!
