//! Data-flow parameters of a channel: message filter, receive status, which kinds of
//! frames are let through, and the acceptance filters.
use vstd::prelude::*;
use crate::error::{check_status, CanError};
use crate::param::{after_status, le_u32, u32_from_le, u32_to_le};
use crate::bus::{IsaBus, LanBus, PccBus, PciBus, UsbBus};
use crate::socket::{DngCanSocket, IsaCanSocket, LanCanSocket, PccCanSocket, PciCanSocket, UsbCanSocket};

verus! {

/// Message filter value: no message passes.
pub const FILTER_CLOSE: u32 = 0;

/// Message filter value: every message passes.
pub const FILTER_OPEN: u32 = 1;

/// Message filter value: a custom filter is set.
pub const FILTER_CUSTOM: u32 = 2;

/// The acceptance code of a set of identifiers: the bits that all of them share as ones,
/// each identifier first masked by `id_mask`.
pub open spec fn acceptance_code(ids: Seq<u32>, id_mask: u32) -> u32
    decreases ids.len(),
{
    if ids.len() == 0 {
        0xFFFF_FFFF
    } else {
        acceptance_code(ids.drop_last(), id_mask) & (ids.last() & id_mask)
    }
}

/// The acceptance mask of a set of identifiers: the exclusive or of all of them, each
/// first masked by `id_mask`.
pub open spec fn acceptance_mask(ids: Seq<u32>, id_mask: u32) -> u32
    decreases ids.len(),
{
    if ids.len() == 0 {
        0
    } else {
        acceptance_mask(ids.drop_last(), id_mask) ^ (ids.last() & id_mask)
    }
}

/// The 8-byte buffer of an acceptance filter: the mask, then the code, each least
/// significant byte first.
pub open spec fn filter_buffer_holds(b: Seq<u8>, mask: u32, code: u32) -> bool {
    b.len() == 8 && le_u32(b.subrange(0, 4)) == mask && le_u32(b.subrange(4, 8)) == code
}

/// The acceptance filter that lets `ids` through, as the driver's 8-byte buffer: the
/// acceptance mask, then the acceptance code, with each identifier masked by `id_mask`
/// (0x7FF for 11-bit identifiers, 0x1FFFFFFF for 29-bit ones).
pub fn acceptance_filter(ids: &[u32], id_mask: u32) -> (r: [u8; 8])
    ensures
        filter_buffer_holds(
            r@,
            acceptance_mask(ids@, id_mask),
            acceptance_code(ids@, id_mask),
        ),
{
    let mut code: u32 = 0xFFFF_FFFF;
    let mut mask: u32 = 0;
    let mut i: usize = 0;
    while i < ids.len()
        invariant
            i <= ids@.len(),
            code == acceptance_code(ids@.subrange(0, i as int), id_mask),
            mask == acceptance_mask(ids@.subrange(0, i as int), id_mask),
        decreases ids@.len() - i,
    {
        let id = ids[i] & id_mask;
        code = code & id;
        mask = mask ^ id;
        proof {
            let next = ids@.subrange(0, i + 1);
            assert(next.drop_last() =~= ids@.subrange(0, i as int));
            assert(next.last() == ids@[i as int]);
        }
        i = i + 1;
    }
    assert(ids@.subrange(0, ids@.len() as int) =~= ids@);
    let m = u32_to_le(mask);
    let c = u32_to_le(code);
    let r: [u8; 8] = [m[0], m[1], m[2], m[3], c[0], c[1], c[2], c[3]];
    assert(r@.subrange(0, 4) =~= m@);
    assert(r@.subrange(4, 8) =~= c@);
    r
}

/// The answer to a get call of an acceptance filter: (mask, code).
pub fn decode_acceptance_filter(code: u32, data: [u8; 8]) -> (r: Result<(u32, u32), CanError>)
    ensures
        r == after_status(
            code,
            Ok::<(u32, u32), CanError>(
                (le_u32(data@.subrange(0, 4)), le_u32(data@.subrange(4, 8))),
            ),
        ),
{
    match check_status(code) {
        Ok(()) => {
            let mask = u32_from_le([data[0], data[1], data[2], data[3]]);
            let acc = u32_from_le([data[4], data[5], data[6], data[7]]);
            proof {
                assert([data[0], data[1], data[2], data[3]]@ =~= data@.subrange(0, 4));
                assert([data[4], data[5], data[6], data[7]]@ =~= data@.subrange(4, 8));
            }
            Ok((mask, acc))
        },
        Err(e) => Err(e),
    }
}

/// Capability: the channel lets its user read whether the message filter is open or closed.
pub trait MessageFilter {}
impl MessageFilter for DngCanSocket {}
impl MessageFilter for IsaCanSocket {}
impl MessageFilter for LanCanSocket {}
impl MessageFilter for PccCanSocket {}
impl MessageFilter for PciCanSocket {}
impl MessageFilter for UsbCanSocket {}

/// Capability: the channel lets its user open or close the message filter.
pub trait SetMessageFilter {}
impl SetMessageFilter for DngCanSocket {}
impl SetMessageFilter for IsaCanSocket {}
impl SetMessageFilter for LanCanSocket {}
impl SetMessageFilter for PccCanSocket {}
impl SetMessageFilter for PciCanSocket {}
impl SetMessageFilter for UsbCanSocket {}

/// Capability: the channel lets its user read whether reception is on.
pub trait ReceiveStatus {}
impl ReceiveStatus for IsaBus {}
impl ReceiveStatus for LanBus {}
impl ReceiveStatus for PccBus {}
impl ReceiveStatus for PciBus {}
impl ReceiveStatus for UsbBus {}
impl ReceiveStatus for DngCanSocket {}
impl ReceiveStatus for IsaCanSocket {}
impl ReceiveStatus for LanCanSocket {}
impl ReceiveStatus for PccCanSocket {}
impl ReceiveStatus for PciCanSocket {}
impl ReceiveStatus for UsbCanSocket {}

/// Capability: the channel lets its user switch reception on or off.
pub trait SetReceiveStatus {}
impl SetReceiveStatus for IsaBus {}
impl SetReceiveStatus for LanBus {}
impl SetReceiveStatus for PccBus {}
impl SetReceiveStatus for PciBus {}
impl SetReceiveStatus for UsbBus {}
impl SetReceiveStatus for DngCanSocket {}
impl SetReceiveStatus for IsaCanSocket {}
impl SetReceiveStatus for LanCanSocket {}
impl SetReceiveStatus for PccCanSocket {}
impl SetReceiveStatus for PciCanSocket {}
impl SetReceiveStatus for UsbCanSocket {}

/// Capability: the channel lets its user read whether status frames are received.
pub trait AllowStatusFrames {}
impl AllowStatusFrames for DngCanSocket {}
impl AllowStatusFrames for IsaCanSocket {}
impl AllowStatusFrames for LanCanSocket {}
impl AllowStatusFrames for PccCanSocket {}
impl AllowStatusFrames for PciCanSocket {}
impl AllowStatusFrames for UsbCanSocket {}

/// Capability: the channel lets its user let status frames through or not.
pub trait SetAllowStatusFrames {}
impl SetAllowStatusFrames for DngCanSocket {}
impl SetAllowStatusFrames for IsaCanSocket {}
impl SetAllowStatusFrames for LanCanSocket {}
impl SetAllowStatusFrames for PccCanSocket {}
impl SetAllowStatusFrames for PciCanSocket {}
impl SetAllowStatusFrames for UsbCanSocket {}

/// Capability: the channel lets its user read whether remote request frames are received.
pub trait AllowRTRFrames {}
impl AllowRTRFrames for DngCanSocket {}
impl AllowRTRFrames for IsaCanSocket {}
impl AllowRTRFrames for LanCanSocket {}
impl AllowRTRFrames for PccCanSocket {}
impl AllowRTRFrames for PciCanSocket {}
impl AllowRTRFrames for UsbCanSocket {}

/// Capability: the channel lets its user let remote request frames through or not.
pub trait SetAllowRTRFrames {}
impl SetAllowRTRFrames for DngCanSocket {}
impl SetAllowRTRFrames for IsaCanSocket {}
impl SetAllowRTRFrames for LanCanSocket {}
impl SetAllowRTRFrames for PccCanSocket {}
impl SetAllowRTRFrames for PciCanSocket {}
impl SetAllowRTRFrames for UsbCanSocket {}

/// Capability: the channel lets its user read whether error frames are received.
pub trait AllowErrorFrames {}
impl AllowErrorFrames for DngCanSocket {}
impl AllowErrorFrames for IsaCanSocket {}
impl AllowErrorFrames for LanCanSocket {}
impl AllowErrorFrames for PccCanSocket {}
impl AllowErrorFrames for PciCanSocket {}
impl AllowErrorFrames for UsbCanSocket {}

/// Capability: the channel lets its user let error frames through or not.
pub trait SetAllowErrorFrames {}
impl SetAllowErrorFrames for DngCanSocket {}
impl SetAllowErrorFrames for IsaCanSocket {}
impl SetAllowErrorFrames for LanCanSocket {}
impl SetAllowErrorFrames for PccCanSocket {}
impl SetAllowErrorFrames for PciCanSocket {}
impl SetAllowErrorFrames for UsbCanSocket {}

/// Capability: the channel lets its user read whether sent frames are echoed back.
pub trait AllowEchoFrames {}
impl AllowEchoFrames for LanCanSocket {}
impl AllowEchoFrames for PciCanSocket {}
impl AllowEchoFrames for UsbCanSocket {}

/// Capability: the channel lets its user switch the echo of sent frames on or off.
pub trait SetAllowEchoFrames {}
impl SetAllowEchoFrames for LanCanSocket {}
impl SetAllowEchoFrames for PciCanSocket {}
impl SetAllowEchoFrames for UsbCanSocket {}

/// Capability: the channel lets its user read the acceptance filter of 11-bit identifiers.
pub trait AcceptanceFilter11Bit {}
impl AcceptanceFilter11Bit for DngCanSocket {}
impl AcceptanceFilter11Bit for IsaCanSocket {}
impl AcceptanceFilter11Bit for LanCanSocket {}
impl AcceptanceFilter11Bit for PccCanSocket {}
impl AcceptanceFilter11Bit for PciCanSocket {}
impl AcceptanceFilter11Bit for UsbCanSocket {}

/// Capability: the channel lets its user set the acceptance filter of 11-bit identifiers.
pub trait SetAcceptanceFilter11Bit {}
impl SetAcceptanceFilter11Bit for DngCanSocket {}
impl SetAcceptanceFilter11Bit for IsaCanSocket {}
impl SetAcceptanceFilter11Bit for LanCanSocket {}
impl SetAcceptanceFilter11Bit for PccCanSocket {}
impl SetAcceptanceFilter11Bit for PciCanSocket {}
impl SetAcceptanceFilter11Bit for UsbCanSocket {}

/// Capability: the channel lets its user read the acceptance filter of 29-bit identifiers.
pub trait AcceptanceFilter29Bit {}
impl AcceptanceFilter29Bit for DngCanSocket {}
impl AcceptanceFilter29Bit for IsaCanSocket {}
impl AcceptanceFilter29Bit for LanCanSocket {}
impl AcceptanceFilter29Bit for PccCanSocket {}
impl AcceptanceFilter29Bit for PciCanSocket {}
impl AcceptanceFilter29Bit for UsbCanSocket {}

/// Capability: the channel lets its user set the acceptance filter of 29-bit identifiers.
pub trait SetAcceptanceFilter29Bit {}
impl SetAcceptanceFilter29Bit for DngCanSocket {}
impl SetAcceptanceFilter29Bit for IsaCanSocket {}
impl SetAcceptanceFilter29Bit for LanCanSocket {}
impl SetAcceptanceFilter29Bit for PccCanSocket {}
impl SetAcceptanceFilter29Bit for PciCanSocket {}
impl SetAcceptanceFilter29Bit for UsbCanSocket {}

} // verus!
