//! Values of the driver's channel parameters: the little-endian buffers that its get and set
//! calls exchange, and what the answer to a get call means.
use vstd::prelude::*;
use crate::error::{check_status, status_result, CanError};

verus! {

/// Parameter value "off".
pub const PARAMETER_OFF: u32 = 0;

/// Parameter value "on".
pub const PARAMETER_ON: u32 = 1;

/// The integer that four bytes hold, least significant first.
pub open spec fn le_u32(b: Seq<u8>) -> u32 {
    (b[0] as int + b[1] as int * 0x100 + b[2] as int * 0x1_0000 + b[3] as int * 0x100_0000) as u32
}

/// The integer that two bytes hold, least significant first.
pub open spec fn le_u16(b0: u8, b1: u8) -> u16 {
    (b0 as int + b1 as int * 0x100) as u16
}

/// What the answer to a get call means: the failure that the status code names, or else
/// the value read from the buffer.
pub open spec fn after_status<T>(code: u32, value: Result<T, CanError>) -> Result<T, CanError> {
    match status_result(code) {
        Ok(()) => value,
        Err(e) => Err(e),
    }
}

/// An on/off parameter value: on, off, or a value that is neither.
pub open spec fn on_off(v: u32) -> Result<bool, CanError> {
    if v == PARAMETER_ON {
        Ok(true)
    } else if v == PARAMETER_OFF {
        Ok(false)
    } else {
        Err(CanError::Unknown)
    }
}

/// Whether every bit of `flag` is set in `v`.
pub open spec fn has_flag(v: u32, flag: u32) -> bool {
    v & flag == flag
}

/// The integer in four bytes, least significant first.
pub fn u32_from_le(b: [u8; 4]) -> (r: u32)
    ensures
        r == le_u32(b@),
{
    let r: u32 = b[0] as u32 | (b[1] as u32) << 8 | (b[2] as u32) << 16 | (b[3] as u32) << 24;
    let (b0, b1, b2, b3) = (b[0], b[1], b[2], b[3]);
    assert(r == (b0 as int + b1 as int * 0x100 + b2 as int * 0x1_0000 + b3 as int * 0x100_0000)
        as u32) by (bit_vector)
        requires
            r == b0 as u32 | (b1 as u32) << 8 | (b2 as u32) << 16 | (b3 as u32) << 24,
    ;
    r
}

/// The four bytes of `v`, least significant first.
pub fn u32_to_le(v: u32) -> (r: [u8; 4])
    ensures
        le_u32(r@) == v,
{
    let r: [u8; 4] = [(v & 0xFF) as u8, ((v >> 8) & 0xFF) as u8, ((v >> 16) & 0xFF) as u8, (v >> 24) as u8];
    assert(((v & 0xFF) as u8) as int + (((v >> 8) & 0xFF) as u8) as int * 0x100 + (((v >> 16)
        & 0xFF) as u8) as int * 0x1_0000 + ((v >> 24) as u8) as int * 0x100_0000 == v as int)
        by (bit_vector);
    r
}

/// The integer in two bytes, least significant first.
pub fn u16_from_le(b0: u8, b1: u8) -> (r: u16)
    ensures
        r == le_u16(b0, b1),
{
    b0 as u16 + (b1 as u16) * 256
}

/// The answer to a get call of a 32-bit parameter.
pub fn decode_u32(code: u32, data: [u8; 4]) -> (r: Result<u32, CanError>)
    ensures
        r == after_status(code, Ok::<u32, CanError>(le_u32(data@))),
{
    match check_status(code) {
        Ok(()) => Ok(u32_from_le(data)),
        Err(e) => Err(e),
    }
}

/// The answer to a get call of an on/off parameter that must be exactly on or off.
pub fn decode_on_off(code: u32, data: [u8; 4]) -> (r: Result<bool, CanError>)
    ensures
        r == after_status(code, on_off(le_u32(data@))),
{
    match check_status(code) {
        Ok(()) => {
            let v = u32_from_le(data);
            if v == PARAMETER_ON {
                Ok(true)
            } else if v == PARAMETER_OFF {
                Ok(false)
            } else {
                Err(CanError::Unknown)
            }
        },
        Err(e) => Err(e),
    }
}

/// The answer to a get call, read as whether all bits of `flag` are set.
pub fn decode_flag(code: u32, data: [u8; 4], flag: u32) -> (r: Result<bool, CanError>)
    ensures
        r == after_status(code, Ok::<bool, CanError>(has_flag(le_u32(data@), flag))),
{
    match check_status(code) {
        Ok(()) => Ok(u32_from_le(data) & flag == flag),
        Err(e) => Err(e),
    }
}

/// The answer to a get call, read as whether the value equals `expected`.
pub fn decode_equals(code: u32, data: [u8; 4], expected: u32) -> (r: Result<bool, CanError>)
    ensures
        r == after_status(code, Ok::<bool, CanError>(le_u32(data@) == expected)),
{
    match check_status(code) {
        Ok(()) => Ok(u32_from_le(data) == expected),
        Err(e) => Err(e),
    }
}

/// The buffer of an on/off parameter for a set call.
pub fn encode_on_off(on: bool) -> (r: [u8; 4])
    ensures
        le_u32(r@) == (if on { PARAMETER_ON } else { PARAMETER_OFF }),
{
    if on {
        u32_to_le(PARAMETER_ON)
    } else {
        u32_to_le(PARAMETER_OFF)
    }
}

/// Whether `t` is `s` with zero bytes taken off both ends: `s[a..b]`, with only zeros
/// before `a` and from `b` on, and `t` empty or neither end a zero.
pub open spec fn is_nul_trimmed(s: Seq<u8>, t: Seq<u8>) -> bool {
    exists|a: int, b: int|
        0 <= a <= b <= s.len() && t == s.subrange(a, b) && (forall|i: int| 0 <= i < a ==> s[i]
            == 0) && (forall|i: int| b <= i < s.len() ==> s[i] == 0) && (a == b || (s[a] != 0
            && s[b - 1] != 0))
}

/// The bytes of `s` with the zero bytes at both ends taken off.
pub fn trim_nul(s: &[u8]) -> (r: Vec<u8>)
    ensures
        is_nul_trimmed(s@, r@),
{
    let n = s.len();
    let mut a: usize = 0;
    while a < n && s[a] == 0
        invariant
            a <= n == s@.len(),
            forall|i: int| 0 <= i < a ==> s@[i] == 0,
        decreases n - a,
    {
        a = a + 1;
    }
    let mut b: usize = n;
    while b > a && s[b - 1] == 0
        invariant
            a <= b <= n == s@.len(),
            forall|i: int| b <= i < n ==> s@[i] == 0,
        decreases b,
    {
        b = b - 1;
    }
    let mut r: Vec<u8> = Vec::new();
    let mut i: usize = a;
    while i < b
        invariant
            a <= i <= b <= n == s@.len(),
            r@ == s@.subrange(a as int, i as int),
        decreases b - i,
    {
        r.push(s[i]);
        i = i + 1;
        assert(r@ =~= s@.subrange(a as int, i as int));
    }
    assert(r@ =~= s@.subrange(a as int, b as int));
    assert(a == b || (s@[a as int] != 0 && s@[b - 1] != 0));
    r
}

/// The answer to a get call of a text parameter: its bytes, the zero padding taken off.
pub fn decode_text(code: u32, data: &[u8]) -> (r: Result<Vec<u8>, CanError>)
    ensures
        status_result(code) is Ok <==> r is Ok,
        r matches Err(e) ==> status_result(code) == Err::<(), CanError>(e),
        r matches Ok(t) ==> is_nul_trimmed(data@, t@),
{
    match check_status(code) {
        Ok(()) => Ok(trim_nul(data)),
        Err(e) => Err(e),
    }
}

} // verus!
