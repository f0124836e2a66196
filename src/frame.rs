//! Classic CAN and CAN FD frames in the fixed layout that the driver exchanges.
//!
//! A frame keeps its identifier, a flags byte (addressing mode, FD and bit-rate-switch
//! bits), a length or length code, and a fixed-size payload buffer of which only the
//! first `length` bytes are meaningful.
use vstd::prelude::*;
use vstd::std_specs::cmp::PartialEqSpec;

verus! {

/// Bits of an identifier that a standard (11-bit) frame carries.
pub const STANDARD_MASK: u32 = 0x07FF;

/// Bits of an identifier that an extended (29-bit) frame carries.
pub const EXTENDED_MASK: u32 = 0x1FFF_FFFF;

/// Flags byte of a standard frame: no bit is set.
pub const MESSAGE_STANDARD: u8 = 0x00;

/// Flag bit of a remote transmission request.
pub const MESSAGE_RTR: u8 = 0x01;

/// Flag bit of the extended (29-bit) addressing mode.
pub const MESSAGE_EXTENDED: u8 = 0x02;

/// Flag bit of a CAN FD frame.
pub const MESSAGE_FD: u8 = 0x04;

/// Flag bit of bit rate switching in the data phase of a CAN FD frame.
pub const MESSAGE_BRS: u8 = 0x08;

/// Payload capacity of a classic frame.
pub const CAN_MAX_LEN: usize = 8;

/// Payload capacity of a CAN FD frame.
pub const CAN_FD_MAX_LEN: usize = 64;

/// Largest length code of a CAN FD frame.
pub const CAN_FD_MAX_DLC: u8 = 15;

/// Addressing mode of a frame.
#[derive(Debug, Clone, Copy, PartialEq, Eq, Structural)]
pub enum MessageType {
    Standard,
    Extended,
}

/// Why a frame could not be built.
#[derive(Debug, Clone, Copy, PartialEq, Eq, Structural)]
pub enum FrameConstructionError {
    /// The payload is longer than the frame can carry.
    TooMuchData,
    /// The identifier does not fit the requested addressing mode.
    CanIdMessageTypeMismatch,
}

/// The identifier mask of an addressing mode.
pub open spec fn mask_of(mode: MessageType) -> u32 {
    match mode {
        MessageType::Standard => STANDARD_MASK,
        MessageType::Extended => EXTENDED_MASK,
    }
}

/// The flags byte that an addressing mode sets.
pub open spec fn mode_flag(mode: MessageType) -> u8 {
    match mode {
        MessageType::Standard => MESSAGE_STANDARD,
        MessageType::Extended => MESSAGE_EXTENDED,
    }
}

/// Whether a flags byte marks an extended frame.
pub open spec fn flags_extended(flags: u8) -> bool {
    flags & MESSAGE_EXTENDED != 0
}

/// The identifier bits that a flags byte selects: 29 for extended frames, 11 otherwise.
pub open spec fn masked_id(id: u32, flags: u8) -> u32 {
    if flags_extended(flags) {
        id & EXTENDED_MASK
    } else {
        id & STANDARD_MASK
    }
}

/// The flags byte of a CAN FD frame.
pub open spec fn fd_flags(mode: MessageType, fd: bool, brs: bool) -> u8 {
    (mode_flag(mode) | (if fd { MESSAGE_FD } else { 0u8 })) | (if brs { MESSAGE_BRS } else { 0u8 })
}

/// The payload length that a CAN FD length code stands for.
pub open spec fn spec_dlc_len(dlc: u8) -> nat {
    if dlc <= 8 {
        dlc as nat
    } else if dlc == 9 {
        12
    } else if dlc == 10 {
        16
    } else if dlc == 11 {
        20
    } else if dlc == 12 {
        24
    } else if dlc == 13 {
        32
    } else if dlc == 14 {
        48
    } else {
        64
    }
}

/// The CAN FD length code of a payload length: the smallest code whose length holds it.
pub open spec fn spec_calc_dlc(len: nat) -> u8 {
    if len <= 8 {
        len as u8
    } else if len <= 12 {
        9
    } else if len <= 16 {
        10
    } else if len <= 20 {
        11
    } else if len <= 24 {
        12
    } else if len <= 32 {
        13
    } else if len <= 48 {
        14
    } else {
        15
    }
}

/// Whether a payload length is one that a CAN FD length code stands for exactly.
pub open spec fn fd_len_representable(len: nat) -> bool {
    len <= 8 || len == 12 || len == 16 || len == 20 || len == 24 || len == 32 || len == 48
        || len == 64
}

/// The CAN FD length code for a payload of `len` bytes; lengths between two codes round up.
pub fn calc_dlc(len: usize) -> (r: u8)
    requires
        len <= CAN_FD_MAX_LEN,
    ensures
        r == spec_calc_dlc(len as nat),
        r <= CAN_FD_MAX_DLC,
{
    if len <= 8 {
        len as u8
    } else if len <= 12 {
        9
    } else if len <= 16 {
        10
    } else if len <= 20 {
        11
    } else if len <= 24 {
        12
    } else if len <= 32 {
        13
    } else if len <= 48 {
        14
    } else {
        15
    }
}

/// The payload length in bytes that the CAN FD length code `dlc` stands for.
pub fn dlc_len(dlc: u8) -> (r: usize)
    requires
        dlc <= CAN_FD_MAX_DLC,
    ensures
        r == spec_dlc_len(dlc),
        r <= CAN_FD_MAX_LEN,
{
    if dlc <= 8 {
        dlc as usize
    } else if dlc == 9 {
        12
    } else if dlc == 10 {
        16
    } else if dlc == 11 {
        20
    } else if dlc == 12 {
        24
    } else if dlc == 13 {
        32
    } else if dlc == 14 {
        48
    } else {
        64
    }
}

/// The identifier mask of an addressing mode.
pub fn mask(mode: MessageType) -> (r: u32)
    ensures
        r == mask_of(mode),
{
    match mode {
        MessageType::Standard => STANDARD_MASK,
        MessageType::Extended => EXTENDED_MASK,
    }
}

fn flag_of(mode: MessageType) -> (r: u8)
    ensures
        r == mode_flag(mode),
{
    match mode {
        MessageType::Standard => MESSAGE_STANDARD,
        MessageType::Extended => MESSAGE_EXTENDED,
    }
}

fn select_id(id: u32, flags: u8) -> (r: u32)
    ensures
        r == masked_id(id, flags),
{
    if flags & MESSAGE_EXTENDED != 0 {
        id & EXTENDED_MASK
    } else {
        id & STANDARD_MASK
    }
}

/// Copies `data` into the front of a zeroed buffer of `N` bytes.
fn padded<const N: usize>(data: &[u8]) -> (r: [u8; N])
    requires
        data@.len() <= N,
    ensures
        r@.subrange(0, data@.len() as int) == data@,
        forall|i: int| data@.len() <= i < N ==> r@[i] == 0,
{
    let mut buf: [u8; N] = [0u8; N];
    let mut i: usize = 0;
    while i < data.len()
        invariant
            data@.len() <= N,
            i <= data@.len(),
            buf@.len() == N,
            forall|j: int| 0 <= j < i ==> buf@[j] == data@[j],
            forall|j: int| data@.len() <= j < N ==> buf@[j] == 0,
        decreases data@.len() - i,
    {
        buf[i] = data[i];
        i = i + 1;
    }
    assert(buf@.subrange(0, data@.len() as int) =~= data@);
    buf
}

/// Whether two byte slices hold the same bytes.
fn same_bytes(a: &[u8], b: &[u8]) -> (r: bool)
    ensures
        r == (a@ == b@),
{
    if a.len() != b.len() {
        return false;
    }
    let mut i: usize = 0;
    while i < a.len()
        invariant
            a@.len() == b@.len(),
            i <= a@.len(),
            forall|j: int| 0 <= j < i ==> a@[j] == b@[j],
        decreases a@.len() - i,
    {
        if a[i] != b[i] {
            return false;
        }
        i = i + 1;
    }
    assert(a@ =~= b@);
    true
}

/// What a frame means: its identifier as stored, its flags byte, and its meaningful payload.
pub struct FrameModel {
    pub id: u32,
    pub flags: u8,
    pub payload: Seq<u8>,
}

/// A classic CAN frame: up to 8 payload bytes.
#[derive(Debug, Clone, Copy)]
pub struct CanFrame {
    id: u32,
    flags: u8,
    len: u8,
    data: [u8; 8],
}

impl CanFrame {
    #[verifier::type_invariant]
    spec fn inv(self) -> bool {
        self.len <= 8
    }

    /// The stored length byte.
    pub closed spec fn spec_len(self) -> u8 {
        self.len
    }

    /// The whole payload buffer, meaningful or not.
    pub closed spec fn spec_buffer(self) -> Seq<u8> {
        self.data@
    }
}

impl View for CanFrame {
    type V = FrameModel;

    closed spec fn view(&self) -> FrameModel {
        FrameModel { id: self.id, flags: self.flags, payload: self.data@.subrange(0, self.len as int) }
    }
}

impl CanFrame {
    /// Builds a frame of `data`, with `can_id` masked to the bits of `msg_type`.
    pub fn new(can_id: u32, msg_type: MessageType, data: &[u8]) -> (r: Result<
        CanFrame,
        FrameConstructionError,
    >)
        ensures
            data@.len() > CAN_MAX_LEN <==> r is Err,
            r is Err ==> r == Err::<CanFrame, _>(FrameConstructionError::TooMuchData),
            r matches Ok(f) ==> {
                &&& f@.id == can_id & mask_of(msg_type)
                &&& f@.flags == mode_flag(msg_type)
                &&& f@.payload == data@
                &&& masked_id(f@.id, f@.flags) == can_id & mask_of(msg_type)
                &&& f.spec_len() == data@.len()
                &&& forall|i: int| data@.len() <= i < 8 ==> f.spec_buffer()[i] == 0
            },
    {
        if data.len() > CAN_MAX_LEN {
            Err(FrameConstructionError::TooMuchData)
        } else {
            let buf: [u8; 8] = padded(data);
            proof {
                lemma_identifier_round_trip(can_id, msg_type);
            }
            let f = CanFrame {
                id: can_id & mask(msg_type),
                flags: flag_of(msg_type),
                len: data.len() as u8,
                data: buf,
            };
            Ok(f)
        }
    }

    /// Rebuilds a frame from the fields of the driver's message layout; `None` where the
    /// length byte is over 8.
    pub fn from_parts(id: u32, flags: u8, len: u8, data: [u8; 8]) -> (r: Option<CanFrame>)
        ensures
            len > 8 <==> r is None,
            r matches Some(f) ==> {
                &&& f@ == (FrameModel { id, flags, payload: data@.subrange(0, len as int) })
                &&& f.spec_len() == len
                &&& f.spec_buffer() == data@
            },
    {
        if len > 8 {
            None
        } else {
            Some(CanFrame { id, flags, len, data })
        }
    }

    /// Whether the frame uses 11-bit addressing: exactly when it is not extended.
    pub fn is_standard_frame(&self) -> (r: bool)
        ensures
            r == !flags_extended(self@.flags),
    {
        !self.is_extended_frame()
    }

    /// Whether the frame uses 29-bit addressing.
    pub fn is_extended_frame(&self) -> (r: bool)
        ensures
            r == flags_extended(self@.flags),
    {
        self.flags & MESSAGE_EXTENDED != 0
    }

    /// The identifier, masked by the addressing mode that the flags byte holds.
    pub fn can_id(&self) -> (r: u32)
        ensures
            r == masked_id(self@.id, self@.flags),
    {
        select_id(self.id, self.flags)
    }

    /// The payload length in bytes.
    pub fn dlc(&self) -> (r: u8)
        ensures
            r == self.spec_len(),
            r as nat == self@.payload.len(),
            r <= 8,
    {
        proof {
            use_type_invariant(self);
        }
        self.len
    }

    /// The flags byte.
    pub fn msg_type(&self) -> (r: u8)
        ensures
            r == self@.flags,
    {
        self.flags
    }

    /// The identifier as stored.
    pub fn raw_id(&self) -> (r: u32)
        ensures
            r == self@.id,
    {
        self.id
    }

    /// The whole payload buffer, including the bytes past the length.
    pub fn raw_data(&self) -> (r: [u8; 8])
        ensures
            r@ == self.spec_buffer(),
    {
        self.data
    }

    /// The meaningful payload bytes.
    pub fn data(&self) -> (r: &[u8])
        ensures
            r@ == self@.payload,
    {
        proof {
            use_type_invariant(self);
        }
        let all: &[u8] = self.data.as_slice();
        &all[0..self.len as usize]
    }

    /// The meaningful payload bytes, for writing in place.
    pub fn mut_data(&mut self) -> (r: &mut [u8])
        ensures
            r@ == old(self)@.payload,
            final(self)@.id == old(self)@.id,
            final(self)@.flags == old(self)@.flags,
            final(self).spec_len() == old(self).spec_len(),
            final(self).spec_buffer() == final(r)@ + old(self).spec_buffer().subrange(
                old(self).spec_len() as int,
                8,
            ),
            final(r)@.len() == r@.len() ==> final(self)@.payload == final(r)@,
    {
        proof {
            use_type_invariant(&*self);
        }
        let n = self.len as usize;
        let all: &mut [u8] = &mut self.data;
        let (head, _tail) = all.split_at_mut(n);
        head
    }
}

impl Default for CanFrame {
    fn default() -> (r: CanFrame)
        ensures
            r@ == (FrameModel { id: 0, flags: MESSAGE_STANDARD, payload: Seq::empty() }),
    {
        let f = CanFrame { id: 0, flags: MESSAGE_STANDARD, len: 0, data: [0u8; 8] };
        assert(f@.payload =~= Seq::<u8>::empty());
        f
    }
}

impl PartialEq for CanFrame {
    fn eq(&self, other: &CanFrame) -> (r: bool)
        ensures
            r == (self@ == other@),
    {
        proof {
            use_type_invariant(self);
            use_type_invariant(other);
        }
        if self.id != other.id || self.len != other.len || self.flags != other.flags {
            assert(self@.payload.len() == self.len && other@.payload.len() == other.len);
            return false;
        }
        same_bytes(self.data(), other.data())
    }
}

impl vstd::std_specs::cmp::PartialEqSpecImpl for CanFrame {
    open spec fn obeys_eq_spec() -> bool {
        true
    }

    open spec fn eq_spec(&self, other: &CanFrame) -> bool {
        self@ == other@
    }
}

/// `data` followed by zero bytes up to `n` bytes in all.
pub open spec fn zero_padded(data: Seq<u8>, n: nat) -> Seq<u8> {
    data + Seq::new((n - data.len()) as nat, |i: int| 0u8)
}

/// A CAN FD frame: up to 64 payload bytes, with its length kept as a length code.
#[derive(Debug, Clone, Copy)]
pub struct CanFdFrame {
    id: u32,
    flags: u8,
    dlc: u8,
    data: [u8; 64],
}

impl CanFdFrame {
    #[verifier::type_invariant]
    spec fn inv(self) -> bool {
        self.dlc <= CAN_FD_MAX_DLC
    }

    /// The stored length code.
    pub closed spec fn spec_dlc(self) -> u8 {
        self.dlc
    }

    /// The whole payload buffer, meaningful or not.
    pub closed spec fn spec_buffer(self) -> Seq<u8> {
        self.data@
    }
}

impl View for CanFdFrame {
    type V = FrameModel;

    closed spec fn view(&self) -> FrameModel {
        FrameModel {
            id: self.id,
            flags: self.flags,
            payload: self.data@.subrange(0, spec_dlc_len(self.dlc) as int),
        }
    }
}

impl CanFdFrame {
    /// Builds a frame of `data` with neither the FD nor the bit-rate-switch flag set.
    pub fn new(can_id: u32, msg_type: MessageType, data: &[u8]) -> (r: Result<
        CanFdFrame,
        FrameConstructionError,
    >)
        ensures
            data@.len() > CAN_FD_MAX_LEN <==> r is Err,
            r is Err ==> r == Err::<CanFdFrame, _>(FrameConstructionError::TooMuchData),
            r matches Ok(f) ==> {
                &&& f@.id == can_id & mask_of(msg_type)
                &&& f@.flags == fd_flags(msg_type, false, false)
                &&& masked_id(f@.id, f@.flags) == can_id & mask_of(msg_type)
                &&& f.spec_dlc() == spec_calc_dlc(data@.len())
                &&& f@.payload == zero_padded(data@, spec_dlc_len(spec_calc_dlc(data@.len())))
            },
    {
        CanFdFrame::new_with_flags(can_id, msg_type, data, false, false)
    }

    /// Builds a frame of `data`, with `can_id` masked to the bits of `msg_type` and the FD
    /// and bit-rate-switch flags as given. A length between two length codes rounds up to
    /// the next one, the added bytes zero.
    pub fn new_with_flags(can_id: u32, msg_type: MessageType, data: &[u8], fd: bool, brs: bool) -> (r:
        Result<CanFdFrame, FrameConstructionError>)
        ensures
            data@.len() > CAN_FD_MAX_LEN <==> r is Err,
            r is Err ==> r == Err::<CanFdFrame, _>(FrameConstructionError::TooMuchData),
            r matches Ok(f) ==> {
                &&& f@.id == can_id & mask_of(msg_type)
                &&& f@.flags == fd_flags(msg_type, fd, brs)
                &&& masked_id(f@.id, f@.flags) == can_id & mask_of(msg_type)
                &&& f.spec_dlc() == spec_calc_dlc(data@.len())
                &&& f@.payload == zero_padded(data@, spec_dlc_len(spec_calc_dlc(data@.len())))
                &&& forall|i: int| data@.len() <= i < 64 ==> f.spec_buffer()[i] == 0
            },
    {
        if data.len() > CAN_FD_MAX_LEN {
            Err(FrameConstructionError::TooMuchData)
        } else {
            let buf: [u8; 64] = padded(data);
            let fd_bit: u8 = if fd { MESSAGE_FD } else { 0u8 };
            let brs_bit: u8 = if brs { MESSAGE_BRS } else { 0u8 };
            let dlc = calc_dlc(data.len());
            let f = CanFdFrame {
                id: can_id & mask(msg_type),
                flags: (flag_of(msg_type) | fd_bit) | brs_bit,
                dlc,
                data: buf,
            };
            proof {
                lemma_identifier_round_trip(can_id, msg_type);
                lemma_calc_dlc_covers(data@.len());
                let n = spec_dlc_len(dlc);
                assert(f@.payload =~= zero_padded(data@, n)) by {
                    assert(buf@.subrange(0, data@.len() as int) == data@);
                    assert forall|i: int| 0 <= i < n implies #[trigger] f@.payload[i]
                        == zero_padded(data@, n)[i] by {
                        if i < data@.len() {
                            assert(buf@.subrange(0, data@.len() as int)[i] == buf@[i]);
                        }
                    }
                }
            }
            Ok(f)
        }
    }

    /// Rebuilds a frame from the fields of the driver's FD message layout; `None` where the
    /// length code is over 15.
    pub fn from_parts(id: u32, flags: u8, dlc: u8, data: [u8; 64]) -> (r: Option<CanFdFrame>)
        ensures
            dlc > CAN_FD_MAX_DLC <==> r is None,
            r matches Some(f) ==> {
                &&& f@ == (FrameModel {
                    id,
                    flags,
                    payload: data@.subrange(0, spec_dlc_len(dlc) as int),
                })
                &&& f.spec_dlc() == dlc
                &&& f.spec_buffer() == data@
            },
    {
        if dlc > CAN_FD_MAX_DLC {
            None
        } else {
            Some(CanFdFrame { id, flags, dlc, data })
        }
    }

    /// Whether the frame uses 11-bit addressing: exactly when it is not extended.
    pub fn is_standard_frame(&self) -> (r: bool)
        ensures
            r == !flags_extended(self@.flags),
    {
        !self.is_extended_frame()
    }

    /// Whether the frame uses 29-bit addressing.
    pub fn is_extended_frame(&self) -> (r: bool)
        ensures
            r == flags_extended(self@.flags),
    {
        self.flags & MESSAGE_EXTENDED != 0
    }

    /// The identifier, masked by the addressing mode that the flags byte holds.
    pub fn can_id(&self) -> (r: u32)
        ensures
            r == masked_id(self@.id, self@.flags),
    {
        select_id(self.id, self.flags)
    }

    /// The length code; see [`CanFdFrame::len`] for the length in bytes.
    pub fn dlc(&self) -> (r: u8)
        ensures
            r == self.spec_dlc(),
            r <= CAN_FD_MAX_DLC,
    {
        proof {
            use_type_invariant(self);
        }
        self.dlc
    }

    /// The payload length in bytes that the length code stands for.
    pub fn len(&self) -> (r: usize)
        ensures
            r == spec_dlc_len(self.spec_dlc()),
            r == self@.payload.len(),
    {
        proof {
            use_type_invariant(self);
        }
        dlc_len(self.dlc)
    }

    /// The flags byte.
    pub fn msg_type(&self) -> (r: u8)
        ensures
            r == self@.flags,
    {
        self.flags
    }

    /// The identifier as stored.
    pub fn raw_id(&self) -> (r: u32)
        ensures
            r == self@.id,
    {
        self.id
    }

    /// The whole payload buffer, including the bytes past the length.
    pub fn raw_data(&self) -> (r: [u8; 64])
        ensures
            r@ == self.spec_buffer(),
    {
        self.data
    }

    /// The meaningful payload bytes: as many as the length code stands for.
    pub fn data(&self) -> (r: &[u8])
        ensures
            r@ == self@.payload,
    {
        let n = self.len();
        let all: &[u8] = self.data.as_slice();
        &all[0..n]
    }

    /// The meaningful payload bytes, for writing in place.
    pub fn mut_data(&mut self) -> (r: &mut [u8])
        ensures
            r@ == old(self)@.payload,
            final(self)@.id == old(self)@.id,
            final(self)@.flags == old(self)@.flags,
            final(self).spec_dlc() == old(self).spec_dlc(),
            final(self).spec_buffer() == final(r)@ + old(self).spec_buffer().subrange(
                spec_dlc_len(old(self).spec_dlc()) as int,
                64,
            ),
            final(r)@.len() == r@.len() ==> final(self)@.payload == final(r)@,
    {
        proof {
            use_type_invariant(&*self);
        }
        let n = self.len();
        let all: &mut [u8] = &mut self.data;
        let (head, _tail) = all.split_at_mut(n);
        head
    }
}

impl Default for CanFdFrame {
    fn default() -> (r: CanFdFrame)
        ensures
            r@ == (FrameModel { id: 0, flags: MESSAGE_STANDARD, payload: Seq::empty() }),
    {
        let f = CanFdFrame { id: 0, flags: MESSAGE_STANDARD, dlc: 0, data: [0u8; 64] };
        assert(f@.payload =~= Seq::<u8>::empty());
        f
    }
}

impl PartialEq for CanFdFrame {
    fn eq(&self, other: &CanFdFrame) -> (r: bool)
        ensures
            r == (self@ == other@),
    {
        proof {
            use_type_invariant(self);
            use_type_invariant(other);
            lemma_dlc_len_injective(self.dlc, other.dlc);
        }
        if self.id != other.id || self.dlc != other.dlc || self.flags != other.flags {
            assert(self@.payload.len() == spec_dlc_len(self.dlc));
            assert(other@.payload.len() == spec_dlc_len(other.dlc));
            return false;
        }
        same_bytes(self.data(), other.data())
    }
}

impl vstd::std_specs::cmp::PartialEqSpecImpl for CanFdFrame {
    open spec fn obeys_eq_spec() -> bool {
        true
    }

    open spec fn eq_spec(&self, other: &CanFdFrame) -> bool {
        self@ == other@
    }
}

/// The length that the code of a payload length stands for holds that payload, and the
/// code before it would not.
pub proof fn lemma_calc_dlc_covers(len: nat)
    requires
        len <= CAN_FD_MAX_LEN,
    ensures
        spec_calc_dlc(len) <= CAN_FD_MAX_DLC,
        len <= spec_dlc_len(spec_calc_dlc(len)) <= CAN_FD_MAX_LEN,
        spec_calc_dlc(len) > 0 ==> spec_dlc_len((spec_calc_dlc(len) - 1) as u8) < len,
{
}

/// Distinct length codes stand for distinct lengths.
pub proof fn lemma_dlc_len_injective(a: u8, b: u8)
    requires
        a <= CAN_FD_MAX_DLC,
        b <= CAN_FD_MAX_DLC,
    ensures
        spec_dlc_len(a) == spec_dlc_len(b) <==> a == b,
{
}

/// The meaningful payload of a classic frame is the front of its buffer, as long as its
/// length byte says.
pub proof fn lemma_payload_is_prefix(f: CanFrame)
    ensures
        f@.payload == f.spec_buffer().subrange(0, f.spec_len() as int),
        f.spec_buffer().len() == 8,
{
}

/// The meaningful payload of a CAN FD frame is the front of its buffer, as long as its
/// length code stands for.
pub proof fn lemma_fd_payload_is_prefix(f: CanFdFrame)
    ensures
        f@.payload == f.spec_buffer().subrange(0, spec_dlc_len(f.spec_dlc()) as int),
        f.spec_buffer().len() == 64,
{
}

/// Reading back the identifier of a frame built in addressing mode `mode` gives the
/// requested identifier masked by that mode: re-masking by the stored flag changes nothing.
pub proof fn lemma_identifier_round_trip(id: u32, mode: MessageType)
    ensures
        masked_id(id & mask_of(mode), mode_flag(mode)) == id & mask_of(mode),
        masked_id(id & mask_of(mode), fd_flags(mode, false, false)) == id & mask_of(mode),
        masked_id(id & mask_of(mode), fd_flags(mode, false, true)) == id & mask_of(mode),
        masked_id(id & mask_of(mode), fd_flags(mode, true, false)) == id & mask_of(mode),
        masked_id(id & mask_of(mode), fd_flags(mode, true, true)) == id & mask_of(mode),
{
    assert((0u8 & 2u8) == 0u8 && (2u8 & 2u8) != 0u8) by (bit_vector);
    assert(forall|x: u32| (x & 0x7FFu32) & 0x7FFu32 == x & 0x7FFu32) by (bit_vector);
    assert(forall|x: u32| (x & 0x1FFF_FFFFu32) & 0x1FFF_FFFFu32 == x & 0x1FFF_FFFFu32)
        by (bit_vector);
    assert(forall|m: u8, f: u8, b: u8|
        (m == 0 || m == 2) && (f == 0 || f == 4) && (b == 0 || b == 8) ==> (((m | f) | b) & 2u8
            != 0) == (m & 2u8 != 0)) by (bit_vector);
}

/// A payload length survives the trip through its length code exactly when a code stands
/// for it; any other length comes back as the next longer representable length.
pub proof fn lemma_dlc_round_trip(len: nat)
    requires
        len <= CAN_FD_MAX_LEN,
    ensures
        spec_dlc_len(spec_calc_dlc(len)) == len <==> fd_len_representable(len),
        spec_dlc_len(spec_calc_dlc(len)) >= len,
        fd_len_representable(spec_dlc_len(spec_calc_dlc(len))),
{
}

/// Every length code comes back unchanged through its length.
pub proof fn lemma_code_round_trip(dlc: u8)
    requires
        dlc <= CAN_FD_MAX_DLC,
    ensures
        spec_calc_dlc(spec_dlc_len(dlc)) == dlc,
{
}

/// Two classic frames with the same identifier, flags and meaningful bytes compare equal,
/// whatever their buffers hold past the length.
pub proof fn lemma_eq_ignores_unused_bytes(a: CanFrame, b: CanFrame)
    requires
        a@.id == b@.id,
        a@.flags == b@.flags,
        a@.payload == b@.payload,
    ensures
        a.eq_spec(&b),
{
}

/// Two CAN FD frames with the same identifier, flags and meaningful bytes compare equal,
/// whatever their buffers hold past the length.
pub proof fn lemma_fd_eq_ignores_unused_bytes(a: CanFdFrame, b: CanFdFrame)
    requires
        a@.id == b@.id,
        a@.flags == b@.flags,
        a@.payload == b@.payload,
    ensures
        a.eq_spec(&b),
{
}

} // verus!
