//! Bit-timing parameters: validation against the protocol's ranges, and the two encodings
//! that the driver accepts (a packed register value for classic CAN, a `key=value` text
//! for CAN FD).
use vstd::prelude::*;
use vstd::string::StringExecFns;

verus! {

/// Largest prescaler of classic CAN.
pub const CAN_PRESCALER_MAX: u16 = 64;

/// Largest synchronization jump width of classic CAN.
pub const CAN_SJW_MAX: u16 = 4;

/// Largest time segment 1 of classic CAN.
pub const CAN_TSEG1_MAX: u16 = 16;

/// Largest time segment 2 of classic CAN.
pub const CAN_TSEG2_MAX: u16 = 8;

/// Largest prescaler of the CAN FD nominal phase.
pub const CANFD_NOM_PRESCALER_MAX: u16 = 1024;

/// Largest synchronization jump width of the CAN FD nominal phase.
pub const CANFD_NOM_SJW_MAX: u16 = 128;

/// Largest time segment 1 of the CAN FD nominal phase.
pub const CANFD_NOM_TSEG1_MAX: u16 = 256;

/// Largest time segment 2 of the CAN FD nominal phase.
pub const CANFD_NOM_TSEG2_MAX: u16 = 128;

/// Largest prescaler of the CAN FD data phase.
pub const CANFD_DATA_PRESCALER_MAX: u16 = 1024;

/// Largest synchronization jump width of the CAN FD data phase.
pub const CANFD_DATA_SJW_MAX: u16 = 16;

/// Largest time segment 1 of the CAN FD data phase.
pub const CANFD_DATA_TSEG1_MAX: u16 = 32;

/// Largest time segment 2 of the CAN FD data phase.
pub const CANFD_DATA_TSEG2_MAX: u16 = 16;

/// Clock of the CAN FD controller in Hz, as the FD timing text states it.
pub const CANFD_CLOCK_HZ: u32 = 80_000_000;

/// Why a bit timing was refused.
#[derive(Debug, Clone, Copy, PartialEq, Eq, Structural)]
pub enum TimingError {
    /// A parameter lies outside its protocol range.
    TimingOutOfBounds,
}

/// Whether `v` lies in `1..=max`.
pub open spec fn in_range(v: u16, max: u16) -> bool {
    1 <= v <= max
}

/// Whether a classic bit timing lies within the classic ranges.
pub open spec fn classic_valid(prescaler: u16, sjw: u16, tseg1: u16, tseg2: u16) -> bool {
    &&& in_range(prescaler, CAN_PRESCALER_MAX)
    &&& in_range(sjw, CAN_SJW_MAX)
    &&& in_range(tseg1, CAN_TSEG1_MAX)
    &&& in_range(tseg2, CAN_TSEG2_MAX)
}

/// Whether a CAN FD nominal phase lies within its ranges.
pub open spec fn nominal_valid(prescaler: u16, sjw: u16, tseg1: u16, tseg2: u16) -> bool {
    &&& in_range(prescaler, CANFD_NOM_PRESCALER_MAX)
    &&& in_range(sjw, CANFD_NOM_SJW_MAX)
    &&& in_range(tseg1, CANFD_NOM_TSEG1_MAX)
    &&& in_range(tseg2, CANFD_NOM_TSEG2_MAX)
}

/// Whether a CAN FD data phase lies within its ranges.
pub open spec fn data_valid(prescaler: u16, sjw: u16, tseg1: u16, tseg2: u16) -> bool {
    &&& in_range(prescaler, CANFD_DATA_PRESCALER_MAX)
    &&& in_range(sjw, CANFD_DATA_SJW_MAX)
    &&& in_range(tseg1, CANFD_DATA_TSEG1_MAX)
    &&& in_range(tseg2, CANFD_DATA_TSEG2_MAX)
}

/// The classic register value: `tseg1 - 1` in bits 0..4, `tseg2 - 1` in bits 4..7,
/// `prescaler - 1` in bits 8..14 and `sjw - 1` in bits 14..16.
pub open spec fn btr0btr1_of(prescaler: u16, sjw: u16, tseg1: u16, tseg2: u16) -> int {
    (tseg1 - 1) + (tseg2 - 1) * 16 + (prescaler - 1) * 256 + (sjw - 1) * 16384
}

/// The decimal digit `d` as a character.
pub open spec fn digit_char(d: nat) -> char {
    seq!['0', '1', '2', '3', '4', '5', '6', '7', '8', '9'][d as int]
}

/// The decimal text of `n`, without leading zeros.
pub open spec fn decimal(n: nat) -> Seq<char>
    decreases n,
{
    if n < 10 {
        seq![digit_char(n)]
    } else {
        decimal(n / 10) + seq![digit_char(n % 10)]
    }
}

/// A classic CAN bit timing whose parameters lie within the classic ranges.
#[derive(Debug, Clone, Copy, PartialEq, Eq)]
pub struct CanBitTiming {
    prescaler: u16,
    sjw: u16,
    tseg1: u16,
    tseg2: u16,
}

impl CanBitTiming {
    #[verifier::type_invariant]
    spec fn inv(self) -> bool {
        classic_valid(self.prescaler, self.sjw, self.tseg1, self.tseg2)
    }

    pub closed spec fn spec_prescaler(self) -> u16 {
        self.prescaler
    }

    pub closed spec fn spec_sjw(self) -> u16 {
        self.sjw
    }

    pub closed spec fn spec_tseg1(self) -> u16 {
        self.tseg1
    }

    pub closed spec fn spec_tseg2(self) -> u16 {
        self.tseg2
    }

    /// Checks each parameter against its classic range; fails if any lies outside it.
    pub fn new(prescaler: u16, sjw: u16, tseg1: u16, tseg2: u16) -> (r: Result<
        CanBitTiming,
        TimingError,
    >)
        ensures
            r is Ok <==> classic_valid(prescaler, sjw, tseg1, tseg2),
            r is Err ==> r == Err::<CanBitTiming, _>(TimingError::TimingOutOfBounds),
            r matches Ok(t) ==> {
                &&& t.spec_prescaler() == prescaler
                &&& t.spec_sjw() == sjw
                &&& t.spec_tseg1() == tseg1
                &&& t.spec_tseg2() == tseg2
            },
    {
        if !(1 <= prescaler && prescaler <= CAN_PRESCALER_MAX) {
            return Err(TimingError::TimingOutOfBounds);
        }
        if !(1 <= sjw && sjw <= CAN_SJW_MAX) {
            return Err(TimingError::TimingOutOfBounds);
        }
        if !(1 <= tseg1 && tseg1 <= CAN_TSEG1_MAX) {
            return Err(TimingError::TimingOutOfBounds);
        }
        if !(1 <= tseg2 && tseg2 <= CAN_TSEG2_MAX) {
            return Err(TimingError::TimingOutOfBounds);
        }
        Ok(CanBitTiming { prescaler, sjw, tseg1, tseg2 })
    }

    /// The prescaler, which lies in `1..=CAN_PRESCALER_MAX`.
    pub fn prescaler(&self) -> (r: u16)
        ensures
            r == self.spec_prescaler(),
            in_range(r, CAN_PRESCALER_MAX),
    {
        proof {
            use_type_invariant(self);
        }
        self.prescaler
    }

    /// The sjw, which lies in `1..=CAN_SJW_MAX`.
    pub fn sjw(&self) -> (r: u16)
        ensures
            r == self.spec_sjw(),
            in_range(r, CAN_SJW_MAX),
    {
        proof {
            use_type_invariant(self);
        }
        self.sjw
    }

    /// The tseg1, which lies in `1..=CAN_TSEG1_MAX`.
    pub fn tseg1(&self) -> (r: u16)
        ensures
            r == self.spec_tseg1(),
            in_range(r, CAN_TSEG1_MAX),
    {
        proof {
            use_type_invariant(self);
        }
        self.tseg1
    }

    /// The tseg2, which lies in `1..=CAN_TSEG2_MAX`.
    pub fn tseg2(&self) -> (r: u16)
        ensures
            r == self.spec_tseg2(),
            in_range(r, CAN_TSEG2_MAX),
    {
        proof {
            use_type_invariant(self);
        }
        self.tseg2
    }
}

/// A CAN FD bit timing: a nominal and a data phase, each within its own ranges.
#[derive(Debug, Clone, Copy, PartialEq, Eq)]
pub struct CanFdBitTiming {
    nom_prescaler: u16,
    nom_sjw: u16,
    nom_tseg1: u16,
    nom_tseg2: u16,
    data_prescaler: u16,
    data_sjw: u16,
    data_tseg1: u16,
    data_tseg2: u16,
}

/// The eight parameters of a CAN FD bit timing, nominal phase first, each in the order
/// prescaler, sjw, tseg1, tseg2.
#[derive(Debug, Clone, Copy, PartialEq, Eq, Structural)]
pub struct FdTimingModel {
    pub nom_prescaler: u16,
    pub nom_sjw: u16,
    pub nom_tseg1: u16,
    pub nom_tseg2: u16,
    pub data_prescaler: u16,
    pub data_sjw: u16,
    pub data_tseg1: u16,
    pub data_tseg2: u16,
}

impl View for CanFdBitTiming {
    type V = FdTimingModel;

    closed spec fn view(&self) -> FdTimingModel {
        FdTimingModel {
            nom_prescaler: self.nom_prescaler,
            nom_sjw: self.nom_sjw,
            nom_tseg1: self.nom_tseg1,
            nom_tseg2: self.nom_tseg2,
            data_prescaler: self.data_prescaler,
            data_sjw: self.data_sjw,
            data_tseg1: self.data_tseg1,
            data_tseg2: self.data_tseg2,
        }
    }
}

/// The CAN FD timing text: `key=value` pairs joined by commas, in the order `f_clock`,
/// `nom_brp`, `nom_tseg1`, `nom_tseg2`, `nom_sjw`, `data_brp`, `data_tseg1`, `data_tseg2`,
/// `data_sjw`.
pub open spec fn fd_timing_text(t: FdTimingModel) -> Seq<char> {
    "f_clock="@ + decimal(CANFD_CLOCK_HZ as nat) + ",nom_brp="@ + decimal(t.nom_prescaler as nat)
        + ",nom_tseg1="@ + decimal(t.nom_tseg1 as nat) + ",nom_tseg2="@ + decimal(
        t.nom_tseg2 as nat,
    ) + ",nom_sjw="@ + decimal(t.nom_sjw as nat) + ",data_brp="@ + decimal(
        t.data_prescaler as nat,
    ) + ",data_tseg1="@ + decimal(t.data_tseg1 as nat) + ",data_tseg2="@ + decimal(
        t.data_tseg2 as nat,
    ) + ",data_sjw="@ + decimal(t.data_sjw as nat)
}

impl CanFdBitTiming {
    #[verifier::type_invariant]
    spec fn inv(self) -> bool {
        &&& nominal_valid(self.nom_prescaler, self.nom_sjw, self.nom_tseg1, self.nom_tseg2)
        &&& data_valid(self.data_prescaler, self.data_sjw, self.data_tseg1, self.data_tseg2)
    }

    /// The eight parameters; each lies within the range of its phase.
    pub fn params(&self) -> (r: FdTimingModel)
        ensures
            r == self@,
            nominal_valid(r.nom_prescaler, r.nom_sjw, r.nom_tseg1, r.nom_tseg2),
            data_valid(r.data_prescaler, r.data_sjw, r.data_tseg1, r.data_tseg2),
    {
        proof {
            use_type_invariant(self);
        }
        FdTimingModel {
            nom_prescaler: self.nom_prescaler,
            nom_sjw: self.nom_sjw,
            nom_tseg1: self.nom_tseg1,
            nom_tseg2: self.nom_tseg2,
            data_prescaler: self.data_prescaler,
            data_sjw: self.data_sjw,
            data_tseg1: self.data_tseg1,
            data_tseg2: self.data_tseg2,
        }
    }

    /// Checks the nominal phase and then the data phase against their ranges; fails if any
    /// parameter lies outside its range.
    pub fn new(
        nom_prescaler: u16,
        nom_sjw: u16,
        nom_tseg1: u16,
        nom_tseg2: u16,
        data_prescaler: u16,
        data_sjw: u16,
        data_tseg1: u16,
        data_tseg2: u16,
    ) -> (r: Result<CanFdBitTiming, TimingError>)
        ensures
            r is Ok <==> nominal_valid(nom_prescaler, nom_sjw, nom_tseg1, nom_tseg2) && data_valid(
                data_prescaler,
                data_sjw,
                data_tseg1,
                data_tseg2,
            ),
            r is Err ==> r == Err::<CanFdBitTiming, _>(TimingError::TimingOutOfBounds),
            r matches Ok(t) ==> t@ == (FdTimingModel {
                nom_prescaler,
                nom_sjw,
                nom_tseg1,
                nom_tseg2,
                data_prescaler,
                data_sjw,
                data_tseg1,
                data_tseg2,
            }),
    {
        if !(1 <= nom_prescaler && nom_prescaler <= CANFD_NOM_PRESCALER_MAX) {
            return Err(TimingError::TimingOutOfBounds);
        }
        if !(1 <= nom_sjw && nom_sjw <= CANFD_NOM_SJW_MAX) {
            return Err(TimingError::TimingOutOfBounds);
        }
        if !(1 <= nom_tseg1 && nom_tseg1 <= CANFD_NOM_TSEG1_MAX) {
            return Err(TimingError::TimingOutOfBounds);
        }
        if !(1 <= nom_tseg2 && nom_tseg2 <= CANFD_NOM_TSEG2_MAX) {
            return Err(TimingError::TimingOutOfBounds);
        }
        if !(1 <= data_prescaler && data_prescaler <= CANFD_DATA_PRESCALER_MAX) {
            return Err(TimingError::TimingOutOfBounds);
        }
        if !(1 <= data_sjw && data_sjw <= CANFD_DATA_SJW_MAX) {
            return Err(TimingError::TimingOutOfBounds);
        }
        if !(1 <= data_tseg1 && data_tseg1 <= CANFD_DATA_TSEG1_MAX) {
            return Err(TimingError::TimingOutOfBounds);
        }
        if !(1 <= data_tseg2 && data_tseg2 <= CANFD_DATA_TSEG2_MAX) {
            return Err(TimingError::TimingOutOfBounds);
        }
        Ok(
            CanFdBitTiming {
                nom_prescaler,
                nom_sjw,
                nom_tseg1,
                nom_tseg2,
                data_prescaler,
                data_sjw,
                data_tseg1,
                data_tseg2,
            },
        )
    }
}

/// Packs a classic bit timing into the driver's 16-bit register value.
pub fn calculate_btr0btr1(timing: &CanBitTiming) -> (r: u16)
    ensures
        r == btr0btr1_of(
            timing.spec_prescaler(),
            timing.spec_sjw(),
            timing.spec_tseg1(),
            timing.spec_tseg2(),
        ),
{
    proof {
        use_type_invariant(timing);
    }
    let p: u16 = timing.prescaler - 1;
    let s: u16 = timing.sjw - 1;
    let t1: u16 = timing.tseg1 - 1;
    let t2: u16 = timing.tseg2 - 1;
    let r: u16 = ((t2 & 0x07) << 4) | (t1 & 0x0F) | ((p & 0x3F) << 8) | ((s & 0x03) << 14);
    assert(r == t1 + t2 * 16 + p * 256 + s * 16384) by (bit_vector)
        requires
            p < 64,
            s < 4,
            t1 < 16,
            t2 < 8,
            r == ((t2 & 0x07) << 4) | (t1 & 0x0F) | ((p & 0x3F) << 8) | ((s & 0x03) << 14),
    ;
    r
}

/// The decimal digit `d` as text.
fn digit_str(d: u32) -> (r: &'static str)
    requires
        d < 10,
    ensures
        r@ == seq![digit_char(d as nat)],
{
    proof {
        reveal_strlit("0");
        reveal_strlit("1");
        reveal_strlit("2");
        reveal_strlit("3");
        reveal_strlit("4");
        reveal_strlit("5");
        reveal_strlit("6");
        reveal_strlit("7");
        reveal_strlit("8");
        reveal_strlit("9");
    }
    if d == 0 {
        "0"
    } else if d == 1 {
        "1"
    } else if d == 2 {
        "2"
    } else if d == 3 {
        "3"
    } else if d == 4 {
        "4"
    } else if d == 5 {
        "5"
    } else if d == 6 {
        "6"
    } else if d == 7 {
        "7"
    } else if d == 8 {
        "8"
    } else {
        "9"
    }
}

/// Appends the decimal text of `n` to `s`.
fn push_decimal(s: &mut String, n: u32)
    ensures
        final(s)@ == old(s)@ + decimal(n as nat),
    decreases n,
{
    if n >= 10 {
        push_decimal(s, n / 10);
    }
    s.append(digit_str(n % 10));
    proof {
        assert(old(s)@ + decimal(n as nat) =~= final(s)@) by {
            if n >= 10 {
                assert(decimal(n as nat) == decimal((n / 10) as nat) + seq![digit_char((n % 10) as nat)]);
            }
        }
    }
}

/// The CAN FD timing text of `timing`, as the driver's FD initialization takes it (the
/// driver call adds the terminating NUL).
pub fn build_timing_string(timing: &CanFdBitTiming) -> (r: String)
    ensures
        r@ == fd_timing_text(timing@),
{
    let mut s = String::new();
    s.append("f_clock=");
    push_decimal(&mut s, CANFD_CLOCK_HZ);
    s.append(",nom_brp=");
    push_decimal(&mut s, timing.nom_prescaler as u32);
    s.append(",nom_tseg1=");
    push_decimal(&mut s, timing.nom_tseg1 as u32);
    s.append(",nom_tseg2=");
    push_decimal(&mut s, timing.nom_tseg2 as u32);
    s.append(",nom_sjw=");
    push_decimal(&mut s, timing.nom_sjw as u32);
    s.append(",data_brp=");
    push_decimal(&mut s, timing.data_prescaler as u32);
    s.append(",data_tseg1=");
    push_decimal(&mut s, timing.data_tseg1 as u32);
    s.append(",data_tseg2=");
    push_decimal(&mut s, timing.data_tseg2 as u32);
    s.append(",data_sjw=");
    push_decimal(&mut s, timing.data_sjw as u32);
    assert(s@ =~= fd_timing_text(timing@));
    s
}

} // verus!
