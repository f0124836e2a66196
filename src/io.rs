//! Parameters of a channel's digital and analog I/O pins.
use vstd::prelude::*;
use crate::error::{check_status, CanError};
use crate::param::{after_status, le_u32, u32_from_le};
use crate::socket::UsbCanSocket;

verus! {

/// Direction of a digital pin.
#[derive(Debug, Clone, Copy, PartialEq, Eq, Structural)]
pub enum IOConfig {
    /// Input only.
    In,
    /// Input and output.
    InOut,
}

/// Level of a digital pin.
#[derive(Debug, Clone, Copy, PartialEq, Eq, Structural)]
pub enum IOValue {
    Low,
    High,
}

/// Whether bit `pin` of `word` is set.
pub open spec fn pin_set(word: u32, pin: u8) -> bool {
    word & (1u32 << pin) != 0
}

/// `word` with bit `pin` set or cleared.
pub open spec fn with_pin(word: u32, pin: u8, set: bool) -> u32 {
    if set {
        word | (1u32 << pin)
    } else {
        word & !(1u32 << pin)
    }
}

impl IOConfig {
    /// The driver's value of this direction: 0 for input, 1 for input and output.
    pub fn code(&self) -> (r: u32)
        ensures
            r == (if *self == IOConfig::InOut { 1u32 } else { 0u32 }),
    {
        match self {
            IOConfig::In => 0,
            IOConfig::InOut => 1,
        }
    }

    /// The direction whose driver value is `v`, if any.
    pub fn from_code(v: u32) -> (r: Option<IOConfig>)
        ensures
            v == 0 <==> r == Some(IOConfig::In),
            v == 1 <==> r == Some(IOConfig::InOut),
            v > 1 <==> r is None,
    {
        if v == 0 {
            Some(IOConfig::In)
        } else if v == 1 {
            Some(IOConfig::InOut)
        } else {
            None
        }
    }
}

impl IOValue {
    /// The driver's value of this level: 0 for low, 1 for high.
    pub fn code(&self) -> (r: u32)
        ensures
            r == (if *self == IOValue::High { 1u32 } else { 0u32 }),
    {
        match self {
            IOValue::Low => 0,
            IOValue::High => 1,
        }
    }

    /// The level whose driver value is `v`, if any.
    pub fn from_code(v: u32) -> (r: Option<IOValue>)
        ensures
            v == 0 <==> r == Some(IOValue::Low),
            v == 1 <==> r == Some(IOValue::High),
            v > 1 <==> r is None,
    {
        if v == 0 {
            Some(IOValue::Low)
        } else if v == 1 {
            Some(IOValue::High)
        } else {
            None
        }
    }
}

/// Whether bit `pin` of `word` is set.
pub fn pin_bit(word: u32, pin: u8) -> (r: bool)
    requires
        pin < 32,
    ensures
        r == pin_set(word, pin),
{
    word & (1u32 << pin) != 0
}

/// `word` with bit `pin` set or cleared, the other bits kept.
pub fn set_pin_bit(word: u32, pin: u8, set: bool) -> (r: u32)
    requires
        pin < 32,
    ensures
        r == with_pin(word, pin, set),
        pin_set(r, pin) == set,
        forall|q: u8| q < 32 && q != pin ==> pin_set(r, q) == pin_set(word, q),
{
    let r = if set {
        word | (1u32 << pin)
    } else {
        word & !(1u32 << pin)
    };
    assert(((word | (1u32 << pin)) & (1u32 << pin) != 0) && ((word & !(1u32 << pin)) & (1u32
        << pin) == 0)) by (bit_vector)
        requires
            pin < 32,
    ;
    assert(forall|q: u8|
        q < 32 && q != pin ==> ((word | (1u32 << pin)) & (1u32 << q) != 0) == (word & (1u32 << q)
            != 0) && ((word & !(1u32 << pin)) & (1u32 << q) != 0) == (word & (1u32 << q) != 0))
        by (bit_vector)
        requires
            pin < 32,
    ;
    r
}

/// The answer to a get call of the pin directions, read for pin `pin`.
pub fn decode_pin_mode(code: u32, data: [u8; 4], pin: u8) -> (r: Result<IOConfig, CanError>)
    requires
        pin < 32,
    ensures
        r == after_status(
            code,
            Ok::<IOConfig, CanError>(
                if pin_set(le_u32(data@), pin) {
                    IOConfig::InOut
                } else {
                    IOConfig::In
                },
            ),
        ),
{
    match check_status(code) {
        Ok(()) => {
            if pin_bit(u32_from_le(data), pin) {
                Ok(IOConfig::InOut)
            } else {
                Ok(IOConfig::In)
            }
        },
        Err(e) => Err(e),
    }
}

/// The answer to a get call of the pin levels, read for pin `pin`.
pub fn decode_pin_value(code: u32, data: [u8; 4], pin: u8) -> (r: Result<IOValue, CanError>)
    requires
        pin < 32,
    ensures
        r == after_status(
            code,
            Ok::<IOValue, CanError>(
                if pin_set(le_u32(data@), pin) {
                    IOValue::High
                } else {
                    IOValue::Low
                },
            ),
        ),
{
    match check_status(code) {
        Ok(()) => {
            if pin_bit(u32_from_le(data), pin) {
                Ok(IOValue::High)
            } else {
                Ok(IOValue::Low)
            }
        },
        Err(e) => Err(e),
    }
}

/// Capability: the channel lets its user read the direction of the digital pins.
pub trait DigitalConfiguration {}
impl DigitalConfiguration for UsbCanSocket {}

/// Capability: the channel lets its user set the direction of the digital pins.
pub trait SetDigitalConfiguration {}
impl SetDigitalConfiguration for UsbCanSocket {}

/// Capability: the channel lets its user read the level of the digital pins.
pub trait DigitalValue {}
impl DigitalValue for UsbCanSocket {}

/// Capability: the channel lets its user set the level of the digital pins.
pub trait SetDigitalValue {}
impl SetDigitalValue for UsbCanSocket {}

/// Capability: the channel lets its user set chosen digital pins high.
pub trait SetDigitalSet {}
impl SetDigitalSet for UsbCanSocket {}

/// Capability: the channel lets its user set chosen digital pins low.
pub trait SetDigitalClear {}
impl SetDigitalClear for UsbCanSocket {}

/// Capability: the channel lets its user read the analog input.
pub trait AnalogValue {}
impl AnalogValue for UsbCanSocket {}

} // verus!
