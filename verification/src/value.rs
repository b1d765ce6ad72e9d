//! The engine's value union and its coercion rules.
//!
//! A [`Value`] is one of eight primitive shapes. Values are copied by value
//! except for `Object`, which is an index into the shared heap.
//!
//! Floating-point numbers travel through the engine as their 64-bit IEEE-754
//! encoding, held in a plain integer. The engine never does float arithmetic:
//! the coercions below work directly on the bit pattern (zero, NaN and
//! truncation tests are exact bit-level computations), and anything that
//! needs real float computation — formatting a number as text, parsing text
//! as a number — is left to the host interpreter and reported as
//! [`EngineError::HostCoercionRequired`].

use vstd::prelude::*;
use vstd::string::StringExecFns;

use crate::error::EngineError;

verus! {

/// The closed union of primitive value shapes.
#[derive(Debug)]
pub enum Value {
    Undefined,
    Null,
    Bool(bool),
    /// A signed 32-bit integer.
    Integer(i32),
    /// An unsigned 32-bit integer.
    Unsigned(u32),
    /// A 64-bit IEEE-754 number, carried as its bit pattern.
    Number(u64),
    String(String),
    /// A reference into the heap's object table.
    Object(usize),
}

/// Primitive-coercion preference of an object, when there is no reason to
/// prefer one shape over the other.
#[derive(Clone, Copy, Debug, PartialEq, Eq, Structural)]
pub enum Hint {
    Number,
    String,
}

/// The sign-less part of an IEEE-754 bit pattern: everything but bit 63.
pub open spec fn spec_abs_bits(bits: u64) -> u64 {
    bits & 0x7fff_ffff_ffff_ffffu64
}

/// True when the bit pattern encodes a NaN: all exponent bits set and a
/// nonzero mantissa.
pub open spec fn spec_is_nan(bits: u64) -> bool {
    bits & 0x7ff0_0000_0000_0000u64 == 0x7ff0_0000_0000_0000u64
        && bits & 0x000f_ffff_ffff_ffffu64 != 0u64
}

/// The boolean coercion of a number: everything but NaN and the two zeroes
/// coerces to true.
pub open spec fn spec_number_truthy(bits: u64) -> bool {
    spec_abs_bits(bits) != 0u64 && !spec_is_nan(bits)
}

/// The value of `ToUint32` on an IEEE-754 bit pattern: the encoded number
/// truncated toward zero and taken modulo two to the thirty-second, with
/// NaN and the infinities going to zero. Stated as the bit-level
/// computation, which is the most direct description available without
/// float arithmetic.
pub open spec fn spec_number_to_u32(bits: u64) -> u32 {
    let exp = (bits >> 52u64) & 0x7ffu64;
    let frac = bits & 0x000f_ffff_ffff_ffffu64;
    if exp == 0x7ffu64 {
        // NaN or an infinity.
        0u32
    } else if exp < 1023u64 {
        // Magnitude below one truncates to zero.
        0u32
    } else {
        let m = frac | 0x0010_0000_0000_0000u64;
        let mag32 = if exp >= 1075u64 {
            let shift = exp - 1075u64;
            if shift >= 32u64 {
                0u32
            } else {
                ((m << shift) & 0xffff_ffffu64) as u32
            }
        } else {
            let shift = 1075u64 - exp;
            if shift >= 53u64 {
                0u32
            } else {
                ((m >> shift) & 0xffff_ffffu64) as u32
            }
        };
        if bits >> 63u64 == 1u64 {
            (0u32).wrapping_sub(mag32)
        } else {
            mag32
        }
    }
}

/// The decimal digit character for `n`, which must be below ten.
pub open spec fn spec_digit(n: nat) -> char
    recommends
        n < 10,
{
    if n == 0 {
        '0'
    } else if n == 1 {
        '1'
    } else if n == 2 {
        '2'
    } else if n == 3 {
        '3'
    } else if n == 4 {
        '4'
    } else if n == 5 {
        '5'
    } else if n == 6 {
        '6'
    } else if n == 7 {
        '7'
    } else if n == 8 {
        '8'
    } else {
        '9'
    }
}

/// The decimal rendering of a natural number, most significant digit first.
pub open spec fn spec_decimal(n: nat) -> Seq<char>
    decreases n,
{
    if n < 10 {
        seq![spec_digit(n)]
    } else {
        spec_decimal(n / 10).push(spec_digit(n % 10))
    }
}

/// Renders one decimal digit as a string.
fn digit_str(n: u32) -> (r: String)
    requires
        n < 10,
    ensures
        r@ == seq![spec_digit(n as nat)],
{
    proof {
        reveal_strlit("0");
        reveal_strlit("1");
        reveal_strlit("2");
        reveal_strlit("3");
        reveal_strlit("4");
        reveal_strlit("5");
        reveal_strlit("6");
        reveal_strlit("7");
        reveal_strlit("8");
        reveal_strlit("9");
    }
    let s = if n == 0 {
        "0"
    } else if n == 1 {
        "1"
    } else if n == 2 {
        "2"
    } else if n == 3 {
        "3"
    } else if n == 4 {
        "4"
    } else if n == 5 {
        "5"
    } else if n == 6 {
        "6"
    } else if n == 7 {
        "7"
    } else if n == 8 {
        "8"
    } else {
        "9"
    };
    proof {
        assert(s@ =~= seq![spec_digit(n as nat)]);
    }
    String::from_str(s)
}

/// Renders an unsigned 32-bit integer in decimal.
pub fn u32_to_decimal(n: u32) -> (r: String)
    ensures
        r@ == spec_decimal(n as nat),
    decreases n,
{
    if n < 10 {
        digit_str(n)
    } else {
        let mut s = u32_to_decimal(n / 10);
        let d = digit_str(n % 10);
        s.append(d.as_str());
        s
    }
}

/// The decimal rendering of a signed 32-bit integer: a leading minus sign
/// for negative values, then the digits of the magnitude.
pub open spec fn spec_decimal_i32(n: int) -> Seq<char> {
    if n < 0 {
        seq!['-'] + spec_decimal((-n) as nat)
    } else {
        spec_decimal(n as nat)
    }
}

/// Renders a signed 32-bit integer in decimal.
pub fn i32_to_decimal(n: i32) -> (r: String)
    ensures
        r@ == spec_decimal_i32(n as int),
{
    if n >= 0 {
        u32_to_decimal(n as u32)
    } else {
        proof {
            reveal_strlit("-");
        }
        let mag: u32 = if n == i32::MIN {
            0x8000_0000u32
        } else {
            (-n) as u32
        };
        let mut s = String::from_str("-");
        let d = u32_to_decimal(mag);
        s.append(d.as_str());
        proof {
            assert(s@ =~= spec_decimal_i32(n as int));
        }
        s
    }
}

/// The unsigned 32-bit coercion, for the shapes that do not need the
/// host: `None` marks the shapes — text and objects — whose coercion only
/// the host can finish.
pub open spec fn spec_coerce_to_u32(v: Value) -> Option<u32> {
    match v {
        Value::Undefined => Some(0u32),
        Value::Null => Some(0u32),
        Value::Bool(b) => Some(
            if b {
                1u32
            } else {
                0u32
            },
        ),
        Value::Integer(i) => Some(i as u32),
        Value::Unsigned(u) => Some(u),
        Value::Number(bits) => Some(spec_number_to_u32(bits)),
        Value::String(_) => None,
        Value::Object(_) => None,
    }
}

/// The string coercion, for the shapes whose text is fixed by the
/// language: `None` marks the shapes — numbers and objects — whose
/// coercion only the host can finish.
pub open spec fn spec_coerce_to_string(v: Value) -> Option<Seq<char>> {
    match v {
        Value::Undefined => Some("undefined"@),
        Value::Null => Some("null"@),
        Value::Bool(b) => Some(
            if b {
                "true"@
            } else {
                "false"@
            },
        ),
        Value::Integer(i) => Some(spec_decimal_i32(i as int)),
        Value::Unsigned(u) => Some(spec_decimal(u as nat)),
        Value::String(s) => Some(s@),
        Value::Number(_) => None,
        Value::Object(_) => None,
    }
}

/// The boolean coercion of a value.
pub open spec fn spec_truthy(v: Value) -> bool {
    match v {
        Value::Undefined => false,
        Value::Null => false,
        Value::Bool(b) => b,
        Value::Integer(i) => i != 0,
        Value::Unsigned(u) => u != 0,
        Value::Number(bits) => spec_number_truthy(bits),
        Value::String(s) => s@.len() != 0,
        Value::Object(_) => true,
    }
}

impl Value {
    /// The boolean coercion. Nothing fails: the empty string, the zeroes,
    /// NaN, `Undefined` and `Null` coerce to false and every other value to
    /// true.
    pub fn coerce_to_boolean(&self) -> (r: bool)
        ensures
            r == spec_truthy(*self),
            r == match self {
                Value::Undefined => false,
                Value::Null => false,
                Value::Bool(b) => *b,
                Value::Integer(i) => *i != 0,
                Value::Unsigned(u) => *u != 0,
                Value::Number(bits) => spec_number_truthy(*bits),
                Value::String(s) => s@.len() != 0,
                Value::Object(_) => true,
            },
    {
        match self {
            Value::Undefined => false,
            Value::Null => false,
            Value::Bool(b) => *b,
            Value::Integer(i) => *i != 0,
            Value::Unsigned(u) => *u != 0,
            Value::Number(bits) => {
                let abs = *bits & 0x7fff_ffff_ffff_ffffu64;
                let exp = *bits & 0x7ff0_0000_0000_0000u64;
                let frac = *bits & 0x000f_ffff_ffff_ffffu64;
                abs != 0 && !(exp == 0x7ff0_0000_0000_0000u64 && frac != 0)
            },
            Value::String(s) => !s.as_str().is_empty(),
            Value::Object(_) => true,
        }
    }

    /// The string coercion, for the values whose text is fixed by the
    /// language: `Undefined`, `Null`, booleans, the two integer shapes and
    /// strings themselves. A `Number` needs float formatting and an `Object`
    /// needs a method call; both are the host's work, and the error says so.
    pub fn coerce_to_string(&self) -> (r: Result<String, EngineError>)
        ensures
            match spec_coerce_to_string(*self) {
                Some(t) => r is Ok && r->Ok_0@ == t,
                None => r == Err::<String, EngineError>(EngineError::HostCoercionRequired),
            },
            match self {
                Value::Undefined => r is Ok && r->Ok_0@ == "undefined"@,
                Value::Null => r is Ok && r->Ok_0@ == "null"@,
                Value::Bool(b) => r is Ok && r->Ok_0@ == (if *b {
                    "true"@
                } else {
                    "false"@
                }),
                Value::Integer(i) => r is Ok && r->Ok_0@ == spec_decimal_i32(*i as int),
                Value::Unsigned(u) => r is Ok && r->Ok_0@ == spec_decimal(*u as nat),
                Value::String(s) => r is Ok && r->Ok_0@ == s@,
                Value::Number(_) => r == Err::<String, EngineError>(
                    EngineError::HostCoercionRequired,
                ),
                Value::Object(_) => r == Err::<String, EngineError>(
                    EngineError::HostCoercionRequired,
                ),
            },
    {
        match self {
            Value::Undefined => Ok(String::from_str("undefined")),
            Value::Null => Ok(String::from_str("null")),
            Value::Bool(b) => {
                if *b {
                    Ok(String::from_str("true"))
                } else {
                    Ok(String::from_str("false"))
                }
            },
            Value::Integer(i) => Ok(i32_to_decimal(*i)),
            Value::Unsigned(u) => Ok(u32_to_decimal(*u)),
            Value::String(s) => Ok(s.clone()),
            Value::Number(_) => Err(EngineError::HostCoercionRequired),
            Value::Object(_) => Err(EngineError::HostCoercionRequired),
        }
    }

    /// The unsigned 32-bit coercion. Exact for every shape that does not
    /// need the host: numbers truncate toward zero modulo two to the
    /// thirty-second, by bit manipulation alone. A string would have to be
    /// parsed as a float and an object would need a method call; both
    /// report [`EngineError::HostCoercionRequired`].
    pub fn coerce_to_u32(&self) -> (r: Result<u32, EngineError>)
        ensures
            r == match spec_coerce_to_u32(*self) {
                Some(u) => Ok::<u32, EngineError>(u),
                None => Err::<u32, EngineError>(EngineError::HostCoercionRequired),
            },
            match self {
                Value::Undefined => r == Ok::<u32, EngineError>(0u32),
                Value::Null => r == Ok::<u32, EngineError>(0u32),
                Value::Bool(b) => r == Ok::<u32, EngineError>(if *b {
                    1u32
                } else {
                    0u32
                }),
                Value::Integer(i) => r == Ok::<u32, EngineError>(*i as u32),
                Value::Unsigned(u) => r == Ok::<u32, EngineError>(*u),
                Value::Number(bits) => r == Ok::<u32, EngineError>(spec_number_to_u32(*bits)),
                Value::String(_) => r == Err::<u32, EngineError>(
                    EngineError::HostCoercionRequired,
                ),
                Value::Object(_) => r == Err::<u32, EngineError>(
                    EngineError::HostCoercionRequired,
                ),
            },
    {
        match self {
            Value::Undefined => Ok(0),
            Value::Null => Ok(0),
            Value::Bool(b) => Ok(if *b {
                1
            } else {
                0
            }),
            Value::Integer(i) => Ok(*i as u32),
            Value::Unsigned(u) => Ok(*u),
            Value::Number(bits) => Ok(number_bits_to_u32(*bits)),
            Value::String(_) => Err(EngineError::HostCoercionRequired),
            Value::Object(_) => Err(EngineError::HostCoercionRequired),
        }
    }
}

/// Truncates an IEEE-754 bit pattern toward zero modulo two to the
/// thirty-second, entirely in integer arithmetic.
pub fn number_bits_to_u32(bits: u64) -> (r: u32)
    ensures
        r == spec_number_to_u32(bits),
{
    let exp = (bits >> 52u64) & 0x7ffu64;
    let frac = bits & 0x000f_ffff_ffff_ffffu64;
    if exp == 0x7ff {
        0
    } else if exp < 1023 {
        0
    } else {
        let m = frac | 0x0010_0000_0000_0000u64;
        let mag32: u32 = if exp >= 1075 {
            let shift = exp - 1075;
            if shift >= 32 {
                0
            } else {
                assert((m << shift) & 0xffff_ffffu64 <= 0xffff_ffffu64) by (bit_vector);
                ((m << shift) & 0xffff_ffffu64) as u32
            }
        } else {
            let shift = 1075 - exp;
            if shift >= 53 {
                0
            } else {
                assert((m >> shift) & 0xffff_ffffu64 <= 0xffff_ffffu64) by (bit_vector);
                ((m >> shift) & 0xffff_ffffu64) as u32
            }
        };
        if bits >> 63u64 == 1 {
            (0u32).wrapping_sub(mag32)
        } else {
            mag32
        }
    }
}

} // verus!
