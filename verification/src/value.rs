//! The values that a result row holds, and how a row identifier is read from
//! one.

use vstd::prelude::*;
use vstd::arithmetic::power2::{
    lemma2_to64, lemma2_to64_rest, lemma_pow2_strictly_increases, lemma_pow2_unfold, pow2,
};

verus! {

/// One value of a result row or of a parameter binding.
#[derive(Clone, Debug, PartialEq, Eq)]
pub enum Value {
    /// No value.
    Null,
    /// A signed integer.
    Integer(i64),
    /// A double-precision number, held as its IEEE-754 bit pattern.
    Float(u64),
    /// Text.
    Text(String),
    /// Bytes.
    Blob(Vec<u8>),
}

/// `i` reduced to the range of 32-bit signed integers by dropping the bits
/// above the lowest 32.
pub open spec fn wrap_to_i32(i: int) -> int {
    let low = i % 0x1_0000_0000;
    if low >= 0x8000_0000 {
        low - 0x1_0000_0000
    } else {
        low
    }
}

/// The sign bit of a double's bit pattern.
pub open spec fn real_sign(bits: u64) -> int {
    bits as int / 0x8000_0000_0000_0000
}

/// The biased exponent of a double's bit pattern.
pub open spec fn real_exponent(bits: u64) -> int {
    (bits as int / 0x10_0000_0000_0000) % 0x800
}

/// The fraction field of a double's bit pattern.
pub open spec fn real_fraction(bits: u64) -> int {
    bits as int % 0x10_0000_0000_0000
}

/// The number with bit pattern `bits`, rounded towards zero and held to the
/// range of 32-bit signed integers; not-a-number gives zero.
///
/// A finite double with biased exponent `e > 0` and fraction `f` has the
/// magnitude `(2^52 + f) * 2^(e - 1075)`.
pub open spec fn real_to_i32(bits: u64) -> int {
    let sign = real_sign(bits);
    let exponent = real_exponent(bits);
    let fraction = real_fraction(bits);
    if exponent == 0x7ff && fraction != 0 {
        0
    } else if exponent < 1023 {
        0
    } else if exponent >= 1023 + 31 {
        if sign == 1 {
            -0x8000_0000
        } else {
            0x7fff_ffff
        }
    } else {
        let magnitude = (0x10_0000_0000_0000 + fraction) / (pow2((1075 - exponent) as nat) as int);
        if sign == 1 {
            -magnitude
        } else {
            magnitude
        }
    }
}

/// Reduces `i` to 32 bits, keeping the lowest 32 bits as a signed integer.
pub fn truncate_integer(i: i64) -> (id: i32)
    ensures
        id == wrap_to_i32(i as int),
{
    match i.checked_rem_euclid(0x1_0000_0000) {
        Some(low) => {
            if low >= 0x8000_0000 {
                (low - 0x1_0000_0000) as i32
            } else {
                low as i32
            }
        },
        None => 0,
    }
}

/// `2^exponent`, for an exponent below 64.
fn power_of_two(exponent: u32) -> (p: u64)
    requires
        exponent < 64,
    ensures
        p == pow2(exponent as nat),
{
    let mut p: u64 = 1;
    let mut k: u32 = 0;
    proof {
        lemma2_to64();
    }
    while k < exponent
        invariant
            k <= exponent < 64,
            p == pow2(k as nat),
        decreases exponent - k,
    {
        proof {
            lemma_pow2_unfold((k + 1) as nat);
            lemma2_to64_rest();
            if k + 1 < 63 {
                lemma_pow2_strictly_increases((k + 1) as nat, 63);
            }
        }
        p = p * 2;
        k = k + 1;
    }
    p
}

/// Rounds the double with bit pattern `bits` towards zero and holds it to the
/// range of 32-bit signed integers; not-a-number gives zero.
pub fn truncate_real(bits: u64) -> (id: i32)
    ensures
        id == real_to_i32(bits),
{
    let negative = bits / 0x8000_0000_0000_0000 == 1;
    let exponent = (bits / 0x10_0000_0000_0000) % 0x800;
    let fraction = bits % 0x10_0000_0000_0000;
    if exponent == 0x7ff && fraction != 0 {
        0
    } else if exponent < 1023 {
        0
    } else if exponent >= 1023 + 31 {
        if negative {
            i32::MIN
        } else {
            i32::MAX
        }
    } else {
        let shift: u32 = (1075 - exponent) as u32;
        let divisor = power_of_two(shift);
        proof {
            lemma2_to64();
            lemma2_to64_rest();
            if shift > 22 {
                lemma_pow2_strictly_increases(22, shift as nat);
            }
            assert(divisor >= 0x40_0000);
        }
        let magnitude = (0x10_0000_0000_0000 + fraction) / divisor;
        proof {
            let whole: int = 0x10_0000_0000_0000 + fraction;
            let by: int = divisor as int;
            assert(whole / by < 0x8000_0000) by (nonlinear_arith)
                requires
                    by >= 0x40_0000,
                    0 <= whole < 0x20_0000_0000_0000,
            ;
        }
        if negative {
            -(magnitude as i32)
        } else {
            magnitude as i32
        }
    }
}

impl Value {
    /// The row identifier that the value stands for: an integer reduced to 32
    /// bits, or a number rounded towards zero; no other value is an identifier.
    pub open spec fn id(self) -> Option<int> {
        match self {
            Value::Integer(i) => Some(wrap_to_i32(i as int)),
            Value::Float(bits) => Some(real_to_i32(bits)),
            _ => None,
        }
    }

    /// Reads a row identifier from an integer or a number.
    pub fn row_id(&self) -> (id: Option<i32>)
        ensures
            id.is_some() == self.id().is_some(),
            id.is_some() ==> id.unwrap() == self.id().unwrap(),
    {
        match self {
            Value::Integer(i) => Some(truncate_integer(*i)),
            Value::Float(bits) => Some(truncate_real(*bits)),
            _ => None,
        }
    }

    /// Reads a row identifier from a number; an integer is not accepted.
    pub fn real_id(&self) -> (id: Option<i32>)
        ensures
            id.is_some() == (self is Float),
            self is Float ==> id.unwrap() == real_to_i32(self->Float_0),
    {
        match self {
            Value::Float(bits) => Some(truncate_real(*bits)),
            _ => None,
        }
    }

    /// The integer that the value holds, if it is one.
    pub fn integer(&self) -> (i: Option<i64>)
        ensures
            i == (match *self {
                Value::Integer(v) => Some(v),
                _ => None,
            }),
    {
        match self {
            Value::Integer(v) => Some(*v),
            _ => None,
        }
    }

    /// The text that the value holds, if it is text.
    pub fn text(&self) -> (t: Option<&String>)
        ensures
            t == (match self {
                Value::Text(s) => Some(s),
                _ => None,
            }),
    {
        match self {
            Value::Text(s) => Some(s),
            _ => None,
        }
    }

    /// The bytes that the value holds, if it is a blob.
    pub fn blob(&self) -> (b: Option<&Vec<u8>>)
        ensures
            b == (match self {
                Value::Blob(v) => Some(v),
                _ => None,
            }),
    {
        match self {
            Value::Blob(v) => Some(v),
            _ => None,
        }
    }
}

} // verus!
