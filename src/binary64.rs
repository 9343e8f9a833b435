//! A double-precision value held as its IEEE 754 binary64 bit pattern.
//!
//! A finite pattern denotes the exact value `scaled_value(b) / 2^1074`;
//! comparisons are proved to follow that value.

use vstd::arithmetic::power2::*;
use vstd::prelude::*;

verus! {

/// Weight of the sign bit.
pub const SIGN_BIT: u64 = 0x8000_0000_0000_0000;

/// The exponent field value that marks an infinity or a NaN.
pub const MAX_EXPONENT: u64 = 0x7ff;

/// Weight of the lowest exponent bit, i.e. the size of the fraction field.
pub const FRACTION_SPAN: u64 = 0x0010_0000_0000_0000;

/// A binary64 value, stored as its bit pattern.
#[derive(Clone, Copy, Debug)]
pub struct Binary64 {
    pub bits: u64,
}

/// The bit pattern without its sign.
pub open spec fn magnitude_bits(b: u64) -> nat {
    (b % 0x8000_0000_0000_0000) as nat
}

pub open spec fn is_negative(b: u64) -> bool {
    b >= 0x8000_0000_0000_0000
}

pub open spec fn exponent_field(b: u64) -> nat {
    magnitude_bits(b) / 0x0010_0000_0000_0000
}

pub open spec fn fraction_field(b: u64) -> nat {
    magnitude_bits(b) % 0x0010_0000_0000_0000
}

/// Neither an infinity nor a NaN.
pub open spec fn is_finite(b: u64) -> bool {
    exponent_field(b) < 0x7ff
}

/// The absolute value of a magnitude pattern, in units of 2^-1074.
pub open spec fn magnitude_units(m: nat) -> nat {
    let e = m / 0x0010_0000_0000_0000;
    let f = m % 0x0010_0000_0000_0000;
    if e == 0 {
        f
    } else {
        ((0x0010_0000_0000_0000 + f) * pow2((e - 1) as nat)) as nat
    }
}

/// The exact value of a finite pattern, in units of 2^-1074.
pub open spec fn scaled_value(b: u64) -> int {
    if is_negative(b) {
        -magnitude_units(magnitude_bits(b))
    } else {
        magnitude_units(magnitude_bits(b)) as int
    }
}

/// The total order on patterns that IEEE comparison follows on finite values
/// (both zeros map to 0).
pub open spec fn order_key(b: u64) -> int {
    if is_negative(b) {
        -magnitude_bits(b)
    } else {
        magnitude_bits(b) as int
    }
}

/// `magnitude_units` is strictly increasing below the infinity pattern.
pub proof fn lemma_magnitude_units_increasing(m1: nat, m2: nat)
    requires
        m1 < m2,
        m2 / 0x0010_0000_0000_0000 < 0x7ff,
    ensures
        magnitude_units(m1) < magnitude_units(m2),
{
    let span: nat = 0x0010_0000_0000_0000;
    let e1 = m1 / span;
    let e2 = m2 / span;
    let f1 = m1 % span;
    let f2 = m2 % span;
    assert(e1 <= e2) by (nonlinear_arith)
        requires m1 < m2, e1 == m1 / span, e2 == m2 / span, span > 0;
    if e1 == e2 {
        assert(f1 < f2) by (nonlinear_arith)
            requires m1 < m2, e1 == m1 / span, e2 == m2 / span, e1 == e2,
                f1 == m1 % span, f2 == m2 % span, span > 0;
        if e1 > 0 {
            let p = pow2((e1 - 1) as nat);
            lemma_pow2_pos((e1 - 1) as nat);
            assert((span + f1) * p < (span + f2) * p) by (nonlinear_arith)
                requires f1 < f2, p > 0;
        }
    } else {
        let pow_hi = pow2((e2 - 1) as nat);
        lemma_pow2_pos((e2 - 1) as nat);
        assert(span * pow_hi <= (span + f2) * pow_hi) by (nonlinear_arith)
            requires pow_hi > 0;
        if e1 == 0 {
            assert(span <= span * pow_hi) by (nonlinear_arith)
                requires pow_hi >= 1;
        } else {
            let pow_lo = pow2((e1 - 1) as nat);
            lemma_pow2_pos((e1 - 1) as nat);
            lemma_pow2_unfold(e1);
            if e1 < e2 - 1 {
                lemma_pow2_strictly_increases(e1, (e2 - 1) as nat);
            }
            assert(pow2(e1) <= pow_hi);
            assert((span + f1) * pow_lo < span * (2 * pow_lo)) by (nonlinear_arith)
                requires f1 < span, pow_lo > 0;
            assert(span * pow2(e1) <= span * pow_hi) by (nonlinear_arith)
                requires pow2(e1) <= pow_hi;
        }
    }
}

/// On finite patterns, the order key orders exactly as the values do.
pub proof fn lemma_order_key_follows_value(a: u64, b: u64)
    requires
        is_finite(a),
        is_finite(b),
    ensures
        (order_key(a) < order_key(b)) == (scaled_value(a) < scaled_value(b)),
        (order_key(a) <= order_key(b)) == (scaled_value(a) <= scaled_value(b)),
{
    let ma = magnitude_bits(a);
    let mb = magnitude_bits(b);
    assert(magnitude_units(0) == 0);
    if ma < mb {
        lemma_magnitude_units_increasing(ma, mb);
    } else if mb < ma {
        lemma_magnitude_units_increasing(mb, ma);
    }
    if ma > 0 {
        lemma_magnitude_units_increasing(0, ma);
    }
    if mb > 0 {
        lemma_magnitude_units_increasing(0, mb);
    }
}

impl Binary64 {
    pub open spec fn finite(&self) -> bool {
        is_finite(self.bits)
    }

    /// The exact value, in units of 2^-1074 (meaningful when finite).
    pub open spec fn value(&self) -> int {
        scaled_value(self.bits)
    }

    pub fn from_bits(bits: u64) -> (r: Binary64)
        ensures
            r.bits == bits,
    {
        Binary64 { bits }
    }

    pub fn to_bits(&self) -> (r: u64)
        ensures
            r == self.bits,
    {
        self.bits
    }

    pub fn is_finite(&self) -> (r: bool)
        ensures
            r == self.finite(),
    {
        (self.bits % SIGN_BIT) / FRACTION_SPAN < MAX_EXPONENT
    }

    fn key(&self) -> (r: i64)
        ensures
            r == order_key(self.bits),
    {
        let m = self.bits % SIGN_BIT;
        if self.bits >= SIGN_BIT {
            -(m as i64)
        } else {
            m as i64
        }
    }

    /// `self > other`, for two finite values.
    pub fn greater_than(&self, other: &Binary64) -> (r: bool)
        requires
            self.finite(),
            other.finite(),
        ensures
            r == (self.value() > other.value()),
    {
        proof {
            lemma_order_key_follows_value(self.bits, other.bits);
        }
        self.key() > other.key()
    }

    /// `self >= other`, for two finite values.
    pub fn at_least(&self, other: &Binary64) -> (r: bool)
        requires
            self.finite(),
            other.finite(),
        ensures
            r == (self.value() >= other.value()),
    {
        proof {
            lemma_order_key_follows_value(other.bits, self.bits);
        }
        self.key() >= other.key()
    }
}

} // verus!
