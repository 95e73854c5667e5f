use vstd::arithmetic::power2::{
    lemma2_to64, lemma_pow2_pos, lemma_pow2_strictly_increases, lemma_pow2_unfold, pow2,
};
use vstd::prelude::*;

verus! {

/// The weight of the sign bit of a binary64 number.
pub const SIGN_WEIGHT: u64 = 0x8000_0000_0000_0000;

/// The weight of the lowest exponent bit of a binary64 number.
pub const EXPONENT_WEIGHT: u64 = 0x0010_0000_0000_0000;

/// The bits of positive infinity. Bits without the sign that lie above it
/// stand for no number.
pub const INFINITY_BITS: u64 = 0x7ff0_0000_0000_0000;

/// What a binary64 number with these bits, sign bit clear, is worth in units of
/// the smallest positive one. Infinity gets a value above every finite one.
pub open spec fn magnitude(bits: int) -> int {
    let exponent = bits / (EXPONENT_WEIGHT as int);
    let fraction = bits % (EXPONENT_WEIGHT as int);
    if exponent == 0 {
        fraction
    } else {
        (EXPONENT_WEIGHT + fraction) * pow2((exponent - 1) as nat)
    }
}

/// An amount in US dollars: an IEEE 754 binary64 number, held as its bits.
#[derive(Debug, Clone, Copy)]
pub struct UsdAmount {
    pub bits: u64,
}

impl UsdAmount {
    /// The bits without the sign.
    pub open spec fn unsigned_bits(self) -> int {
        self.bits as int % (SIGN_WEIGHT as int)
    }

    /// The sign bit is set.
    pub open spec fn has_sign(self) -> bool {
        self.bits >= SIGN_WEIGHT
    }

    /// The amount is neither infinite nor NaN.
    pub open spec fn finite(self) -> bool {
        self.unsigned_bits() < INFINITY_BITS
    }

    /// The amount stands for no number at all.
    pub open spec fn nan(self) -> bool {
        self.unsigned_bits() > INFINITY_BITS
    }

    /// What the amount is worth, in units of the smallest positive amount.
    /// Means nothing for NaN.
    pub open spec fn value(self) -> int {
        if self.has_sign() {
            -magnitude(self.unsigned_bits())
        } else {
            magnitude(self.unsigned_bits())
        }
    }

    /// The amounts are equal as numbers: both zeros are one number, and NaN
    /// equals nothing.
    pub open spec fn same_amount(self, other: UsdAmount) -> bool {
        !self.nan() && !other.nan() && self.value() == other.value()
    }

    /// The amount is at least the other one. Never so where one of them is NaN.
    pub open spec fn reaches(self, other: UsdAmount) -> bool {
        !self.nan() && !other.nan() && self.value() >= other.value()
    }

    /// The amount is a number below zero; negative zero is not.
    pub open spec fn negative(self) -> bool {
        !self.nan() && self.value() < 0
    }

    fn without_sign(&self) -> (bits: u64)
        ensures
            bits == self.unsigned_bits(),
    {
        if self.bits >= SIGN_WEIGHT {
            self.bits - SIGN_WEIGHT
        } else {
            self.bits
        }
    }

    /// Tells whether the amount is neither infinite nor NaN.
    pub fn is_finite(&self) -> (r: bool)
        ensures
            r == self.finite(),
            r <==> (self.bits < 0x7ff0_0000_0000_0000 || 0x8000_0000_0000_0000 <= self.bits
                < 0xfff0_0000_0000_0000),
    {
        self.without_sign() < INFINITY_BITS
    }

    /// Tells whether the amount is a number below zero.
    pub fn is_negative(&self) -> (r: bool)
        ensures
            r == self.negative(),
            r <==> 0x8000_0000_0000_0000 < self.bits <= 0xfff0_0000_0000_0000,
    {
        let bits = self.without_sign();
        proof {
            magnitude_orders_bits(0, bits as int);
            magnitude_of_zero();
        }
        self.bits >= SIGN_WEIGHT && 0 < bits && bits <= INFINITY_BITS
    }

    /// Tells whether the amount is a number that is at least `other`.
    pub fn is_at_least(&self, other: &UsdAmount) -> (r: bool)
        ensures
            r == self.reaches(*other),
    {
        let left = self.without_sign();
        let right = other.without_sign();
        proof {
            magnitude_orders_bits(left as int, right as int);
            magnitude_orders_bits(0, left as int);
            magnitude_orders_bits(0, right as int);
            magnitude_of_zero();
        }
        if left > INFINITY_BITS || right > INFINITY_BITS {
            false
        } else if self.bits < SIGN_WEIGHT {
            other.bits >= SIGN_WEIGHT || left >= right
        } else if other.bits < SIGN_WEIGHT {
            left == 0 && right == 0
        } else {
            left <= right
        }
    }
}

impl PartialEq for UsdAmount {
    fn eq(&self, other: &UsdAmount) -> (r: bool) {
        let left = self.without_sign();
        let right = other.without_sign();
        proof {
            magnitude_orders_bits(left as int, right as int);
            magnitude_orders_bits(0, left as int);
            magnitude_orders_bits(0, right as int);
            magnitude_of_zero();
        }
        left <= INFINITY_BITS && right <= INFINITY_BITS && (self.bits == other.bits || (left == 0
            && right == 0))
    }
}

impl vstd::std_specs::cmp::PartialEqSpecImpl for UsdAmount {
    open spec fn obeys_eq_spec() -> bool {
        true
    }

    open spec fn eq_spec(&self, other: &UsdAmount) -> bool {
        self.same_amount(*other)
    }
}

/// The bits of zero are worth nothing.
proof fn magnitude_of_zero()
    ensures
        magnitude(0) == 0,
{
}

/// Bits without the sign are ordered as the amounts that they stand for.
pub proof fn magnitude_orders_bits(a: int, b: int)
    requires
        0 <= a,
        0 <= b,
    ensures
        a < b <==> magnitude(a) < magnitude(b),
        a == b <==> magnitude(a) == magnitude(b),
{
    if a < b {
        magnitude_grows(a, b);
    } else if b < a {
        magnitude_grows(b, a);
    }
}

proof fn magnitude_grows(a: int, b: int)
    requires
        0 <= a < b,
    ensures
        magnitude(a) < magnitude(b),
{
    let unit = EXPONENT_WEIGHT as int;
    let (exp_a, frac_a) = (a / unit, a % unit);
    let (exp_b, frac_b) = (b / unit, b % unit);
    if exp_b > 0 {
        let scale_b = pow2((exp_b - 1) as nat);
        lemma_pow2_pos((exp_b - 1) as nat);
        assert((unit + frac_b) * scale_b >= unit * scale_b) by (nonlinear_arith)
            requires
                frac_b >= 0,
                scale_b > 0,
        ;
        if exp_a == 0 {
            assert(unit * scale_b >= unit) by (nonlinear_arith)
                requires
                    unit > 0,
                    scale_b >= 1,
            ;
        } else {
            let scale_a = pow2((exp_a - 1) as nat);
            lemma_pow2_pos((exp_a - 1) as nat);
            if exp_a == exp_b {
                assert((unit + frac_a) * scale_a < (unit + frac_b) * scale_a) by (nonlinear_arith)
                    requires
                        frac_a < frac_b,
                        scale_a > 0,
                ;
            } else {
                lemma_pow2_unfold(exp_a as nat);
                if exp_a < exp_b - 1 {
                    lemma_pow2_strictly_increases(exp_a as nat, (exp_b - 1) as nat);
                }
                assert((unit + frac_a) * scale_a < unit * scale_b) by (nonlinear_arith)
                    requires
                        0 <= frac_a < unit,
                        scale_a > 0,
                        scale_b >= 2 * scale_a,
                ;
            }
        }
    }
}

/// Of two amounts that are numbers, one is at least the other, and both are
/// at least the other exactly when they are equal.
pub proof fn numbers_are_ordered(a: UsdAmount, b: UsdAmount)
    requires
        !a.nan(),
        !b.nan(),
    ensures
        a.reaches(b) || b.reaches(a),
        a.reaches(b) && b.reaches(a) <==> a.same_amount(b),
{
}

/// Every finite amount equals itself and reaches itself.
pub proof fn finite_amount_equals_itself(a: UsdAmount)
    requires
        a.finite(),
    ensures
        a.same_amount(a),
        a.reaches(a),
{
}

/// The bits stand for a number, perhaps an infinite one: its sign bit is clear.
pub open spec fn number_from_zero(bits: u64) -> bool {
    bits <= 0x7ff0_0000_0000_0000
}

/// The bits stand for a number, perhaps an infinite one: its sign bit is set.
pub open spec fn number_up_to_zero(bits: u64) -> bool {
    0x8000_0000_0000_0000 <= bits <= 0xfff0_0000_0000_0000
}

/// One amount is at least another only where both are numbers. Those without a
/// sign are ordered as their bits, those with a sign the other way round, and the
/// former are at least the latter; zero with a sign is at least zero without.
pub proof fn amounts_are_ordered_by_their_bits(a: UsdAmount, b: UsdAmount, r: bool)
    requires
        call_ensures(UsdAmount::is_at_least, (&a, &b), r),
    ensures
        r == a.reaches(b),
        r ==> number_from_zero(a.bits) || number_up_to_zero(a.bits),
        r ==> number_from_zero(b.bits) || number_up_to_zero(b.bits),
        number_from_zero(a.bits) && number_from_zero(b.bits) ==> (r <==> a.bits >= b.bits),
        number_up_to_zero(a.bits) && number_up_to_zero(b.bits) ==> (r <==> a.bits <= b.bits),
        number_from_zero(a.bits) && number_up_to_zero(b.bits) ==> r,
        number_up_to_zero(a.bits) && number_from_zero(b.bits) ==> (r <==> a.bits
            == 0x8000_0000_0000_0000 && b.bits == 0),
{
    amounts_compare_as_bits(a, b);
}

/// Amounts are equal exactly where they are numbers with the same bits, or both
/// are zero.
pub proof fn amounts_are_equal_by_their_bits(a: UsdAmount, b: UsdAmount, r: bool)
    requires
        call_ensures(UsdAmount::eq, (&a, &b), r),
    ensures
        r == a.same_amount(b),
        r <==> (a.bits == b.bits && (number_from_zero(a.bits) || number_up_to_zero(a.bits))) || (
        a.bits == 0 && b.bits == 0x8000_0000_0000_0000) || (a.bits == 0x8000_0000_0000_0000
            && b.bits == 0),
{
    amounts_compare_as_bits(a, b);
}

proof fn amounts_compare_as_bits(a: UsdAmount, b: UsdAmount)
    ensures
        a.unsigned_bits() < b.unsigned_bits() <==> magnitude(a.unsigned_bits()) < magnitude(
            b.unsigned_bits(),
        ),
        a.unsigned_bits() == b.unsigned_bits() <==> magnitude(a.unsigned_bits()) == magnitude(
            b.unsigned_bits(),
        ),
        a.unsigned_bits() == 0 <==> magnitude(a.unsigned_bits()) == 0,
        b.unsigned_bits() == 0 <==> magnitude(b.unsigned_bits()) == 0,
        magnitude(a.unsigned_bits()) >= 0,
        magnitude(b.unsigned_bits()) >= 0,
{
    magnitude_orders_bits(a.unsigned_bits(), b.unsigned_bits());
    magnitude_orders_bits(0, a.unsigned_bits());
    magnitude_orders_bits(0, b.unsigned_bits());
    magnitude_of_zero();
}

/// The smallest amounts are worth as many units as their bits count: so it is up
/// to twice the weight of an exponent.
pub proof fn small_amounts_count_units(bits: u64)
    requires
        bits <= 0x0020_0000_0000_0000,
    ensures
        (UsdAmount { bits }).value() == bits,
{
    lemma2_to64();
    let unit = 0x0010_0000_0000_0000int;
    if bits >= unit {
        let exponent = bits as int / unit;
        let fraction = bits as int % unit;
        assert(exponent == 1 || (exponent == 2 && fraction == 0));
        if exponent == 1 {
            assert((unit + fraction) * pow2(0) == unit + fraction);
        } else {
            assert((unit + fraction) * pow2(1) == 2 * unit);
        }
    }
}

/// The next exponent doubles an amount.
pub proof fn next_exponent_doubles(bits: u64)
    requires
        0x0010_0000_0000_0000 <= bits < 0x7fe0_0000_0000_0000,
    ensures
        (UsdAmount { bits: (bits + 0x0010_0000_0000_0000) as u64 }).value() == 2 * (UsdAmount {
            bits,
        }).value(),
{
    let exponent = bits as int / 0x0010_0000_0000_0000;
    let fraction = bits as int % 0x0010_0000_0000_0000;
    let next = bits + 0x0010_0000_0000_0000;
    assert(next / 0x0010_0000_0000_0000 == exponent + 1);
    assert(next % 0x0010_0000_0000_0000 == fraction);
    lemma_pow2_unfold(exponent as nat);
    let (n, scale) = (0x0010_0000_0000_0000 + fraction, pow2((exponent - 1) as nat) as int);
    assert(n * (2 * scale) == 2 * (n * scale)) by (nonlinear_arith);
}

/// The sign bit turns an amount into its opposite.
pub proof fn sign_turns_an_amount_round(bits: u64)
    requires
        bits < 0x8000_0000_0000_0000,
    ensures
        (UsdAmount { bits: (bits + 0x8000_0000_0000_0000) as u64 }).value() == -(UsdAmount {
            bits,
        }).value(),
{
}

} // verus!
