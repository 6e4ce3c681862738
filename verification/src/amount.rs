//! Monetary values: decimal numbers of up to 28 fractional digits.
//!
//! An [`Amount`] is a whole number, the mantissa, and the number of its digits
//! that stand behind the decimal point, the scale. Sums, differences,
//! comparisons and rounding are computed by `rust_decimal`; the contracts of
//! the private functions at the end of this file say what is taken on trust of
//! it. Each of them turns its amounts into decimals with
//! `Decimal::from_i128_with_scale` and reads a decimal back with `mantissa`
//! and `scale`, so a zero comes back without a sign.

use rust_decimal::Decimal;
use vstd::prelude::*;

verus! {

/// The largest scale of an amount.
pub const MAX_SCALE: u32 = 28;

/// The largest mantissa of an amount: 2^96 - 1.
pub const MAX_MANTISSA: i128 = 79_228_162_514_264_337_593_543_950_335;

/// A decimal number: `mantissa / 10^scale`.
#[derive(Debug, Clone, Copy)]
pub struct Amount {
    pub mantissa: i128,
    pub scale: u32,
}

/// Ten to the power of `n`.
pub open spec fn pow10(n: nat) -> int
    decreases n,
{
    if n == 0 {
        1
    } else {
        10 * pow10((n - 1) as nat)
    }
}

/// What `rust_decimal` returns for the checked sum of two decimals, each given
/// by mantissa and scale: the mantissa and scale of the sum, or `None` where
/// the sum is out of range.
pub uninterp spec fn decimal_sum(a_mantissa: int, a_scale: int, b_mantissa: int, b_scale: int) -> Option<(int, int)>;

/// What `rust_decimal` returns for the checked difference of two decimals,
/// each given by mantissa and scale.
pub uninterp spec fn decimal_difference(
    a_mantissa: int,
    a_scale: int,
    b_mantissa: int,
    b_scale: int,
) -> Option<(int, int)>;

/// The text that `rust_decimal` writes for a decimal given by mantissa and
/// scale.
pub uninterp spec fn decimal_text(mantissa: int, scale: int) -> Seq<char>;

/// The amount with a given mantissa and scale, if there is one.
pub open spec fn amount_of(parts: Option<(int, int)>) -> Option<Amount> {
    match parts {
        Some((m, s)) => Some(Amount { mantissa: m as i128, scale: s as u32 }),
        None => None,
    }
}

impl Amount {
    /// The mantissa has at most 96 bits and the scale is at most 28.
    pub open spec fn wf(self) -> bool {
        &&& -MAX_MANTISSA <= self.mantissa <= MAX_MANTISSA
        &&& self.scale <= MAX_SCALE
    }

    /// The number that the amount stands for, counted in units of 10^-28.
    pub open spec fn value(self) -> int {
        self.mantissa * pow10((MAX_SCALE - self.scale) as nat)
    }

    /// The mantissa that the amount has when written with `scale` digits
    /// behind the point, for a `scale` that is not smaller than its own.
    pub open spec fn aligned(self, scale: u32) -> int {
        self.mantissa * pow10((scale - self.scale) as nat)
    }

    /// The larger of two amounts' scales.
    pub open spec fn wider_scale(a: Amount, b: Amount) -> u32 {
        if a.scale >= b.scale {
            a.scale
        } else {
            b.scale
        }
    }

    /// Both amounts are non-zero, both mantissas have at most 64 bits, and the
    /// scales are at most 19 apart: sums and differences of such a pair are
    /// computed without rounding as long as the result has at most 96 bits.
    pub open spec fn short_pair(a: Amount, b: Amount) -> bool {
        &&& a.mantissa != 0
        &&& b.mantissa != 0
        &&& -0x1_0000_0000_0000_0000 < a.mantissa < 0x1_0000_0000_0000_0000
        &&& -0x1_0000_0000_0000_0000 < b.mantissa < 0x1_0000_0000_0000_0000
        &&& a.scale - b.scale <= 19
        &&& b.scale - a.scale <= 19
    }

    /// The mantissa of `a + b` at the larger of the two scales.
    pub open spec fn aligned_sum(a: Amount, b: Amount) -> int {
        a.aligned(Self::wider_scale(a, b)) + b.aligned(Self::wider_scale(a, b))
    }

    /// The mantissa of `a - b` at the larger of the two scales.
    pub open spec fn aligned_difference(a: Amount, b: Amount) -> int {
        a.aligned(Self::wider_scale(a, b)) - b.aligned(Self::wider_scale(a, b))
    }

    /// The sum of two amounts as `rust_decimal` computes it; `None` where it
    /// is out of range.
    pub open spec fn sum(a: Amount, b: Amount) -> Option<Amount> {
        amount_of(decimal_sum(a.mantissa as int, a.scale as int, b.mantissa as int, b.scale as int))
    }

    /// The difference of two amounts as `rust_decimal` computes it; `None`
    /// where it is out of range.
    pub open spec fn difference(a: Amount, b: Amount) -> Option<Amount> {
        amount_of(
            decimal_difference(a.mantissa as int, a.scale as int, b.mantissa as int, b.scale as int),
        )
    }

    /// The sum of the two amounts is known to be exact: one of them is zero,
    /// or they are a short pair whose sum has at most 96 bits.
    pub open spec fn adds_exactly(a: Amount, b: Amount) -> bool {
        ||| a.mantissa == 0
        ||| b.mantissa == 0
        ||| (Self::short_pair(a, b) && -MAX_MANTISSA <= Self::aligned_sum(a, b) <= MAX_MANTISSA)
    }

    /// The difference of the two amounts is known to be exact.
    pub open spec fn subtracts_exactly(a: Amount, b: Amount) -> bool {
        ||| a.mantissa == 0
        ||| b.mantissa == 0
        ||| (Self::short_pair(a, b) && -MAX_MANTISSA <= Self::aligned_difference(a, b)
            <= MAX_MANTISSA)
    }

    /// The sum of two amounts that add exactly: the other amount where one
    /// is zero, else the aligned sum at the larger scale.
    pub open spec fn exact_sum(a: Amount, b: Amount) -> Amount {
        if a.mantissa == 0 {
            b
        } else if b.mantissa == 0 {
            a
        } else {
            Amount { mantissa: Self::aligned_sum(a, b) as i128, scale: Self::wider_scale(a, b) }
        }
    }

    /// The difference of two amounts that subtract exactly: the opposite of
    /// the second where the first is zero, the first where the second is
    /// zero, else the aligned difference at the larger scale.
    pub open spec fn exact_difference(a: Amount, b: Amount) -> Amount {
        if a.mantissa == 0 {
            Amount { mantissa: (-b.mantissa) as i128, scale: b.scale }
        } else if b.mantissa == 0 {
            a
        } else {
            Amount {
                mantissa: Self::aligned_difference(a, b) as i128,
                scale: Self::wider_scale(a, b),
            }
        }
    }

    /// The amount rounded to `dp` fractional digits, a half going to the even
    /// neighbour. An amount with no more than `dp` digits stays as it is.
    pub open spec fn rounded(self, dp: u32) -> Amount {
        if self.scale <= dp {
            self
        } else {
            let unit = pow10((self.scale - dp) as nat);
            let magnitude = if self.mantissa < 0 {
                -self.mantissa
            } else {
                self.mantissa as int
            };
            let whole = magnitude / unit;
            let rest = magnitude % unit;
            let up = 2 * rest > unit || (2 * rest == unit && whole % 2 == 1);
            let kept = if up {
                whole + 1
            } else {
                whole
            };
            Amount {
                mantissa: (if self.mantissa < 0 {
                    -kept
                } else {
                    kept
                }) as i128,
                scale: dp,
            }
        }
    }

    /// The text of the amount: the digits of the mantissa with the point
    /// `scale` digits from the right, as `rust_decimal` writes it.
    pub open spec fn text(self) -> Seq<char> {
        decimal_text(self.mantissa as int, self.scale as int)
    }

    /// The amount `mantissa / 10^scale`, or `None` where the mantissa has more
    /// than 96 bits or the scale is above 28.
    pub fn new(mantissa: i128, scale: u32) -> (r: Option<Amount>)
        ensures
            r is Some <==> (Amount { mantissa, scale }).wf(),
            r is Some ==> r.unwrap().mantissa == mantissa && r.unwrap().scale == scale,
    {
        if scale <= MAX_SCALE && -MAX_MANTISSA <= mantissa && mantissa <= MAX_MANTISSA {
            Some(Amount { mantissa, scale })
        } else {
            None
        }
    }

    /// Zero, with no fractional digits.
    pub fn zero() -> (r: Amount)
        ensures
            r.mantissa == 0,
            r.scale == 0,
            r.wf(),
            r.value() == 0,
    {
        Amount { mantissa: 0, scale: 0 }
    }

    /// Whether the amount is in range.
    pub fn is_wf(&self) -> (r: bool)
        ensures
            r == self.wf(),
    {
        self.scale <= MAX_SCALE && -MAX_MANTISSA <= self.mantissa && self.mantissa <= MAX_MANTISSA
    }

    /// Whether the amount is above zero.
    pub fn is_positive(&self) -> (r: bool)
        ensures
            r == (self.mantissa > 0),
            self.wf() ==> r == (self.value() > 0),
    {
        proof {
            if self.wf() {
                lemma_value_sign(*self);
            }
        }
        self.mantissa > 0
    }

    /// Whether the amount is below zero.
    pub fn is_negative(&self) -> (r: bool)
        ensures
            r == (self.mantissa < 0),
            self.wf() ==> r == (self.value() < 0),
    {
        proof {
            if self.wf() {
                lemma_value_sign(*self);
            }
        }
        self.mantissa < 0
    }

    /// The sum of two amounts, `None` where it is out of range. Where the sum
    /// is known to be exact, it is returned and stands for the sum of the two
    /// numbers.
    pub fn checked_add(self, other: Amount) -> (r: Option<Amount>)
        requires
            self.wf(),
            other.wf(),
        ensures
            r == Amount::sum(self, other),
            r is Some ==> r.unwrap().wf(),
            Amount::adds_exactly(self, other) ==> r == Some(Amount::exact_sum(self, other))
                && r.unwrap().value() == self.value() + other.value(),
    {
        proof {
            if Amount::adds_exactly(self, other) {
                lemma_exact_sum_value(self, other);
            }
        }
        decimal_checked_add(self, other)
    }

    /// The difference of two amounts, `None` where it is out of range. Where
    /// the difference is known to be exact, it is returned and stands for the
    /// difference of the two numbers.
    pub fn checked_sub(self, other: Amount) -> (r: Option<Amount>)
        requires
            self.wf(),
            other.wf(),
        ensures
            r == Amount::difference(self, other),
            r is Some ==> r.unwrap().wf(),
            Amount::subtracts_exactly(self, other) ==> r == Some(
                Amount::exact_difference(self, other),
            ) && r.unwrap().value() == self.value() - other.value(),
    {
        proof {
            if Amount::subtracts_exactly(self, other) {
                lemma_exact_difference_value(self, other);
            }
        }
        decimal_checked_sub(self, other)
    }

    /// Whether the amount is the smaller number of the two.
    pub fn less_than(&self, other: &Amount) -> (r: bool)
        requires
            self.wf(),
            other.wf(),
        ensures
            r == (self.value() < other.value()),
    {
        decimal_less(*self, *other)
    }

    /// The amount rounded to `dp` fractional digits, half to even.
    pub fn round_dp(&self, dp: u32) -> (r: Amount)
        requires
            self.wf(),
        ensures
            r == self.rounded(dp),
            r.wf(),
    {
        decimal_round(*self, dp)
    }

    /// The amount in decimal notation.
    pub fn to_text(&self) -> (r: String)
        requires
            self.wf(),
        ensures
            r@ == self.text(),
    {
        decimal_to_text(*self)
    }
}

/// Two amounts in range are equal where they stand for the same number,
/// whatever their scales; others, where mantissa and scale agree.
impl PartialEq for Amount {
    fn eq(&self, other: &Amount) -> (r: bool) {
        if self.is_wf() && other.is_wf() {
            decimal_equal(*self, *other)
        } else {
            self.mantissa == other.mantissa && self.scale == other.scale
        }
    }
}

impl vstd::std_specs::cmp::PartialEqSpecImpl for Amount {
    open spec fn obeys_eq_spec() -> bool {
        true
    }

    open spec fn eq_spec(&self, other: &Amount) -> bool {
        if self.wf() && other.wf() {
            self.value() == other.value()
        } else {
            self.mantissa == other.mantissa && self.scale == other.scale
        }
    }
}

/// Powers of ten are positive.
pub proof fn lemma_pow10_positive(n: nat)
    ensures
        pow10(n) > 0,
    decreases n,
{
    if n > 0 {
        lemma_pow10_positive((n - 1) as nat);
    }
}

/// Ten to a sum is the product of the powers.
pub proof fn lemma_pow10_adds(m: nat, n: nat)
    ensures
        pow10(m + n) == pow10(m) * pow10(n),
    decreases m,
{
    if m == 0 {
        assert(pow10(0 + n) == 1 * pow10(n));
    } else {
        lemma_pow10_adds((m - 1) as nat, n);
        assert(pow10(m + n) == 10 * pow10((m - 1 + n) as nat));
        assert(10 * (pow10((m - 1) as nat) * pow10(n)) == (10 * pow10((m - 1) as nat)) * pow10(n))
            by (nonlinear_arith);
    }
}

/// An amount's number has the sign of its mantissa.
pub proof fn lemma_value_sign(a: Amount)
    requires
        a.wf(),
    ensures
        a.mantissa > 0 <==> a.value() > 0,
        a.mantissa < 0 <==> a.value() < 0,
        a.mantissa == 0 <==> a.value() == 0,
{
    let p = pow10((MAX_SCALE - a.scale) as nat);
    lemma_pow10_positive((MAX_SCALE - a.scale) as nat);
    let m = a.mantissa as int;
    assert(p > 0 ==> ((m > 0 <==> m * p > 0) && (m < 0 <==> m * p < 0) && (m == 0 <==> m * p == 0)))
        by (nonlinear_arith);
}

/// Writing an amount with more fractional digits does not change the number
/// it stands for.
pub proof fn lemma_aligned_value(a: Amount, scale: u32)
    requires
        a.scale <= scale <= MAX_SCALE,
    ensures
        a.aligned(scale) * pow10((MAX_SCALE - scale) as nat) == a.value(),
{
    let up = (scale - a.scale) as nat;
    let rest = (MAX_SCALE - scale) as nat;
    lemma_pow10_adds(up, rest);
    assert(up + rest == (MAX_SCALE - a.scale) as nat);
    let m = a.mantissa as int;
    let p = pow10(up);
    let q = pow10(rest);
    assert((m * p) * q == m * (p * q)) by (nonlinear_arith);
}

/// The amount with the aligned sum as its mantissa stands for the sum of the
/// two numbers.
pub proof fn lemma_exact_sum(a: Amount, b: Amount)
    requires
        a.wf(),
        b.wf(),
        -MAX_MANTISSA <= Amount::aligned_sum(a, b) <= MAX_MANTISSA,
    ensures
        (Amount {
            mantissa: Amount::aligned_sum(a, b) as i128,
            scale: Amount::wider_scale(a, b),
        }).value() == a.value() + b.value(),
{
    let s = Amount::wider_scale(a, b);
    lemma_aligned_value(a, s);
    lemma_aligned_value(b, s);
    let x = a.aligned(s);
    let y = b.aligned(s);
    let q = pow10((MAX_SCALE - s) as nat);
    assert((x + y) * q == x * q + y * q) by (nonlinear_arith);
}

/// The amount with the aligned difference as its mantissa stands for the
/// difference of the two numbers.
pub proof fn lemma_exact_difference(a: Amount, b: Amount)
    requires
        a.wf(),
        b.wf(),
        -MAX_MANTISSA <= Amount::aligned_difference(a, b) <= MAX_MANTISSA,
    ensures
        (Amount {
            mantissa: Amount::aligned_difference(a, b) as i128,
            scale: Amount::wider_scale(a, b),
        }).value() == a.value() - b.value(),
{
    let s = Amount::wider_scale(a, b);
    lemma_aligned_value(a, s);
    lemma_aligned_value(b, s);
    let x = a.aligned(s);
    let y = b.aligned(s);
    let q = pow10((MAX_SCALE - s) as nat);
    assert((x - y) * q == x * q - y * q) by (nonlinear_arith);
}

/// The amount with the opposite mantissa stands for the opposite number.
pub proof fn lemma_negated_value(b: Amount)
    requires
        b.wf(),
    ensures
        (Amount { mantissa: (-b.mantissa) as i128, scale: b.scale }).value() == -b.value(),
{
    let m = b.mantissa as int;
    let p = pow10((MAX_SCALE - b.scale) as nat);
    assert((-m) * p == -(m * p)) by (nonlinear_arith);
}

/// The exact sum of two amounts that add exactly is in range and stands for
/// the sum of the two numbers.
pub proof fn lemma_exact_sum_value(a: Amount, b: Amount)
    requires
        a.wf(),
        b.wf(),
        Amount::adds_exactly(a, b),
    ensures
        Amount::exact_sum(a, b).wf(),
        Amount::exact_sum(a, b).value() == a.value() + b.value(),
{
    lemma_value_sign(a);
    lemma_value_sign(b);
    if a.mantissa != 0 && b.mantissa != 0 {
        lemma_exact_sum(a, b);
    }
}

/// The exact difference of two amounts that subtract exactly is in range and
/// stands for the difference of the two numbers.
pub proof fn lemma_exact_difference_value(a: Amount, b: Amount)
    requires
        a.wf(),
        b.wf(),
        Amount::subtracts_exactly(a, b),
    ensures
        Amount::exact_difference(a, b).wf(),
        Amount::exact_difference(a, b).value() == a.value() - b.value(),
{
    lemma_value_sign(a);
    lemma_value_sign(b);
    lemma_negated_value(b);
    if a.mantissa != 0 && b.mantissa != 0 {
        lemma_exact_difference(a, b);
    }
}

/// `rust_decimal::Decimal::checked_add` on the decimals with the two
/// amounts' mantissas and scales. Taken on trust: the result depends on the
/// two decimals alone and is in range; zero plus a decimal is that decimal,
/// and a non-zero decimal plus zero is itself; for two non-zero decimals of at
/// most 64 bits whose scales are at most 19 apart, the result has the larger
/// scale and the exact sum as its mantissa where that sum has at most 96 bits.
#[verifier::external_body]
fn decimal_checked_add(a: Amount, b: Amount) -> (r: Option<Amount>)
    requires
        a.wf(),
        b.wf(),
    ensures
        r == amount_of(
            decimal_sum(a.mantissa as int, a.scale as int, b.mantissa as int, b.scale as int),
        ),
        r is Some ==> r.unwrap().wf(),
        a.mantissa == 0 ==> r == Some(b),
        a.mantissa != 0 && b.mantissa == 0 ==> r == Some(a),
        Amount::short_pair(a, b) && -MAX_MANTISSA <= Amount::aligned_sum(a, b) <= MAX_MANTISSA
            ==> r == Some(
            Amount { mantissa: Amount::aligned_sum(a, b) as i128, scale: Amount::wider_scale(a, b) },
        ),
{
    Decimal::from_i128_with_scale(a.mantissa, a.scale)
        .checked_add(Decimal::from_i128_with_scale(b.mantissa, b.scale))
        .map(|d| Amount { mantissa: d.mantissa(), scale: d.scale() })
}

/// `rust_decimal::Decimal::checked_sub` on the decimals with the two
/// amounts' mantissas and scales. Taken on trust: the result depends on the
/// two decimals alone and is in range; zero minus a decimal is that decimal
/// with the opposite sign, and a non-zero decimal minus zero is itself; for
/// two non-zero decimals of at most 64 bits whose scales are at most 19 apart,
/// the result has the larger scale and the exact difference as its mantissa
/// where that difference has at most 96 bits.
#[verifier::external_body]
fn decimal_checked_sub(a: Amount, b: Amount) -> (r: Option<Amount>)
    requires
        a.wf(),
        b.wf(),
    ensures
        r == amount_of(
            decimal_difference(a.mantissa as int, a.scale as int, b.mantissa as int, b.scale as int),
        ),
        r is Some ==> r.unwrap().wf(),
        a.mantissa == 0 ==> r == Some(Amount { mantissa: (-b.mantissa) as i128, scale: b.scale }),
        a.mantissa != 0 && b.mantissa == 0 ==> r == Some(a),
        Amount::short_pair(a, b) && -MAX_MANTISSA <= Amount::aligned_difference(a, b)
            <= MAX_MANTISSA ==> r == Some(
            Amount {
                mantissa: Amount::aligned_difference(a, b) as i128,
                scale: Amount::wider_scale(a, b),
            },
        ),
{
    Decimal::from_i128_with_scale(a.mantissa, a.scale)
        .checked_sub(Decimal::from_i128_with_scale(b.mantissa, b.scale))
        .map(|d| Amount { mantissa: d.mantissa(), scale: d.scale() })
}

/// The operator `<` of `rust_decimal::Decimal`. Taken on trust: it orders
/// decimals by the numbers they stand for, whatever their scales.
#[verifier::external_body]
fn decimal_less(a: Amount, b: Amount) -> (r: bool)
    requires
        a.wf(),
        b.wf(),
    ensures
        r == (a.value() < b.value()),
{
    Decimal::from_i128_with_scale(a.mantissa, a.scale) < Decimal::from_i128_with_scale(
        b.mantissa,
        b.scale,
    )
}

/// The operator `==` of `rust_decimal::Decimal`. Taken on trust: two
/// decimals are equal where they stand for the same number, whatever their
/// scales.
#[verifier::external_body]
fn decimal_equal(a: Amount, b: Amount) -> (r: bool)
    requires
        a.wf(),
        b.wf(),
    ensures
        r == (a.value() == b.value()),
{
    Decimal::from_i128_with_scale(a.mantissa, a.scale) == Decimal::from_i128_with_scale(
        b.mantissa,
        b.scale,
    )
}

/// `rust_decimal::Decimal::round_dp`. Taken on trust: a decimal with no more
/// than `dp` fractional digits is returned as it is; any other is cut to `dp`
/// digits, and the last digit kept goes up by one where what was cut off is
/// more than half a unit, or exactly half and the digit is odd.
#[verifier::external_body]
fn decimal_round(a: Amount, dp: u32) -> (r: Amount)
    requires
        a.wf(),
    ensures
        r == a.rounded(dp),
        r.wf(),
{
    let d = Decimal::from_i128_with_scale(a.mantissa, a.scale).round_dp(dp);
    Amount { mantissa: d.mantissa(), scale: d.scale() }
}

/// `to_string` of `rust_decimal::Decimal`. Taken on trust: the text depends
/// on mantissa and scale alone.
#[verifier::external_body]
fn decimal_to_text(a: Amount) -> (r: String)
    requires
        a.wf(),
    ensures
        r@ == decimal_text(a.mantissa as int, a.scale as int),
{
    Decimal::from_i128_with_scale(a.mantissa, a.scale).to_string()
}

} // verus!
