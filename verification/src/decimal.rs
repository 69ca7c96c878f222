//! Fixed-point decimal numbers backed by `rust_decimal`.
//!
//! A [`Dec`] holds a decimal as plain values: a signed mantissa of at most
//! 96 bits and a scale of at most 28, standing for `mantissa / 10^scale`.
//! Arithmetic is carried out by `rust_decimal`; each operation is a trusted
//! wrapper whose contract names the result and states what the crate's
//! documentation and source give of it: exactness where the exact result is
//! representable, and a bound on the integer part otherwise.

use vstd::prelude::*;

verus! {

/// Largest mantissa magnitude, `2^96 - 1`.
pub open spec fn max_mantissa() -> int {
    79228162514264337593543950335
}

/// `10^n`.
pub open spec fn pow10(n: nat) -> int
    decreases n,
{
    if n == 0 {
        1
    } else {
        10 * pow10((n - 1) as nat)
    }
}

/// The value of a decimal as an integer count of units of `10^-28`, the
/// finest scale a decimal has.
pub open spec fn at28(d: (int, int)) -> int {
    d.0 * pow10((28 - d.1) as nat)
}

/// A scale a decimal can have.
pub open spec fn scale_ok(d: (int, int)) -> bool {
    0 <= d.1 <= 28
}

/// The decimal sum `a + b` came out without rounding.
pub open spec fn sum_exact(a: (int, int), b: (int, int)) -> bool {
    decimal_checked_sum(a, b) matches Some(x) && scale_ok(a) && scale_ok(b) && scale_ok(x) && at28(x) == at28(a)
        + at28(b)
}

/// The decimal difference `a - b` came out without rounding.
pub open spec fn difference_exact(a: (int, int), b: (int, int)) -> bool {
    decimal_checked_difference(a, b) matches Some(x) && scale_ok(a) && scale_ok(b) && scale_ok(x) && at28(x)
        == at28(a) - at28(b)
}

/// The product of `price` and the whole number `n` came out without
/// rounding.
pub open spec fn times_exact(price: (int, int), n: int) -> bool {
    decimal_checked_product(price, int_model(n)) matches Some(x) && scale_ok(price) && scale_ok(x) && at28(x)
        == n * at28(price)
}

/// Powers of ten grow with the exponent.
pub proof fn lemma_pow10_le(a: nat, b: nat)
    requires
        a <= b,
    ensures
        pow10(a) <= pow10(b),
    decreases b,
{
    if a < b {
        lemma_pow10_le(a, (b - 1) as nat);
        lemma_pow10_pos((b - 1) as nat);
    }
}

/// `10^n` is positive.
pub proof fn lemma_pow10_pos(n: nat)
    ensures
        pow10(n) >= 1,
    decreases n,
{
    if n > 0 {
        lemma_pow10_pos((n - 1) as nat);
    }
}

/// `10^(a + b) == 10^a * 10^b`.
pub proof fn lemma_pow10_add(a: nat, b: nat)
    ensures
        pow10(a + b) == pow10(a) * pow10(b),
    decreases b,
{
    if b > 0 {
        lemma_pow10_add(a, (b - 1) as nat);
        assert(pow10(a + b) == 10 * pow10((a + b - 1) as nat));
        assert(pow10(a) * pow10(b) == pow10(a) * (10 * pow10((b - 1) as nat)));
        assert(pow10(a) * (10 * pow10((b - 1) as nat)) == 10 * (pow10(a) * pow10((b - 1) as nat))) by (nonlinear_arith);
    }
}

/// Absolute value of an integer.
pub open spec fn abs(x: int) -> int {
    if x < 0 {
        -x
    } else {
        x
    }
}

/// A decimal operation left `rust_decimal`'s range, where the operator
/// would panic.
#[derive(Debug, Clone, Copy, PartialEq, Eq, Structural)]
pub struct Overflow;

/// A decimal number `mantissa / 10^scale`.
#[derive(Clone, Copy, Debug)]
pub struct Dec {
    mantissa: i128,
    scale: u32,
}

/// The scale of a value is a natural number.
pub broadcast proof fn lemma_dec_scale(d: Dec)
    ensures
        #[trigger] d@.1 >= 0,
{
}

impl View for Dec {
    type V = (int, int);

    /// The pair (mantissa, scale).
    closed spec fn view(&self) -> (int, int) {
        (self.mantissa as int, self.scale as int)
    }
}

/// The representation limits of `rust_decimal`: a 96-bit mantissa and a
/// scale of at most 28.
pub open spec fn repr_ok(d: (int, int)) -> bool {
    abs(d.0) <= max_mantissa() && 0 <= d.1 <= 28
}

/// The integer part of `|d|`, `floor(|mantissa| / 10^scale)`.
pub open spec fn mag(d: (int, int)) -> int {
    abs(d.0) / pow10(d.1 as nat)
}

/// `a` and `b` stand for the same number.
pub open spec fn same_value(a: (int, int), b: (int, int)) -> bool {
    a.0 * pow10(b.1 as nat) == b.0 * pow10(a.1 as nat)
}

/// `a` stands for a smaller number than `b`.
pub open spec fn less_value(a: (int, int), b: (int, int)) -> bool {
    a.0 * pow10(b.1 as nat) < b.0 * pow10(a.1 as nat)
}

/// The decimal zero, `(0, 0)`.
pub open spec fn zero_model() -> (int, int) {
    (0, 0)
}

/// An integer as a decimal of scale 0.
pub open spec fn int_model(n: int) -> (int, int) {
    (n, 0)
}

/// The larger of two scales.
pub open spec fn max_scale(a: (int, int), b: (int, int)) -> int {
    if a.1 >= b.1 {
        a.1
    } else {
        b.1
    }
}

/// The mantissa of the exact sum `a + b` written at the larger scale.
pub open spec fn aligned_sum(a: (int, int), b: (int, int)) -> int {
    let s = max_scale(a, b);
    a.0 * pow10((s - a.1) as nat) + b.0 * pow10((s - b.1) as nat)
}

/// What `Decimal::checked_add` returns (`None` on overflow).
pub uninterp spec fn decimal_checked_sum(a: (int, int), b: (int, int)) -> Option<(int, int)>;

/// What `Decimal::checked_sub` returns (`None` on overflow).
pub uninterp spec fn decimal_checked_difference(a: (int, int), b: (int, int)) -> Option<(int, int)>;

/// What `Decimal::checked_mul` returns (`None` on overflow).
pub uninterp spec fn decimal_checked_product(a: (int, int), b: (int, int)) -> Option<(int, int)>;

/// What `Decimal::checked_div` returns (`None` for a zero divisor or on
/// overflow).
pub uninterp spec fn decimal_checked_quotient(a: (int, int), b: (int, int)) -> Option<(int, int)>;

/// The sum `a + b` (the value of a `checked_add` that succeeds).
pub open spec fn decimal_sum(a: (int, int), b: (int, int)) -> (int, int) {
    decimal_checked_sum(a, b)->0
}

/// The difference `a - b`.
pub open spec fn decimal_difference(a: (int, int), b: (int, int)) -> (int, int) {
    decimal_checked_difference(a, b)->0
}

/// The product `a * b`.
pub open spec fn decimal_product(a: (int, int), b: (int, int)) -> (int, int) {
    decimal_checked_product(a, b)->0
}

/// The quotient `a / b`.
pub open spec fn decimal_quotient(a: (int, int), b: (int, int)) -> (int, int) {
    decimal_checked_quotient(a, b)->0
}

/// The integer part of `|a / b|`, the bound that decides whether a
/// division stays in range.
pub open spec fn quotient_bound(a: (int, int), b: (int, int)) -> int {
    (abs(a.0) * pow10(b.1 as nat)) / (abs(b.0) * pow10(a.1 as nat))
}

/// What `Decimal::from_str` returns (`None` for an error).
pub uninterp spec fn decimal_parse(s: Seq<char>) -> Option<(int, int)>;

/// What `Decimal`'s `Display` writes.
pub uninterp spec fn decimal_text(d: (int, int)) -> Seq<char>;

/// What `format!("{:.2}", d)` writes for a `Decimal`.
pub uninterp spec fn decimal_text_2dp(d: (int, int)) -> Seq<char>;

impl Dec {
    #[verifier::type_invariant]
    spec fn inv(self) -> bool {
        repr_ok(self@)
    }

    /// The limits hold of every value.
    pub fn limits(&self)
        ensures
            repr_ok(self@),
    {
        proof {
            use_type_invariant(self);
        }
    }

    /// `Decimal::new(num, scale)`: `num / 10^scale`.
    pub fn new(num: i64, scale: u32) -> (r: Dec)
        requires
            scale <= 28,
        ensures
            r@ == (num as int, scale as int),
    {
        Dec { mantissa: num as i128, scale }
    }

    /// `Decimal::from_i128_with_scale`, checked: `None` outside the limits.
    pub fn from_parts(mantissa: i128, scale: u32) -> (r: Option<Dec>)
        ensures
            r is Some <==> repr_ok((mantissa as int, scale as int)),
            r matches Some(d) ==> d@ == (mantissa as int, scale as int),
    {
        if scale <= 28 && mantissa <= 79228162514264337593543950335i128
            && mantissa >= -79228162514264337593543950335i128 {
            Some(Dec { mantissa, scale })
        } else {
            None
        }
    }

    /// Zero.
    pub fn zero() -> (r: Dec)
        ensures
            r@ == zero_model(),
    {
        Dec { mantissa: 0, scale: 0 }
    }

    /// `Decimal::from(i64)`.
    pub fn from_i64(n: i64) -> (r: Dec)
        ensures
            r@ == int_model(n as int),
    {
        Dec { mantissa: n as i128, scale: 0 }
    }

    /// `Decimal::from(u64)`.
    pub fn from_u64(n: u64) -> (r: Dec)
        ensures
            r@ == int_model(n as int),
    {
        Dec { mantissa: n as i128, scale: 0 }
    }

    /// `Decimal::from(usize)`.
    pub fn from_usize(n: usize) -> (r: Dec)
        ensures
            r@ == int_model(n as int),
    {
        Dec { mantissa: n as i128, scale: 0 }
    }

    /// The mantissa.
    pub fn mantissa(&self) -> (r: i128)
        ensures
            r == self@.0,
    {
        self.mantissa
    }

    /// The scale.
    pub fn scale(&self) -> (r: u32)
        ensures
            r == self@.1,
    {
        self.scale
    }

    /// `-d`: the sign flipped, the scale kept.
    pub fn neg(&self) -> (r: Dec)
        ensures
            r@ == (-self@.0, self@.1),
    {
        proof {
            use_type_invariant(self);
        }
        Dec { mantissa: -self.mantissa, scale: self.scale }
    }

    /// The integer part of the absolute value, `floor(|d|)`.
    pub fn magnitude(&self) -> (r: u128)
        ensures
            r == mag(self@),
    {
        proof {
            use_type_invariant(self);
        }
        let mut p: u128 = 1;
        let mut k: u32 = 0;
        while k < self.scale
            invariant
                k <= self.scale <= 28,
                p == pow10(k as nat),
            decreases self.scale - k,
        {
            proof {
                lemma_pow10_le(k as nat + 1, 28);
                assert(pow10(28) == 10_000_000_000_000_000_000_000_000_000) by {
                    reveal_with_fuel(pow10, 29);
                }
            }
            p = p * 10;
            k = k + 1;
        }
        proof {
            lemma_pow10_pos(self.scale as nat);
        }
        let a: u128 = if self.mantissa < 0 {
            (-self.mantissa) as u128
        } else {
            self.mantissa as u128
        };
        a / p
    }

    /// `Decimal::is_zero`.
    pub fn is_zero(&self) -> (r: bool)
        ensures
            r == (self@.0 == 0),
    {
        self.mantissa == 0
    }
}

/// The mantissa of the exact difference `a - b` written at the larger scale.
pub open spec fn aligned_difference(a: (int, int), b: (int, int)) -> int {
    let s = max_scale(a, b);
    a.0 * pow10((s - a.1) as nat) - b.0 * pow10((s - b.1) as nat)
}

/// `Decimal::checked_add`. The result is named. It is `Some` whenever the
/// integer parts leave room (`mag(a) + mag(b) + 2` within 96 bits), since a
/// sum that needs rounding is rounded by at most half a unit of its last
/// place. Adding to zero gives the other operand back; otherwise, when the
/// exact sum at the larger scale fits in 96 bits, it is that sum at that
/// scale.
#[verifier::external_body]
pub(crate) fn dec_checked_add(a: Dec, b: Dec) -> (r: Option<Dec>)
    ensures
        r matches Some(x) ==> decimal_checked_sum(a@, b@) == Some(x@),
        r is None ==> decimal_checked_sum(a@, b@) is None,
        mag(a@) + mag(b@) + 2 < max_mantissa() ==> r is Some,
        r matches Some(x) ==> mag(x@) <= mag(a@) + mag(b@) + 2,
        r matches Some(x) ==> (a@.0 == 0 ==> x@ == b@),
        r matches Some(x) ==> (a@.0 != 0 && b@.0 == 0 ==> x@ == a@),
        r matches Some(x) ==> (a@.0 != 0 && b@.0 != 0 && abs(aligned_sum(a@, b@)) <= max_mantissa()
            ==> x@ == (aligned_sum(a@, b@), max_scale(a@, b@))),
{
    let r = rust_decimal::Decimal::from_i128_with_scale(a.mantissa, a.scale)
        .checked_add(rust_decimal::Decimal::from_i128_with_scale(b.mantissa, b.scale));
    match r {
        Some(x) => Some(Dec { mantissa: x.mantissa(), scale: x.scale() }),
        None => None,
    }
}

/// `Decimal::checked_sub`. The result is named; `Some` whenever the integer
/// parts leave room. Subtracting from zero negates the other operand;
/// subtracting zero gives `a` back; otherwise, when the exact difference at
/// the larger scale fits in 96 bits, it is that difference at that scale.
#[verifier::external_body]
pub(crate) fn dec_checked_sub(a: Dec, b: Dec) -> (r: Option<Dec>)
    ensures
        r matches Some(x) ==> decimal_checked_difference(a@, b@) == Some(x@),
        r is None ==> decimal_checked_difference(a@, b@) is None,
        mag(a@) + mag(b@) + 2 < max_mantissa() ==> r is Some,
        r matches Some(x) ==> mag(x@) <= mag(a@) + mag(b@) + 2,
        r matches Some(x) ==> (a@.0 == 0 ==> x@ == (-b@.0, b@.1)),
        r matches Some(x) ==> (a@.0 != 0 && b@.0 == 0 ==> x@ == a@),
        r matches Some(x) ==> (a@.0 != 0 && b@.0 != 0 && abs(aligned_difference(a@, b@))
            <= max_mantissa() ==> x@ == (aligned_difference(a@, b@), max_scale(a@, b@))),
{
    let r = rust_decimal::Decimal::from_i128_with_scale(a.mantissa, a.scale)
        .checked_sub(rust_decimal::Decimal::from_i128_with_scale(b.mantissa, b.scale));
    match r {
        Some(x) => Some(Dec { mantissa: x.mantissa(), scale: x.scale() }),
        None => None,
    }
}

/// `Decimal::checked_mul`. The result is named; `Some` whenever
/// `(mag(a) + 1) * (mag(b) + 1)` fits in 96 bits, which bounds its integer
/// part. A zero operand gives zero at scale 0; when the mantissa product
/// fits in 96 bits and the scales add up to at most 28, the result is exactly
/// that product at the summed scale.
#[verifier::external_body]
pub(crate) fn dec_checked_mul(a: Dec, b: Dec) -> (r: Option<Dec>)
    ensures
        r matches Some(x) ==> decimal_checked_product(a@, b@) == Some(x@),
        r is None ==> decimal_checked_product(a@, b@) is None,
        (mag(a@) + 1) * (mag(b@) + 1) < max_mantissa() ==> r is Some,
        r matches Some(x) ==> mag(x@) <= (mag(a@) + 1) * (mag(b@) + 1),
        r matches Some(x) ==> (a@.0 == 0 || b@.0 == 0 ==> x@ == zero_model()),
        r matches Some(x) ==> (abs(a@.0 * b@.0) <= max_mantissa() && a@.1 + b@.1 <= 28 ==> x@ == (
            a@.0 * b@.0,
            a@.1 + b@.1,
        )),
{
    let r = rust_decimal::Decimal::from_i128_with_scale(a.mantissa, a.scale)
        .checked_mul(rust_decimal::Decimal::from_i128_with_scale(b.mantissa, b.scale));
    match r {
        Some(x) => Some(Dec { mantissa: x.mantissa(), scale: x.scale() }),
        None => None,
    }
}

/// `Decimal::checked_div`. The result is named: `None` for a zero divisor;
/// otherwise `Some` whenever the integer part of the exact quotient leaves
/// room, and the rounded quotient's integer part is at most one above it.
/// A zero dividend gives zero at scale 0. When the divisor's mantissa fits
/// in 32 bits, divides the dividend's exactly and the dividend's scale is
/// not below the divisor's, the result is that exact quotient of the
/// mantissas at the difference of the scales (the division's fast path).
#[verifier::external_body]
pub(crate) fn dec_checked_div(a: Dec, b: Dec) -> (r: Option<Dec>)
    ensures
        r matches Some(x) ==> decimal_checked_quotient(a@, b@) == Some(x@),
        r is None ==> decimal_checked_quotient(a@, b@) is None,
        b@.0 == 0 ==> r is None,
        b@.0 != 0 && quotient_bound(a@, b@) + 2 < max_mantissa() ==> r is Some,
        r matches Some(x) ==> mag(x@) <= quotient_bound(a@, b@) + 1,
        r matches Some(x) ==> (a@.0 == 0 ==> x@ == zero_model()),
        r matches Some(x) ==> (a@.0 != 0 && 0 < abs(b@.0) < 4294967296 && b@.1 <= a@.1 && a@.0 % b@.0 == 0
            ==> x@ == (a@.0 / b@.0, a@.1 - b@.1)),
{
    let r = rust_decimal::Decimal::from_i128_with_scale(a.mantissa, a.scale)
        .checked_div(rust_decimal::Decimal::from_i128_with_scale(b.mantissa, b.scale));
    match r {
        Some(x) => Some(Dec { mantissa: x.mantissa(), scale: x.scale() }),
        None => None,
    }
}

/// A checked result as a `Result`: `None` becomes `Err(Overflow)`.
pub fn or_overflow(r: Option<Dec>) -> (o: Result<Dec, Overflow>)
    ensures
        match r {
            Some(x) => o == Ok::<Dec, Overflow>(x),
            None => o is Err,
        },
{
    match r {
        Some(x) => Ok(x),
        None => Err(Overflow),
    }
}

/// `a + b` where the integer parts leave room.
pub fn dec_add(a: Dec, b: Dec) -> (r: Dec)
    requires
        mag(a@) + mag(b@) + 2 < max_mantissa(),
    ensures
        r@ == decimal_sum(a@, b@),
        mag(r@) <= mag(a@) + mag(b@) + 2,
{
    match dec_checked_add(a, b) {
        Some(x) => x,
        None => {
            proof {
                assert(false);
            }
            Dec::zero()
        },
    }
}

/// `a - b` where the integer parts leave room.
pub fn dec_sub(a: Dec, b: Dec) -> (r: Dec)
    requires
        mag(a@) + mag(b@) + 2 < max_mantissa(),
    ensures
        r@ == decimal_difference(a@, b@),
        mag(r@) <= mag(a@) + mag(b@) + 2,
{
    match dec_checked_sub(a, b) {
        Some(x) => x,
        None => {
            proof {
                assert(false);
            }
            Dec::zero()
        },
    }
}

/// `a * b` where the integer parts leave room.
pub fn dec_mul(a: Dec, b: Dec) -> (r: Dec)
    requires
        (mag(a@) + 1) * (mag(b@) + 1) < max_mantissa(),
    ensures
        r@ == decimal_product(a@, b@),
        mag(r@) <= (mag(a@) + 1) * (mag(b@) + 1),
{
    match dec_checked_mul(a, b) {
        Some(x) => x,
        None => {
            proof {
                assert(false);
            }
            Dec::zero()
        },
    }
}

/// `a / b` for a nonzero divisor and a quotient in range.
pub fn dec_div(a: Dec, b: Dec) -> (r: Dec)
    requires
        b@.0 != 0,
        quotient_bound(a@, b@) + 2 < max_mantissa(),
    ensures
        r@ == decimal_quotient(a@, b@),
        mag(r@) <= quotient_bound(a@, b@) + 1,
{
    match dec_checked_div(a, b) {
        Some(x) => x,
        None => {
            proof {
                assert(false);
            }
            Dec::zero()
        },
    }
}

/// `Decimal::floor`: the largest integer not above `d`, at scale 0.
#[verifier::external_body]
pub(crate) fn dec_floor(d: Dec) -> (r: Dec)
    ensures
        r@ == (d@.0 / pow10(d@.1 as nat), 0int),
{
    let r = rust_decimal::Decimal::from_i128_with_scale(d.mantissa, d.scale).floor();
    Dec { mantissa: r.mantissa(), scale: r.scale() }
}

/// `d` truncated toward zero.
pub open spec fn trunc_value(d: (int, int)) -> int {
    if d.0 < 0 {
        -((-d.0) / pow10(d.1 as nat))
    } else {
        d.0 / pow10(d.1 as nat)
    }
}

/// `ToPrimitive::to_i64` of a `Decimal`: the value truncated toward zero,
/// when that fits in an `i64`.
#[verifier::external_body]
pub(crate) fn dec_to_i64(d: Dec) -> (r: Option<i64>)
    ensures
        r == (if i64::MIN <= trunc_value(d@) <= i64::MAX {
            Some(trunc_value(d@) as i64)
        } else {
            None::<i64>
        }),
{
    rust_decimal::prelude::ToPrimitive::to_i64(&rust_decimal::Decimal::from_i128_with_scale(d.mantissa, d.scale))
}

/// `Decimal == Decimal`: numeric equality, whatever the scales.
#[verifier::external_body]
pub(crate) fn dec_eq(a: Dec, b: Dec) -> (r: bool)
    ensures
        r == same_value(a@, b@),
{
    rust_decimal::Decimal::from_i128_with_scale(a.mantissa, a.scale)
        == rust_decimal::Decimal::from_i128_with_scale(b.mantissa, b.scale)
}

/// `Decimal < Decimal`: numeric order, whatever the scales.
#[verifier::external_body]
pub(crate) fn dec_lt(a: Dec, b: Dec) -> (r: bool)
    ensures
        r == less_value(a@, b@),
{
    rust_decimal::Decimal::from_i128_with_scale(a.mantissa, a.scale)
        < rust_decimal::Decimal::from_i128_with_scale(b.mantissa, b.scale)
}

/// `a <= b` in value.
pub fn dec_le(a: Dec, b: Dec) -> (r: bool)
    ensures
        r == (less_value(a@, b@) || same_value(a@, b@)),
{
    dec_lt(a, b) || dec_eq(a, b)
}

/// `Decimal::from_str`; the result is named, `None` for a parse error.
#[verifier::external_body]
pub(crate) fn dec_parse(s: &str) -> (r: Option<Dec>)
    ensures
        r matches Some(d) ==> decimal_parse(s@) == Some(d@),
        r is None ==> decimal_parse(s@) is None,
{
    match <rust_decimal::Decimal as core::str::FromStr>::from_str(s) {
        Ok(x) => Some(Dec { mantissa: x.mantissa(), scale: x.scale() }),
        Err(_) => None,
    }
}

/// `Decimal`'s `Display` (as `to_string`); the text is named.
#[verifier::external_body]
pub(crate) fn dec_to_text(d: Dec) -> (r: String)
    ensures
        r@ == decimal_text(d@),
{
    rust_decimal::Decimal::from_i128_with_scale(d.mantissa, d.scale).to_string()
}

/// `format!("{:.2}", d)` for a `Decimal`; the text is named.
#[verifier::external_body]
pub(crate) fn dec_to_text_2dp(d: Dec) -> (r: String)
    ensures
        r@ == decimal_text_2dp(d@),
{
    format!("{:.2}", rust_decimal::Decimal::from_i128_with_scale(d.mantissa, d.scale))
}

impl PartialEq for Dec {
    fn eq(&self, other: &Dec) -> (r: bool) {
        dec_eq(*self, *other)
    }
}

impl vstd::std_specs::cmp::PartialEqSpecImpl for Dec {
    open spec fn obeys_eq_spec() -> bool {
        true
    }

    open spec fn eq_spec(&self, other: &Dec) -> bool {
        same_value(self@, other@)
    }
}

/// The mantissa lies within one unit of the integer part, scaled:
/// `mag(d) * 10^s <= |m| < (mag(d) + 1) * 10^s`.
pub proof fn lemma_mag_bounds(d: (int, int))
    requires
        d.1 >= 0,
    ensures
        mag(d) >= 0,
        mag(d) * pow10(d.1 as nat) <= abs(d.0),
        abs(d.0) < (mag(d) + 1) * pow10(d.1 as nat),
{
    lemma_pow10_pos(d.1 as nat);
    let a = abs(d.0);
    let p = pow10(d.1 as nat);
    assert(0 <= a / p && (a / p) * p <= a && a < (a / p + 1) * p) by (nonlinear_arith)
        requires
            a >= 0,
            p >= 1,
    ;
}

/// Comparisons with zero go by the sign of the mantissa.
pub proof fn lemma_compare_zero(a: (int, int))
    requires
        a.1 >= 0,
    ensures
        less_value(a, zero_model()) == (a.0 < 0),
        less_value(zero_model(), a) == (a.0 > 0),
        same_value(a, zero_model()) == (a.0 == 0),
{
    lemma_pow10_pos(a.1 as nat);
    assert(pow10(0) == 1);
    let p = pow10(a.1 as nat);
    assert(0 * p == 0);
}

/// A zero mantissa has integer part 0; an integer has itself as integer part.
pub proof fn lemma_mag_int(n: int)
    ensures
        mag(int_model(n)) == abs(n),
{
    assert(pow10(0) == 1);
}

/// The integer part of `|a / b|` is at most `((B + 1) * 10^sb) / |mb|`
/// when `mag(a) <= B`.
pub proof fn lemma_quotient_bound_le(a: (int, int), b: (int, int), bound: int)
    requires
        a.1 >= 0,
        b.1 >= 0,
        b.0 != 0,
        mag(a) <= bound,
    ensures
        quotient_bound(a, b) <= ((bound + 1) * pow10(b.1 as nat)) / abs(b.0),
{
    lemma_mag_bounds(a);
    lemma_pow10_pos(a.1 as nat);
    lemma_pow10_pos(b.1 as nat);
    let am = abs(a.0);
    let bm = abs(b.0);
    let pa = pow10(a.1 as nat);
    let pb = pow10(b.1 as nat);
    let m = mag(a);
    assert((am * pb) / (bm * pa) <= ((bound + 1) * pb) / bm) by (nonlinear_arith)
        requires
            am >= 0,
            bm >= 1,
            pa >= 1,
            pb >= 1,
            m <= bound,
            am < (m + 1) * pa,
    {
        assert(am * pb < (bound + 1) * pa * pb);
        assert((am * pb) / (bm * pa) <= ((bound + 1) * pa * pb) / (bm * pa));
        assert(((bound + 1) * pa * pb) / (bm * pa) == ((bound + 1) * pb) / bm);
    }
}

} // verus!
