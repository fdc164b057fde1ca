//! Fixed-point decimals.
//!
//! A [`Decimal`] is a 96-bit signed mantissa with up to 28 fractional digits and
//! a sign, which a zero has too. Its value is read in the contracts as `d@`: the
//! number of units of `10^-28`, an exact integer for every decimal; the sign of
//! a zero shows only where the decimal is written out. Arithmetic is done by
//! `rust_decimal`; comparisons are exact, sums, products and quotients are
//! whatever that crate returns, under the names declared here.
use vstd::arithmetic::power::pow;
use vstd::prelude::*;

verus! {

/// Largest absolute mantissa: `2^96 - 1`.
pub const MAX_MANTISSA: i128 = 79228162514264337593543950335;

/// Largest number of fractional digits.
pub const MAX_SCALE: u32 = 28;

/// What `rust_decimal::Decimal::checked_add` returns, as mantissa, scale and
/// sign.
pub uninterp spec fn decimal_sum(
    left_mantissa: i128,
    left_scale: u32,
    left_negative: bool,
    right_mantissa: i128,
    right_scale: u32,
    right_negative: bool,
) -> Option<(i128, u32, bool)>;

/// What `rust_decimal::Decimal::checked_sub` returns, as mantissa, scale and
/// sign.
pub uninterp spec fn decimal_difference(
    left_mantissa: i128,
    left_scale: u32,
    left_negative: bool,
    right_mantissa: i128,
    right_scale: u32,
    right_negative: bool,
) -> Option<(i128, u32, bool)>;

/// What `rust_decimal::Decimal::checked_mul` returns, as mantissa, scale and
/// sign.
pub uninterp spec fn decimal_product(
    left_mantissa: i128,
    left_scale: u32,
    left_negative: bool,
    right_mantissa: i128,
    right_scale: u32,
    right_negative: bool,
) -> Option<(i128, u32, bool)>;

/// What `rust_decimal::Decimal::checked_div` returns, as mantissa, scale and
/// sign.
pub uninterp spec fn decimal_quotient(
    left_mantissa: i128,
    left_scale: u32,
    left_negative: bool,
    right_mantissa: i128,
    right_scale: u32,
    right_negative: bool,
) -> Option<(i128, u32, bool)>;

/// What `rust_decimal::Decimal::from_str` reads from a text: mantissa, scale
/// and sign, or the text of its error.
pub uninterp spec fn decimal_parsed(text: Seq<char>) -> Result<(i128, u32, bool), Seq<char>>;

/// How `rust_decimal` displays the decimal of this mantissa, scale and sign.
pub uninterp spec fn decimal_text(mantissa: i128, scale: u32, negative: bool) -> Seq<char>;

/// A fixed-point decimal: `mantissa / 10^scale`.
#[derive(Clone, Copy, Debug)]
pub struct Decimal {
    pub(crate) mantissa: i128,
    pub(crate) scale: u32,
    /// The sign; a zero may have either.
    pub(crate) negative: bool,
}

/// A price per share, in USD.
pub type Price = Decimal;

/// A number of outcome shares.
pub type Shares = Decimal;

/// An amount of USD.
pub type Usd = Decimal;

/// A number of basis points.
pub type Bps = Decimal;

/// The value of one unit of a decimal with this many fractional digits, in
/// units of `10^-28`.
pub open spec fn unit_of_scale(scale: int) -> int {
    pow(10, (28 - scale) as nat)
}

impl View for Decimal {
    type V = int;

    closed spec fn view(&self) -> int {
        self.mantissa * unit_of_scale(self.scale as int)
    }
}

impl Decimal {
    #[verifier::type_invariant]
    pub(crate) closed spec fn well_formed(self) -> bool {
        &&& -MAX_MANTISSA <= self.mantissa <= MAX_MANTISSA
        &&& self.scale <= MAX_SCALE
        &&& self.mantissa != 0 ==> self.negative == (self.mantissa < 0)
    }

    /// The decimal of this mantissa and scale; a zero without a sign.
    pub closed spec fn of_parts(mantissa: i128, scale: u32) -> Decimal {
        Decimal { mantissa, scale, negative: mantissa < 0 }
    }

    /// Smallest step that this decimal's scale can express, in units of `10^-28`.
    pub closed spec fn step(self) -> int {
        unit_of_scale(self.scale as int)
    }

    pub(crate) closed spec fn from_parts(parts: Option<(i128, u32, bool)>) -> Option<Decimal> {
        match parts {
            Some((mantissa, scale, negative)) => Some(Decimal { mantissa, scale, negative }),
            None => None,
        }
    }

    /// The sum, or `None` where it leaves the representable range.
    pub closed spec fn sum(self, other: Decimal) -> Option<Decimal> {
        Self::from_parts(
            decimal_sum(
                self.mantissa,
                self.scale,
                self.negative,
                other.mantissa,
                other.scale,
                other.negative,
            ),
        )
    }

    /// The difference, or `None` where it leaves the representable range.
    pub closed spec fn difference(self, other: Decimal) -> Option<Decimal> {
        Self::from_parts(
            decimal_difference(
                self.mantissa,
                self.scale,
                self.negative,
                other.mantissa,
                other.scale,
                other.negative,
            ),
        )
    }

    /// The product, or `None` where it leaves the representable range.
    pub closed spec fn product(self, other: Decimal) -> Option<Decimal> {
        Self::from_parts(
            decimal_product(
                self.mantissa,
                self.scale,
                self.negative,
                other.mantissa,
                other.scale,
                other.negative,
            ),
        )
    }

    /// The quotient, or `None` for a zero divisor or where the quotient leaves
    /// the representable range.
    pub closed spec fn quotient(self, other: Decimal) -> Option<Decimal> {
        Self::from_parts(
            decimal_quotient(
                self.mantissa,
                self.scale,
                self.negative,
                other.mantissa,
                other.scale,
                other.negative,
            ),
        )
    }

    /// The decimal with the opposite sign.
    pub closed spec fn opposite(self) -> Decimal {
        Decimal {
            mantissa: (-self.mantissa) as i128,
            scale: self.scale,
            negative: !self.negative,
        }
    }

    /// The decimal rounded down to no more than `digits` fractional digits; one
    /// that has no more stays as it is.
    pub closed spec fn floored_to(self, digits: u32) -> Decimal {
        if self.scale <= digits {
            self
        } else {
            Decimal {
                mantissa: (self.mantissa as int / pow(10, (self.scale - digits) as nat)) as i128,
                scale: digits,
                negative: self.negative,
            }
        }
    }

    /// The decimal rounded up to no more than `digits` fractional digits; one
    /// that has no more stays as it is.
    pub open spec fn ceiled_to(self, digits: u32) -> Decimal {
        self.opposite().floored_to(digits).opposite()
    }

    /// How the decimal is written out.
    pub closed spec fn text(self) -> Seq<char> {
        decimal_text(self.mantissa, self.scale, self.negative)
    }

    /// What a text reads as: the decimal, or the text of the reading error.
    pub closed spec fn reading(text: Seq<char>) -> Result<Decimal, Seq<char>> {
        match decimal_parsed(text) {
            Ok((mantissa, scale, negative)) => Ok(Decimal { mantissa, scale, negative }),
            Err(error) => Err(error),
        }
    }

    /// Both operands and the exact total can be written with the finer of the
    /// two scales, so that nothing has to be rounded.
    pub closed spec fn aligned(self, other: Decimal, total: int) -> bool {
        let step = if self.scale >= other.scale { self.step() } else { other.step() };
        &&& -MAX_MANTISSA * step <= self@ <= MAX_MANTISSA * step
        &&& -MAX_MANTISSA * step <= other@ <= MAX_MANTISSA * step
        &&& -MAX_MANTISSA * step <= total <= MAX_MANTISSA * step
    }

    /// The exact product needs no more than 28 fractional digits and a 96-bit
    /// mantissa, so that nothing has to be rounded.
    pub closed spec fn exact_product(self, other: Decimal) -> bool {
        &&& self.scale + other.scale <= MAX_SCALE
        &&& -MAX_MANTISSA <= self.mantissa * other.mantissa <= MAX_MANTISSA
    }

    /// The product with a whole number, and a tenth of it, need no more than 28
    /// fractional digits and a 96-bit mantissa.
    pub closed spec fn exact_tenths(self, factor: u64) -> bool {
        &&& self.scale < MAX_SCALE
        &&& -MAX_MANTISSA <= self.mantissa * factor <= MAX_MANTISSA
    }

    /// Calls `rust_decimal::Decimal::checked_add`. The result is that call's;
    /// where both operands and the total fit the finer scale it is the exact
    /// sum.
    #[verifier::external_body]
    pub(crate) fn checked_add(self, other: Decimal) -> (r: Option<Decimal>)
        ensures
            Decimal::from_parts(
                decimal_sum(
                    self.mantissa,
                    self.scale,
                    self.negative,
                    other.mantissa,
                    other.scale,
                    other.negative,
                ),
            ) == r,
            r == self.sum(other),
            self.aligned(other, self@ + other@) ==> r is Some && r->0@ == self@ + other@,
    {
        let mut left = rust_decimal::Decimal::from_i128_with_scale(self.mantissa, self.scale);
        left.set_sign_negative(self.negative);
        let mut right = rust_decimal::Decimal::from_i128_with_scale(other.mantissa, other.scale);
        right.set_sign_negative(other.negative);
        left.checked_add(right).map(
            |d| Decimal {
                mantissa: d.mantissa(),
                scale: d.scale(),
                negative: d.is_sign_negative(),
            },
        )
    }

    /// Calls `rust_decimal::Decimal::checked_sub`. The result is that call's;
    /// where both operands and the difference fit the finer scale it is the
    /// exact difference, and rounding never turns its sign around.
    #[verifier::external_body]
    pub(crate) fn checked_sub(self, other: Decimal) -> (r: Option<Decimal>)
        ensures
            Decimal::from_parts(
                decimal_difference(
                    self.mantissa,
                    self.scale,
                    self.negative,
                    other.mantissa,
                    other.scale,
                    other.negative,
                ),
            ) == r,
            r == self.difference(other),
            self.aligned(other, self@ - other@) ==> r is Some && r->0@ == self@ - other@,
            r is Some && self@ >= other@ ==> r->0@ >= 0,
            r is Some && self@ <= other@ ==> r->0@ <= 0,
    {
        let mut left = rust_decimal::Decimal::from_i128_with_scale(self.mantissa, self.scale);
        left.set_sign_negative(self.negative);
        let mut right = rust_decimal::Decimal::from_i128_with_scale(other.mantissa, other.scale);
        right.set_sign_negative(other.negative);
        left.checked_sub(right).map(
            |d| Decimal {
                mantissa: d.mantissa(),
                scale: d.scale(),
                negative: d.is_sign_negative(),
            },
        )
    }

    /// Calls `rust_decimal::Decimal::checked_mul`. The result is that call's;
    /// where no digit has to be dropped it is the exact product, with the digits
    /// of both factors unless one is zero; a product of two factors that are not
    /// negative is not negative, and one of opposite signs never positive.
    #[verifier::external_body]
    pub(crate) fn checked_mul(self, other: Decimal) -> (r: Option<Decimal>)
        ensures
            Decimal::from_parts(
                decimal_product(
                    self.mantissa,
                    self.scale,
                    self.negative,
                    other.mantissa,
                    other.scale,
                    other.negative,
                ),
            ) == r,
            r == self.product(other),
            self.exact_product(other) ==> r is Some && r->0@ * pow(10, 28) == self@ * other@,
            self.exact_product(other) && self.mantissa != 0 && other.mantissa != 0 ==> r == Some(
                Decimal::of_parts(
                    (self.mantissa * other.mantissa) as i128,
                    (self.scale + other.scale) as u32,
                ),
            ),
            r is Some && self@ >= 0 && other@ >= 0 ==> r->0@ >= 0,
            r is Some && self@ >= 0 && other@ <= 0 ==> r->0@ <= 0,
            r is Some && self@ <= 0 && other@ >= 0 ==> r->0@ <= 0,
    {
        let mut left = rust_decimal::Decimal::from_i128_with_scale(self.mantissa, self.scale);
        left.set_sign_negative(self.negative);
        let mut right = rust_decimal::Decimal::from_i128_with_scale(other.mantissa, other.scale);
        right.set_sign_negative(other.negative);
        left.checked_mul(right).map(
            |d| Decimal {
                mantissa: d.mantissa(),
                scale: d.scale(),
                negative: d.is_sign_negative(),
            },
        )
    }

    /// Calls `rust_decimal::Decimal::checked_div`. The result is that call's;
    /// a zero divisor gives `None`, a positive divisor never turns the sign of
    /// the dividend around, and a tenth is exact where a further fractional digit
    /// is left.
    #[verifier::external_body]
    pub(crate) fn checked_div(self, other: Decimal) -> (r: Option<Decimal>)
        ensures
            Decimal::from_parts(
                decimal_quotient(
                    self.mantissa,
                    self.scale,
                    self.negative,
                    other.mantissa,
                    other.scale,
                    other.negative,
                ),
            ) == r,
            r == self.quotient(other),
            other@ == 0 ==> r is None,
            r is Some && self@ >= 0 && other@ > 0 ==> r->0@ >= 0,
            r is Some && self@ <= 0 && other@ > 0 ==> r->0@ <= 0,
            other.mantissa == 10 && other.scale == 0 && self.scale < MAX_SCALE ==> r is Some
                && r->0@ * 10 == self@,
    {
        let mut left = rust_decimal::Decimal::from_i128_with_scale(self.mantissa, self.scale);
        left.set_sign_negative(self.negative);
        let mut right = rust_decimal::Decimal::from_i128_with_scale(other.mantissa, other.scale);
        right.set_sign_negative(other.negative);
        left.checked_div(right).map(
            |d| Decimal {
                mantissa: d.mantissa(),
                scale: d.scale(),
                negative: d.is_sign_negative(),
            },
        )
    }

    /// Calls `rust_decimal`'s `<` on decimals, which orders them by value.
    #[verifier::external_body]
    fn less(self, other: Decimal) -> (r: bool)
        ensures
            r == (self@ < other@),
    {
        let mut left = rust_decimal::Decimal::from_i128_with_scale(self.mantissa, self.scale);
        left.set_sign_negative(self.negative);
        let mut right = rust_decimal::Decimal::from_i128_with_scale(other.mantissa, other.scale);
        right.set_sign_negative(other.negative);
        left < right
    }

    /// Calls `rust_decimal::Decimal`'s `FromStr`. What comes back, the decimal
    /// or the displayed error, depends on the text alone.
    #[verifier::external_body]
    fn read(text: &str) -> (r: Result<Decimal, String>)
        ensures
            match r {
                Ok(d) => decimal_parsed(text@) == Ok::<(i128, u32, bool), Seq<char>>(
                    (d.mantissa, d.scale, d.negative),
                ),
                Err(error) => decimal_parsed(text@) == Err::<(i128, u32, bool), Seq<char>>(error@),
            },
    {
        match text.parse::<rust_decimal::Decimal>() {
            Ok(d) => Ok(
                Decimal {
                    mantissa: d.mantissa(),
                    scale: d.scale(),
                    negative: d.is_sign_negative(),
                },
            ),
            Err(error) => Err(error.to_string()),
        }
    }

    /// Calls `rust_decimal::Decimal`'s `Display`.
    #[verifier::external_body]
    fn displayed(self) -> (r: String)
        ensures
            r@ == decimal_text(self.mantissa, self.scale, self.negative),
    {
        let mut d = rust_decimal::Decimal::from_i128_with_scale(self.mantissa, self.scale);
        d.set_sign_negative(self.negative);
        d.to_string()
    }
}

/// `10^exponent`.
fn power_of_ten(exponent: u32) -> (r: i128)
    requires
        exponent <= 28,
    ensures
        r == pow(10, exponent as nat),
        1 <= r <= 10000000000000000000000000000,
{
    let mut r: i128 = 1;
    let mut i: u32 = 0;
    proof {
        reveal(pow);
        lemma_power_bound(0);
    }
    while i < exponent
        invariant
            i <= exponent <= 28,
            r == pow(10, i as nat),
            1 <= r <= 10000000000000000000000000000,
        decreases exponent - i,
    {
        proof {
            lemma_power_bound((i + 1) as nat);
            reveal_with_fuel(pow, 2);
        }
        r = r * 10;
        i = i + 1;
    }
    r
}

proof fn lemma_power_bound(exponent: nat)
    requires
        exponent <= 28,
    ensures
        1 <= pow(10, exponent) <= 10000000000000000000000000000,
{
    reveal_with_fuel(pow, 29);
    assert(pow(10, 28) == 10000000000000000000000000000);
    vstd::arithmetic::power::lemma_pow_increases(10, exponent, 28);
    vstd::arithmetic::power::lemma_pow_positive(10, exponent);
}

/// The largest multiple of `10^-digits`, in units of `10^-28`, that does not
/// exceed a value.
pub open spec fn floored(value: int, digits: u32) -> int {
    (value / unit_of_scale(digits as int)) * unit_of_scale(digits as int)
}

/// The smallest multiple of `10^-digits`, in units of `10^-28`, that a value
/// does not exceed.
pub open spec fn ceiled(value: int, digits: u32) -> int {
    -floored(-value, digits)
}

/// Division that rounds down.
fn floor_div(value: i128, step: i128) -> (r: i128)
    requires
        -MAX_MANTISSA <= value <= MAX_MANTISSA,
        1 <= step <= 10000000000000000000000000000,
    ensures
        r == value as int / step as int,
        -MAX_MANTISSA <= r <= MAX_MANTISSA,
{
    if value >= 0 {
        let r = (value as u128 / step as u128) as i128;
        proof {
            vstd::arithmetic::div_mod::lemma_div_is_ordered_by_denominator(
                value as int,
                1,
                step as int,
            );
        }
        r
    } else {
        let positive = (-value) as u128;
        let whole = positive / step as u128;
        let rest = positive % step as u128;
        let r: i128 = if rest == 0 {
            -(whole as i128)
        } else {
            -(whole as i128) - 1
        };
        proof {
            let p = positive as int;
            let d = step as int;
            vstd::arithmetic::div_mod::lemma_fundamental_div_mod(p, d);
            assert(p == d * (whole as int) + rest as int);
            if rest == 0 {
                assert(value as int == (-(whole as int)) * d + 0) by (nonlinear_arith)
                    requires
                        value as int == -p,
                        p == d * (whole as int) + rest as int,
                        rest == 0,
                ;
                vstd::arithmetic::div_mod::lemma_fundamental_div_mod_converse(
                    value as int,
                    d,
                    -(whole as int),
                    0,
                );
            } else {
                assert(value as int == (-(whole as int) - 1) * d + (d - rest as int))
                    by (nonlinear_arith)
                    requires
                        value as int == -p,
                        p == d * (whole as int) + rest as int,
                ;
                vstd::arithmetic::div_mod::lemma_fundamental_div_mod_converse(
                    value as int,
                    d,
                    -(whole as int) - 1,
                    d - rest as int,
                );
            }
            vstd::arithmetic::div_mod::lemma_div_is_ordered_by_denominator(p, 1, d);
            if rest != 0 {
                assert(d >= 2);
                assert(whole as int * 2 <= d * (whole as int)) by (nonlinear_arith)
                    requires
                        d >= 2,
                        whole as int >= 0,
                ;
            }
        }
        r
    }
}

/// A decimal of few enough digits already lies on the grid.
proof fn lemma_on_grid(mantissa: int, scale: u32, digits: u32)
    requires
        scale <= digits <= 28,
    ensures
        floored(mantissa * unit_of_scale(scale as int), digits) == mantissa * unit_of_scale(
            scale as int,
        ),
{
    let unit = unit_of_scale(digits as int);
    let ratio = pow(10, (digits - scale) as nat);
    vstd::arithmetic::power::lemma_pow_adds(10, (digits - scale) as nat, (28 - digits) as nat);
    vstd::arithmetic::power::lemma_pow_positive(10, (28 - digits) as nat);
    assert(unit_of_scale(scale as int) == ratio * unit);
    let value = mantissa * unit_of_scale(scale as int);
    assert(value == (mantissa * ratio) * unit + 0) by (nonlinear_arith)
        requires
            value == mantissa * unit_of_scale(scale as int),
            unit_of_scale(scale as int) == ratio * unit,
    ;
    vstd::arithmetic::div_mod::lemma_fundamental_div_mod_converse(
        value,
        unit,
        mantissa * ratio,
        0,
    );
}

/// Dropping digits rounds down to the coarser grid.
proof fn lemma_floor(mantissa: int, scale: u32, digits: u32, quotient: int, step: int)
    requires
        digits < scale <= 28,
        step == pow(10, (scale - digits) as nat),
        quotient == mantissa / step,
    ensures
        floored(mantissa * unit_of_scale(scale as int), digits) == quotient * unit_of_scale(
            digits as int,
        ),
{
    let fine = unit_of_scale(scale as int);
    let unit = unit_of_scale(digits as int);
    vstd::arithmetic::power::lemma_pow_adds(10, (scale - digits) as nat, (28 - scale) as nat);
    vstd::arithmetic::power::lemma_pow_positive(10, (28 - scale) as nat);
    vstd::arithmetic::power::lemma_pow_positive(10, (scale - digits) as nat);
    assert(unit == step * fine);
    let rest = mantissa % step;
    vstd::arithmetic::div_mod::lemma_fundamental_div_mod(mantissa, step);
    let value = mantissa * fine;
    assert(value == quotient * unit + rest * fine) by (nonlinear_arith)
        requires
            value == mantissa * fine,
            mantissa == step * quotient + rest,
            unit == step * fine,
    ;
    assert(0 <= rest * fine < unit) by (nonlinear_arith)
        requires
            0 <= rest < step,
            fine > 0,
            unit == step * fine,
    ;
    vstd::arithmetic::div_mod::lemma_fundamental_div_mod_converse(
        value,
        unit,
        quotient,
        rest * fine,
    );
}

/// Rounding down keeps a sign.
proof fn lemma_floor_sign(value: int, step: int)
    requires
        step >= 1,
    ensures
        value >= 0 ==> value / step >= 0,
        value < 0 ==> value / step < 0,
{
    vstd::arithmetic::div_mod::lemma_fundamental_div_mod(value, step);
    let quotient = value / step;
    if value >= 0 {
        vstd::arithmetic::div_mod::lemma_div_pos_is_pos(value, step);
    } else if quotient >= 0 {
        assert(step * quotient >= 0) by (nonlinear_arith)
            requires
                step >= 1,
                quotient >= 0,
        ;
    }
}

impl Decimal {
    /// The decimal `mantissa / 10^scale`, where it is representable.
    pub fn new(mantissa: i128, scale: u32) -> (r: Option<Decimal>)
        ensures
            r == (if -MAX_MANTISSA <= mantissa <= MAX_MANTISSA && scale <= MAX_SCALE {
                Some(Decimal::of_parts(mantissa, scale))
            } else {
                None
            }),
            r is Some ==> r->0@ == mantissa * unit_of_scale(scale as int),
    {
        if -MAX_MANTISSA <= mantissa && mantissa <= MAX_MANTISSA && scale <= MAX_SCALE {
            Some(Decimal { mantissa, scale, negative: mantissa < 0 })
        } else {
            None
        }
    }

    /// The decimal of a whole number.
    pub fn from_whole(value: u64) -> (r: Decimal)
        ensures
            r == Decimal::of_parts(value as i128, 0),
            r@ == value * pow(10, 28),
    {
        Decimal { mantissa: value as i128, scale: 0, negative: false }
    }

    /// Zero.
    pub fn zero() -> (r: Decimal)
        ensures
            r == Decimal::of_parts(0, 0),
            r@ == 0,
    {
        Decimal { mantissa: 0, scale: 0, negative: false }
    }

    /// One.
    pub fn one() -> (r: Decimal)
        ensures
            r == Decimal::of_parts(1, 0),
            r@ == pow(10, 28),
    {
        Decimal { mantissa: 1, scale: 0, negative: false }
    }

    /// Reads a decimal from its text.
    pub fn parse(text: &str) -> (r: Result<Decimal, String>)
        ensures
            match r {
                Ok(d) => Decimal::reading(text@) == Ok::<Decimal, Seq<char>>(d),
                Err(error) => Decimal::reading(text@) == Err::<Decimal, Seq<char>>(error@),
            },
    {
        Self::read(text)
    }

    /// A number of tenths of the decimal: the product with a whole number, a
    /// tenth of that; `None` where either leaves the representable range.
    pub fn tenths(self, factor: u64) -> (r: Option<Decimal>)
        ensures
            r == (match self.product(Decimal::of_parts(factor as i128, 0)) {
                Some(scaled) => scaled.quotient(Decimal::of_parts(10, 0)),
                None => None,
            }),
            self.exact_tenths(factor) && self@ != 0 && factor > 0 ==> r is Some && r->0@ * 10
                == self@ * factor,
    {
        let scaled = match self.checked_mul(Decimal::from_whole(factor)) {
            Some(scaled) => scaled,
            None => {
                return None;
            },
        };
        proof {
            use_type_invariant(self);
            if self.exact_tenths(factor) && self@ != 0 && factor > 0 {
                let unit = unit_of_scale(self.scale as int);
                assert(self.mantissa != 0) by {
                    if self.mantissa == 0 {
                        assert(0 * unit == 0);
                    }
                }
                assert(scaled.mantissa == self.mantissa * factor);
                assert(scaled.scale == self.scale);
                assert((self.mantissa * factor) * unit == (self.mantissa * unit) * factor)
                    by (nonlinear_arith);
            }
        }
        scaled.checked_div(Decimal::from_whole(10))
    }

    /// Writes the decimal out.
    pub fn to_text(self) -> (r: String)
        ensures
            r@ == self.text(),
    {
        self.displayed()
    }

    /// Whether `self < other`.
    pub fn lt(self, other: Decimal) -> (r: bool)
        ensures
            r == (self@ < other@),
    {
        self.less(other)
    }

    /// Whether `self <= other`.
    pub fn le(self, other: Decimal) -> (r: bool)
        ensures
            r == (self@ <= other@),
    {
        !other.less(self)
    }

    /// Whether the two decimals have one value, whatever their scales.
    pub fn same(self, other: Decimal) -> (r: bool)
        ensures
            r == (self@ == other@),
    {
        !self.less(other) && !other.less(self)
    }

    /// Whether the decimal is greater than zero.
    pub fn is_positive(self) -> (r: bool)
        ensures
            r == (self@ > 0),
    {
        Decimal::zero().less(self)
    }

    /// Whether the decimal is less than zero.
    pub fn is_negative(self) -> (r: bool)
        ensures
            r == (self@ < 0),
    {
        self.less(Decimal::zero())
    }

    /// Whether the decimal is zero.
    pub fn is_zero(self) -> (r: bool)
        ensures
            r == (self@ == 0),
    {
        self.same(Decimal::zero())
    }

    /// The opposite decimal.
    pub fn negate(self) -> (r: Decimal)
        ensures
            r == self.opposite(),
            r@ == -self@,
    {
        proof {
            use_type_invariant(self);
            assert((-self.mantissa) * unit_of_scale(self.scale as int) == -(self.mantissa
                * unit_of_scale(self.scale as int))) by (nonlinear_arith);
        }
        Decimal { mantissa: -self.mantissa, scale: self.scale, negative: !self.negative }
    }

    /// The largest decimal of no more than `digits` fractional digits that
    /// does not exceed this one.
    pub fn floor_to(self, digits: u32) -> (r: Decimal)
        requires
            digits <= 28,
        ensures
            r == self.floored_to(digits),
            r@ == floored(self@, digits),
    {
        proof {
            use_type_invariant(self);
        }
        if self.scale <= digits {
            proof {
                lemma_on_grid(self.mantissa as int, self.scale, digits);
            }
            return self;
        }
        let step = power_of_ten(self.scale - digits);
        let mantissa = floor_div(self.mantissa, step);
        proof {
            lemma_floor(self.mantissa as int, self.scale, digits, mantissa as int, step as int);
            lemma_floor_sign(self.mantissa as int, step as int);
        }
        Decimal { mantissa, scale: digits, negative: self.negative }
    }

    /// The smallest decimal of no more than `digits` fractional digits that
    /// this one does not exceed.
    pub fn ceil_to(self, digits: u32) -> (r: Decimal)
        requires
            digits <= 28,
        ensures
            r == self.ceiled_to(digits),
            r@ == ceiled(self@, digits),
    {
        let opposite = self.negate();
        let floor = opposite.floor_to(digits);
        floor.negate()
    }

    /// The smaller of two decimals; the first of two equal ones.
    pub open spec fn lesser(self, other: Decimal) -> Decimal {
        if other@ < self@ {
            other
        } else {
            self
        }
    }

    /// The larger of two decimals; the second of two equal ones.
    pub open spec fn greater(self, other: Decimal) -> Decimal {
        if other@ < self@ {
            self
        } else {
            other
        }
    }

    /// The larger of two decimals; the first of two equal ones.
    pub open spec fn first_greater(self, other: Decimal) -> Decimal {
        if self@ < other@ {
            other
        } else {
            self
        }
    }

    /// The smaller of two decimals.
    pub fn min_of(self, other: Decimal) -> (r: Decimal)
        ensures
            r == self.lesser(other),
    {
        if other.less(self) {
            other
        } else {
            self
        }
    }

    /// The larger of two decimals; the first of two equal ones.
    pub fn first_max_of(self, other: Decimal) -> (r: Decimal)
        ensures
            r == self.first_greater(other),
    {
        if self.less(other) {
            other
        } else {
            self
        }
    }

    /// The larger of two decimals; the second of two equal ones.
    pub fn max_of(self, other: Decimal) -> (r: Decimal)
        ensures
            r == self.greater(other),
    {
        if other.less(self) {
            self
        } else {
            other
        }
    }
}

impl PartialEq for Decimal {
    fn eq(&self, other: &Decimal) -> (r: bool) {
        self.same(*other)
    }
}

impl vstd::std_specs::cmp::PartialEqSpecImpl for Decimal {
    open spec fn obeys_eq_spec() -> bool {
        true
    }

    open spec fn eq_spec(&self, other: &Decimal) -> bool {
        self@ == other@
    }
}

impl Eq for Decimal {

}

/// A whole number is worth that many times one.
pub proof fn whole_numbers_have_their_value(value: i128)
    ensures
        Decimal::of_parts(value, 0)@ == value * pow(10, 28),
{
}

} // verus!
