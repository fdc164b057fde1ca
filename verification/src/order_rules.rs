//! Venue rules that an exit order has to meet before it is written ahead.
//!
//! Shares are sold in hundredths: what is finer is left in the position. A
//! sell limit is a hard minimum, so it is only ever raised to the price grid,
//! and it has to stay one tick away from zero and from one.
use vstd::arithmetic::power::pow;
use vstd::prelude::*;
use vstd::string::*;

use crate::decimal::{Decimal, Price, Shares};
use crate::orders::{TickSize, VenueOrderAmount};

verus! {

/// Fractional digits of a share amount at the venue.
pub const SHARE_DIGITS: u32 = 2;

/// Price grid and minimum size of a market.
#[derive(Clone, Copy, Debug)]
pub struct PolymarketOrderRules {
    pub tick_size: TickSize,
    pub minimum_order_size: Shares,
}

/// Why an order does not meet the venue rules.
#[derive(Clone, Copy, Debug)]
pub enum VenueOrderRuleError {
    /// The price on the grid is not one tick away from zero and one.
    PriceOutsideBounds { price: Price, tick_size: TickSize },
    /// The shares in venue precision are fewer than the market accepts.
    OrderBelowMinimum { requested: Shares, minimum: Shares },
}

impl VenueOrderRuleError {
    /// How the violation is reported.
    pub open spec fn text(self) -> Seq<char> {
        match self {
            VenueOrderRuleError::PriceOutsideBounds { price, tick_size } => "price "@ + price.text()
                + " is outside the bounds of tick size "@ + tick_size.text(),
            VenueOrderRuleError::OrderBelowMinimum { requested, minimum } => "order of "@
                + requested.text() + " shares is below the minimum of "@ + minimum.text(),
        }
    }

    /// Writes the violation out.
    pub fn to_text(&self) -> (r: String)
        ensures
            r@ == self.text(),
    {
        match self {
            VenueOrderRuleError::PriceOutsideBounds { price, tick_size } => "price ".to_owned(

            ).concat(price.to_text().as_str()).concat(" is outside the bounds of tick size ").concat(
            tick_size.as_str()),
            VenueOrderRuleError::OrderBelowMinimum { requested, minimum } => "order of ".to_owned(

            ).concat(requested.to_text().as_str()).concat(" shares is below the minimum of ").concat(
            minimum.to_text().as_str()),
        }
    }
}

/// One, in units of `10^-28`.
pub open spec fn one_unit() -> int {
    pow(10, 28)
}

impl PolymarketOrderRules {
    /// One tick, in units of `10^-28`.
    pub open spec fn tick(self) -> int {
        crate::decimal::unit_of_scale(self.tick_size.spec_digits() as int)
    }

    /// Whether a price is at least one tick away from zero and from one.
    pub open spec fn in_bounds(self, price: int) -> bool {
        self.tick() <= price <= one_unit() - self.tick()
    }

    /// The lowest price on the grid that is not below `minimum`.
    pub open spec fn raised(self, minimum: Price) -> Price {
        minimum.ceiled_to(self.tick_size.spec_digits())
    }

    /// The lowest price on the grid that is not below `minimum`, or the
    /// violation where it lies outside the bounds.
    pub open spec fn limit_for(self, minimum: Price) -> Result<Price, VenueOrderRuleError> {
        if self.in_bounds(crate::decimal::ceiled(minimum@, self.tick_size.spec_digits())) {
            Ok(self.raised(minimum))
        } else {
            Err(
                VenueOrderRuleError::PriceOutsideBounds {
                    price: self.raised(minimum),
                    tick_size: self.tick_size,
                },
            )
        }
    }

    /// The amount of a sale in venue precision, or the violation where it does
    /// not reach the minimum.
    pub open spec fn sale_of(self, shares: Shares) -> Result<ExitAmounts, VenueOrderRuleError> {
        let sold = shares.floored_to(SHARE_DIGITS);
        if crate::decimal::floored(shares@, SHARE_DIGITS) < self.minimum_order_size@ {
            Err(
                VenueOrderRuleError::OrderBelowMinimum {
                    requested: sold,
                    minimum: self.minimum_order_size,
                },
            )
        } else {
            Ok(ExitAmounts { venue_amount: VenueOrderAmount::Shares(sold), requested_shares: sold })
        }
    }

    /// The lowest price on the grid that is not below `minimum`, where it lies
    /// within the bounds.
    pub fn sell_limit_at_least(&self, minimum: Price) -> (r: Result<Price, VenueOrderRuleError>)
        ensures
            r == self.limit_for(minimum),
            r is Ok ==> r->Ok_0@ == crate::decimal::ceiled(
                minimum@,
                self.tick_size.spec_digits(),
            ),
    {
        let digits = self.tick_size.digits();
        let limit = minimum.ceil_to(digits);
        let tick = tick_value(digits);
        let most = most_value(digits);
        if tick.le(limit) && limit.le(most) {
            Ok(limit)
        } else {
            Err(VenueOrderRuleError::PriceOutsideBounds { price: limit, tick_size: self.tick_size })
        }
    }

    /// The amount of a sale in venue precision, where it reaches the minimum.
    pub fn canonical_sale(&self, shares: Shares) -> (r: Result<ExitAmounts, VenueOrderRuleError>)
        ensures
            r == self.sale_of(shares),
            r is Ok ==> r->Ok_0.requested_shares@ == crate::decimal::floored(
                shares@,
                SHARE_DIGITS,
            ),
    {
        let sold = shares.floor_to(SHARE_DIGITS);
        if sold.lt(self.minimum_order_size) {
            Err(
                VenueOrderRuleError::OrderBelowMinimum {
                    requested: sold,
                    minimum: self.minimum_order_size,
                },
            )
        } else {
            Ok(ExitAmounts { venue_amount: VenueOrderAmount::Shares(sold), requested_shares: sold })
        }
    }
}

/// Amount of a sale as the venue takes it.
#[derive(Clone, Copy, Debug)]
pub struct ExitAmounts {
    pub venue_amount: VenueOrderAmount,
    pub requested_shares: Shares,
}

/// One tick.
pub(crate) fn tick_value(digits: u32) -> (r: Decimal)
    requires
        1 <= digits <= 4,
    ensures
        r@ == crate::decimal::unit_of_scale(digits as int),
{
    let r = match Decimal::new(1, digits) {
        Some(tick) => tick,
        None => Decimal::zero(),
    };
    r
}

/// One less one tick.
pub(crate) fn most_value(digits: u32) -> (r: Decimal)
    requires
        1 <= digits <= 4,
    ensures
        r@ == one_unit() - crate::decimal::unit_of_scale(digits as int),
{
    let mantissa: i128 = if digits == 1 {
        9
    } else if digits == 2 {
        99
    } else if digits == 3 {
        999
    } else {
        9999
    };
    let r = match Decimal::new(mantissa, digits) {
        Some(most) => most,
        None => Decimal::zero(),
    };
    proof {
        vstd::arithmetic::power::lemma_pow_adds(10, digits as nat, (28 - digits) as nat);
        reveal_with_fuel(pow, 5);
        let unit = crate::decimal::unit_of_scale(digits as int);
        assert(pow(10, digits as nat) == mantissa + 1);
        assert(mantissa as int * unit == (mantissa + 1) * unit - unit) by (nonlinear_arith);
    }
    r
}

/// A raised sell limit is never below the minimum it was raised from, and less
/// than one tick above it.
pub proof fn raised_limit_keeps_the_minimum(minimum: int, tick_size: TickSize)
    ensures
        minimum <= crate::decimal::ceiled(minimum, tick_size.spec_digits()) < minimum
            + crate::decimal::unit_of_scale(tick_size.spec_digits() as int),
{
    let unit = crate::decimal::unit_of_scale(tick_size.spec_digits() as int);
    vstd::arithmetic::power::lemma_pow_positive(10, (28 - tick_size.spec_digits()) as nat);
    vstd::arithmetic::div_mod::lemma_fundamental_div_mod(-minimum, unit);
    vstd::arithmetic::mul::lemma_mul_is_commutative(-minimum / unit, unit);
}

/// A sale in venue precision never sells more than was asked, and leaves less
/// than a hundredth of a share behind.
pub proof fn canonical_sale_never_oversells(shares: int)
    ensures
        shares - crate::decimal::unit_of_scale(SHARE_DIGITS as int) < crate::decimal::floored(
            shares,
            SHARE_DIGITS,
        ) <= shares,
{
    let unit = crate::decimal::unit_of_scale(SHARE_DIGITS as int);
    vstd::arithmetic::power::lemma_pow_positive(10, (28 - SHARE_DIGITS) as nat);
    vstd::arithmetic::div_mod::lemma_fundamental_div_mod(shares, unit);
    vstd::arithmetic::mul::lemma_mul_is_commutative(shares / unit, unit);
}

} // verus!
