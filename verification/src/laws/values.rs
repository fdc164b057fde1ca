//! When arithmetic on decimals is exact.
use vstd::arithmetic::power::pow;
use vstd::prelude::*;

use crate::decimal::Decimal;

verus! {

/// The sum is the sum of the values.
pub open spec fn sums_to(left: Decimal, right: Decimal, total: Decimal) -> bool {
    left.sum(right) == Some(total) && total@ == left@ + right@
}

/// The difference is the difference of the values.
pub open spec fn leaves(left: Decimal, right: Decimal, rest: Decimal) -> bool {
    left.difference(right) == Some(rest) && rest@ == left@ - right@
}

/// The opposite is the negation of the value.
pub open spec fn negates_to(value: Decimal, opposite: Decimal) -> bool {
    value.opposite() == opposite && opposite@ == -value@
}

/// The product is the product of the values.
pub open spec fn multiplies_to(left: Decimal, right: Decimal, product: Decimal) -> bool {
    left.product(right) == Some(product) && product@ * pow(10, 28) == left@ * right@
}

/// The quotient is the quotient of the values.
pub open spec fn divides_to(left: Decimal, right: Decimal, quotient: Decimal) -> bool {
    left.quotient(right) == Some(quotient) && quotient@ * right@ == left@ * pow(10, 28)
}

} // verus!
