//! What writing numbers is for.
use vstd::prelude::*;

use crate::text::{digit_text, integer_text, joined, natural_text};

verus! {

/// The number that decimal digits stand for.
pub open spec fn number_in(digits: Seq<char>) -> int
    decreases digits.len(),
{
    if digits.len() == 0 {
        0
    } else {
        number_in(digits.drop_last()) * 10 + (digits.last() as int - '0' as int)
    }
}

proof fn lemma_digit(digit: nat)
    requires
        digit < 10,
    ensures
        digit_text(digit).len() == 1,
        digit_text(digit)[0] as int - '0' as int == digit,
{
    reveal_strlit("0");
    reveal_strlit("1");
    reveal_strlit("2");
    reveal_strlit("3");
    reveal_strlit("4");
    reveal_strlit("5");
    reveal_strlit("6");
    reveal_strlit("7");
    reveal_strlit("8");
    reveal_strlit("9");
}

/// A number that is written is read as itself.
pub proof fn numbers_read_back(value: nat)
    ensures
        number_in(natural_text(value)) == value,
        natural_text(value).len() > 0,
    decreases value,
{
    reveal_with_fuel(number_in, 2);
    if value < 10 {
        lemma_digit(value);
        assert(natural_text(value).drop_last() =~= Seq::empty());
    } else {
        numbers_read_back(value / 10);
        lemma_digit(value % 10);
        let text = natural_text(value);
        let front = natural_text(value / 10);
        assert(text.drop_last() =~= front);
        assert(text.last() == digit_text(value % 10)[0]);
    }
}

/// A negative number is written as its opposite behind a sign, and no other
/// number has one.
pub proof fn signs_go_before_negative_numbers(value: int)
    ensures
        value >= 0 ==> number_in(integer_text(value)) == value,
        value < 0 ==> integer_text(value).len() > 1 && integer_text(value)[0] == '-' && number_in(
            integer_text(value).drop_first(),
        ) == -value,
{
    if value >= 0 {
        numbers_read_back(value as nat);
    } else {
        reveal_strlit("-");
        numbers_read_back((-value) as nat);
        assert(integer_text(value).drop_first() =~= natural_text((-value) as nat));
    }
}

/// Joining puts every part in, and a separator between each two of them.
pub proof fn joining_keeps_every_part(parts: Seq<Seq<char>>, separator: Seq<char>, last: Seq<char>)
    ensures
        parts.len() == 0 ==> joined(parts.push(last), separator) == last,
        parts.len() > 0 ==> joined(parts.push(last), separator) == joined(parts, separator)
            + separator + last,
{
    assert(parts.push(last).drop_last() =~= parts);
}

} // verus!
