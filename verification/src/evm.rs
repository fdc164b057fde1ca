//! Addresses and hashes of the chain, read from hexadecimal text.
//!
//! The notation is `0x` and a fixed number of hexadecimal digits; the case of
//! letters does not matter.
use vstd::prelude::*;
use vstd::string::*;

use crate::text::{hex_text, write_hex};

verus! {

/// The value of a hexadecimal digit.
pub open spec fn hex_digit_value(c: char) -> Option<nat> {
    if '0' <= c && c <= '9' {
        Some((c as int - '0' as int) as nat)
    } else if 'a' <= c && c <= 'f' {
        Some((c as int - 'a' as int + 10) as nat)
    } else if 'A' <= c && c <= 'F' {
        Some((c as int - 'A' as int + 10) as nat)
    } else {
        None
    }
}

/// The value of a row of hexadecimal digits.
pub open spec fn hex_value(digits: Seq<char>) -> Option<nat>
    decreases digits.len(),
{
    if digits.len() == 0 {
        Some(0)
    } else {
        match (hex_value(digits.drop_last()), hex_digit_value(digits.last())) {
            (Some(front), Some(digit)) => Some(front * 16 + digit),
            _ => None,
        }
    }
}

/// A power of sixteen.
spec fn sixteens(exponent: nat) -> nat
    decreases exponent,
{
    if exponent == 0 {
        1
    } else {
        16 * sixteens((exponent - 1) as nat)
    }
}

proof fn lemma_sixteens(small: nat, large: nat)
    requires
        small <= large,
    ensures
        0 < sixteens(small) <= sixteens(large),
    decreases large,
{
    if large == 0 {
    } else if small == large {
        lemma_sixteens((small - 1) as nat, (large - 1) as nat);
    } else {
        lemma_sixteens(small, (large - 1) as nat);
    }
}

proof fn lemma_hex_bound(digits: Seq<char>)
    ensures
        hex_value(digits) matches Some(value) ==> value < sixteens(digits.len()),
    decreases digits.len(),
{
    if digits.len() > 0 {
        lemma_hex_bound(digits.drop_last());
    }
}

proof fn lemma_word()
    ensures
        sixteens(32) == 0x1_0000_0000_0000_0000_0000_0000_0000_0000,
        sixteens(8) == 0x1_0000_0000,
{
    reveal_with_fuel(sixteens, 33);
}

proof fn lemma_bad_digit(digits: Seq<char>, n: int)
    requires
        0 <= n <= digits.len(),
        hex_value(digits.take(n)) is None,
    ensures
        hex_value(digits) is None,
    decreases digits.len() - n,
{
    if n == digits.len() {
        assert(digits.take(n) =~= digits);
    } else {
        assert(digits.take(n + 1).drop_last() =~= digits.take(n));
        lemma_bad_digit(digits, n + 1);
    }
}

fn digit_value(c: char) -> (r: Option<u128>)
    ensures
        match r {
            Some(value) => hex_digit_value(c) == Some(value as nat) && value < 16,
            None => hex_digit_value(c) is None,
        },
{
    if '0' <= c && c <= '9' {
        Some((c as u32 - '0' as u32) as u128)
    } else if 'a' <= c && c <= 'f' {
        Some((c as u32 - 'a' as u32 + 10) as u128)
    } else if 'A' <= c && c <= 'F' {
        Some((c as u32 - 'A' as u32 + 10) as u128)
    } else {
        None
    }
}

/// Reads up to 32 hexadecimal digits of a text.
fn read_digits(text: &str, from: usize, to: usize) -> (r: Option<u128>)
    requires
        from <= to <= text@.len(),
        to - from <= 32,
    ensures
        match r {
            Some(value) => hex_value(text@.subrange(from as int, to as int)) == Some(value as nat),
            None => hex_value(text@.subrange(from as int, to as int)) is None,
        },
{
    let ghost digits = text@.subrange(from as int, to as int);
    let mut value: u128 = 0;
    let mut i: usize = from;
    assert(digits.take(0) =~= Seq::<char>::empty());
    while i < to
        invariant
            from <= i <= to <= text@.len(),
            to - from <= 32,
            digits == text@.subrange(from as int, to as int),
            hex_value(digits.take(i - from)) == Some(value as nat),
        decreases to - i,
    {
        let ghost n = (i - from) as int;
        assert(digits.take(n + 1).drop_last() =~= digits.take(n));
        assert(digits.take(n + 1).last() == text@[i as int]);
        match digit_value(text.get_char(i)) {
            Some(digit) => {
                proof {
                    lemma_hex_bound(digits.take(n + 1));
                    lemma_sixteens((n + 1) as nat, 32);
                    lemma_word();
                }
                value = value * 16 + digit;
            },
            None => {
                proof {
                    lemma_bad_digit(digits, n + 1);
                }
                return None;
            },
        }
        i = i + 1;
    }
    assert(digits.take((i - from) as int) =~= digits);
    Some(value)
}

/// Whether a text begins with the hexadecimal prefix and has this many digits
/// behind it.
pub open spec fn has_hex_shape(text: Seq<char>, digits: int) -> bool {
    text.len() == digits + 2 && text[0] == '0' && (text[1] == 'x' || text[1] == 'X')
}

fn check_hex_shape(text: &str, digits: usize) -> (r: bool)
    requires
        digits <= 64,
    ensures
        r == has_hex_shape(text@, digits as int),
{
    text.unicode_len() == digits + 2 && text.get_char(0) == '0' && (text.get_char(1) == 'x'
        || text.get_char(1) == 'X')
}

/// An address: its first 32 bits and its last 128.
#[derive(Clone, Copy, Debug, PartialEq, Eq, Structural)]
pub struct EvmAddress {
    pub high: u32,
    pub low: u128,
}

/// What a text reads as: an address, or nothing.
pub open spec fn address_reading(text: Seq<char>) -> Option<EvmAddress> {
    if has_hex_shape(text, 40) {
        match (hex_value(text.subrange(2, 10)), hex_value(text.subrange(10, 42))) {
            (Some(high), Some(low)) => Some(EvmAddress { high: high as u32, low: low as u128 }),
            _ => None,
        }
    } else {
        None
    }
}

impl EvmAddress {
    /// How the address is written.
    pub open spec fn text(self) -> Seq<char> {
        "0x"@ + hex_text(self.high as nat, 8) + hex_text(self.low as nat, 32)
    }

    /// Reads an address.
    pub fn parse(text: &str) -> (r: Option<EvmAddress>)
        ensures
            r == address_reading(text@),
    {
        if !check_hex_shape(text, 40) {
            return None;
        }
        match (read_digits(text, 2, 10), read_digits(text, 10, 42)) {
            (Some(high), Some(low)) => {
                proof {
                    lemma_hex_bound(text@.subrange(2, 10));
                    lemma_word();
                }
                Some(EvmAddress { high: high as u32, low })
            },
            _ => None,
        }
    }

    /// Writes the address out.
    pub fn to_text(self) -> (r: String)
        ensures
            r@ == self.text(),
    {
        "0x".to_owned().concat(write_hex(self.high as u128, 8).as_str()).concat(
            write_hex(self.low, 32).as_str(),
        )
    }
}

/// A 256-bit hash of a block or a transaction.
#[derive(Clone, Copy, Debug, PartialEq, Eq, Structural)]
pub struct EvmHash {
    pub high: u128,
    pub low: u128,
}

/// What a text reads as: a hash, or nothing.
pub open spec fn hash_reading(text: Seq<char>) -> Option<EvmHash> {
    if has_hex_shape(text, 64) {
        match (hex_value(text.subrange(2, 34)), hex_value(text.subrange(34, 66))) {
            (Some(high), Some(low)) => Some(EvmHash { high: high as u128, low: low as u128 }),
            _ => None,
        }
    } else {
        None
    }
}

impl EvmHash {
    /// Reads a hash.
    pub fn parse(text: &str) -> (r: Option<EvmHash>)
        ensures
            r == hash_reading(text@),
    {
        if !check_hex_shape(text, 64) {
            return None;
        }
        match (read_digits(text, 2, 34), read_digits(text, 34, 66)) {
            (Some(high), Some(low)) => Some(EvmHash { high, low }),
            _ => None,
        }
    }
}

proof fn lemma_reading_back(value: nat, digits: nat)
    requires
        value < sixteens(digits),
    ensures
        hex_text(value, digits).len() == digits,
        hex_value(hex_text(value, digits)) == Some(value),
    decreases digits,
{
    reveal_strlit("");
    if digits > 0 {
        let front = hex_text(value / 16, (digits - 1) as nat);
        let last = crate::text::hex_digit_text(value % 16);
        lemma_reading_back(value / 16, (digits - 1) as nat);
        lemma_digit_back(value % 16);
        let whole = front + last;
        assert(whole.drop_last() =~= front);
        assert(whole.last() == last[0]);
    }
}

proof fn lemma_digit_back(digit: nat)
    requires
        digit < 16,
    ensures
        crate::text::hex_digit_text(digit).len() == 1,
        hex_digit_value(crate::text::hex_digit_text(digit)[0]) == Some(digit),
{
    reveal_strlit("0");
    reveal_strlit("1");
    reveal_strlit("2");
    reveal_strlit("3");
    reveal_strlit("4");
    reveal_strlit("5");
    reveal_strlit("6");
    reveal_strlit("7");
    reveal_strlit("8");
    reveal_strlit("9");
    reveal_strlit("a");
    reveal_strlit("b");
    reveal_strlit("c");
    reveal_strlit("d");
    reveal_strlit("e");
    reveal_strlit("f");
}

/// An address that was written out reads back as itself.
pub proof fn addresses_read_back(address: EvmAddress)
    ensures
        address_reading(address.text()) == Some(address),
{
    lemma_word();
    lemma_reading_back(address.high as nat, 8);
    lemma_reading_back(address.low as nat, 32);
    reveal_strlit("0x");
    let text = address.text();
    assert(text.len() == 42);
    assert(text[0] == '0' && text[1] == 'x');
    assert(text.subrange(2, 10) =~= hex_text(address.high as nat, 8));
    assert(text.subrange(10, 42) =~= hex_text(address.low as nat, 32));
}

} // verus!
