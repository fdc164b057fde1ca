//! Text building blocks.
use vstd::prelude::*;
use vstd::string::*;

verus! {

/// What the standard library says when an integer does not fit the type it is
/// converted to.
pub open spec fn conversion_overflow() -> Seq<char> {
    "out of range integral type conversion attempted"@
}

/// The decimal digit of a value below ten.
pub open spec fn digit_text(digit: nat) -> Seq<char> {
    if digit == 0 {
        "0"@
    } else if digit == 1 {
        "1"@
    } else if digit == 2 {
        "2"@
    } else if digit == 3 {
        "3"@
    } else if digit == 4 {
        "4"@
    } else if digit == 5 {
        "5"@
    } else if digit == 6 {
        "6"@
    } else if digit == 7 {
        "7"@
    } else if digit == 8 {
        "8"@
    } else {
        "9"@
    }
}

/// A natural number in decimal notation.
pub open spec fn natural_text(value: nat) -> Seq<char>
    decreases value,
{
    if value < 10 {
        digit_text(value)
    } else {
        natural_text(value / 10) + digit_text(value % 10)
    }
}

/// An integer in decimal notation.
pub open spec fn integer_text(value: int) -> Seq<char> {
    if value < 0 {
        "-"@ + natural_text((-value) as nat)
    } else {
        natural_text(value as nat)
    }
}

fn digit(value: u128) -> (r: &'static str)
    requires
        value < 10,
    ensures
        r@ == digit_text(value as nat),
{
    if value == 0 {
        "0"
    } else if value == 1 {
        "1"
    } else if value == 2 {
        "2"
    } else if value == 3 {
        "3"
    } else if value == 4 {
        "4"
    } else if value == 5 {
        "5"
    } else if value == 6 {
        "6"
    } else if value == 7 {
        "7"
    } else if value == 8 {
        "8"
    } else {
        "9"
    }
}

/// Writes a natural number in decimal notation.
pub fn write_natural(value: u128) -> (r: String)
    ensures
        r@ == natural_text(value as nat),
    decreases value,
{
    if value < 10 {
        digit(value).to_owned()
    } else {
        write_natural(value / 10).concat(digit(value % 10))
    }
}

/// Writes an integer in decimal notation.
pub fn write_integer(value: i64) -> (r: String)
    ensures
        r@ == integer_text(value as int),
{
    if value < 0 {
        "-".to_owned().concat(write_natural((-(value as i128)) as u128).as_str())
    } else {
        write_natural(value as u128)
    }
}

/// The hexadecimal digit of a value below sixteen.
pub open spec fn hex_digit_text(digit: nat) -> Seq<char> {
    if digit < 10 {
        digit_text(digit)
    } else if digit == 10 {
        "a"@
    } else if digit == 11 {
        "b"@
    } else if digit == 12 {
        "c"@
    } else if digit == 13 {
        "d"@
    } else if digit == 14 {
        "e"@
    } else {
        "f"@
    }
}

/// The last `digits` hexadecimal digits of a natural number.
pub open spec fn hex_text(value: nat, digits: nat) -> Seq<char>
    decreases digits,
{
    if digits == 0 {
        ""@
    } else {
        hex_text(value / 16, (digits - 1) as nat) + hex_digit_text(value % 16)
    }
}

/// A 128-bit identity in hyphenated hexadecimal notation.
pub open spec fn id_text(id: u128) -> Seq<char> {
    hex_text((id / 79228162514264337593543950336) as nat, 8) + "-"@ + hex_text(
        (id / 1208925819614629174706176) as nat,
        4,
    ) + "-"@ + hex_text((id / 18446744073709551616) as nat, 4) + "-"@ + hex_text(
        (id / 281474976710656) as nat,
        4,
    ) + "-"@ + hex_text(id as nat, 12)
}

/// How a truth value is written.
pub open spec fn bool_text(value: bool) -> Seq<char> {
    if value {
        "true"@
    } else {
        "false"@
    }
}

/// The texts in order, with the separator between neighbours.
pub open spec fn joined(parts: Seq<Seq<char>>, separator: Seq<char>) -> Seq<char>
    decreases parts.len(),
{
    if parts.len() == 0 {
        ""@
    } else if parts.len() == 1 {
        parts[0]
    } else {
        joined(parts.drop_last(), separator) + separator + parts.last()
    }
}

/// The texts of strings.
pub open spec fn texts(strings: Seq<String>) -> Seq<Seq<char>> {
    strings.map_values(|s: String| s@)
}

fn hex_digit(value: u128) -> (r: &'static str)
    requires
        value < 16,
    ensures
        r@ == hex_digit_text(value as nat),
{
    if value < 10 {
        digit(value)
    } else if value == 10 {
        "a"
    } else if value == 11 {
        "b"
    } else if value == 12 {
        "c"
    } else if value == 13 {
        "d"
    } else if value == 14 {
        "e"
    } else {
        "f"
    }
}

/// Writes the last hexadecimal digits of a natural number.
pub fn write_hex(value: u128, digits: u32) -> (r: String)
    ensures
        r@ == hex_text(value as nat, digits as nat),
    decreases digits,
{
    if digits == 0 {
        "".to_owned()
    } else {
        write_hex(value / 16, digits - 1).concat(hex_digit(value % 16))
    }
}

/// Writes a 128-bit identity in hyphenated hexadecimal notation.
pub fn write_id(id: u128) -> (r: String)
    ensures
        r@ == id_text(id),
{
    write_hex(id / 79228162514264337593543950336, 8).concat("-").concat(
        write_hex(id / 1208925819614629174706176, 4).as_str(),
    ).concat("-").concat(write_hex(id / 18446744073709551616, 4).as_str()).concat("-").concat(
        write_hex(id / 281474976710656, 4).as_str(),
    ).concat("-").concat(write_hex(id, 12).as_str())
}

/// Writes a truth value.
pub fn write_bool(value: bool) -> (r: &'static str)
    ensures
        r@ == bool_text(value),
{
    if value {
        "true"
    } else {
        "false"
    }
}

/// Joins texts with a separator.
pub fn join(parts: &Vec<String>, separator: &str) -> (r: String)
    ensures
        r@ == joined(texts(parts@), separator@),
{
    if parts.len() == 0 {
        return "".to_owned();
    }
    let mut result = parts[0].clone();
    let mut i: usize = 1;
    proof {
        assert(texts(parts@.take(1)).len() == 1);
        assert(texts(parts@.take(1))[0] == parts@[0]@);
    }
    while i < parts.len()
        invariant
            1 <= i <= parts.len(),
            result@ == joined(texts(parts@.take(i as int)), separator@),
        decreases parts.len() - i,
    {
        proof {
            let now = texts(parts@.take(i + 1));
            assert(now.drop_last() =~= texts(parts@.take(i as int)));
            assert(now.last() == parts@[i as int]@);
        }
        result = result.concat(separator).concat(parts[i].as_str());
        i = i + 1;
    }
    proof {
        assert(parts@.take(parts.len() as int) =~= parts@);
    }
    result
}

/// Whether two texts hold the same characters.
pub fn same_text(left: &str, right: &str) -> (r: bool)
    ensures
        r == (left@ == right@),
{
    left.to_owned() == right.to_owned()
}

} // verus!
