use quant_pivot_execution::decimal::Decimal;
use quant_pivot_execution::sorting::{drop_equal_neighbours, drop_repeats, text_before};
use quant_pivot_execution::text::{join, write_bool, write_hex, write_id, write_integer, write_natural};
use quant_pivot_execution::time::Timestamp;
use quant_pivot_execution::types::{ContentHash, Ident};

fn dec(text: &str) -> Decimal {
    Decimal::parse(text).expect("decimal")
}

#[test]
fn decimals_read_and_write() {
    assert_eq!(dec("0.50").to_text(), "0.50");
    assert_eq!(dec("-12").to_text(), "-12");
    assert!(dec("0.50").same(dec("0.5")));
    assert!(Decimal::parse("half").is_err());
    assert_eq!(dec("1.5"), Decimal::new(15, 1).expect("decimal"));
    assert!(Decimal::new(1, 29).is_none());
    assert!(Decimal::new(i128::MAX, 0).is_none());
}

#[test]
fn decimals_compare_by_value() {
    assert!(dec("0.5").lt(dec("0.51")));
    assert!(!dec("0.5").lt(dec("0.50")));
    assert!(dec("0.5").le(dec("0.50")));
    assert!(dec("-1").is_negative() && dec("1").is_positive() && dec("0.00").is_zero());
    assert!(dec("2").min_of(dec("1")).same(dec("1")));
    assert!(dec("2").max_of(dec("1")).same(dec("2")));
    assert!(dec("2").negate().same(dec("-2")));
}

#[test]
fn decimals_round_to_the_grid() {
    assert!(dec("10.009").floor_to(2).same(dec("10.00")));
    assert!(dec("-10.001").floor_to(2).same(dec("-10.01")));
    assert!(dec("0.501").ceil_to(2).same(dec("0.51")));
    assert!(dec("0.50").ceil_to(2).same(dec("0.5")));
    assert!(Decimal::from_whole(7).same(dec("7")));
    assert!(Decimal::one().lt(dec("1.1")) && Decimal::zero().is_zero());
}

#[test]
fn zeros_keep_their_sign() {
    assert_eq!(dec("0.00").negate().to_text(), "-0.00");
    assert_eq!(dec("0.00").negate().negate().to_text(), "0.00");
    assert!(dec("0.00").negate().same(Decimal::zero()));
    assert!(!dec("0.00").negate().is_negative() && dec("0.00").negate().is_zero());
}

#[test]
fn ties_keep_the_first_or_the_last() {
    assert_eq!(dec("1.0").first_max_of(dec("1.00")).to_text(), "1.0");
    assert_eq!(dec("1.0").max_of(dec("1.00")).to_text(), "1.00");
    assert_eq!(dec("1").first_max_of(dec("2")).to_text(), "2");
    assert_eq!(dec("2").first_max_of(dec("1")).to_text(), "2");
}

#[test]
fn rounding_fixes_the_digits() {
    assert_eq!(dec("4.009").floor_to(2).to_text(), "4.00");
    assert_eq!(dec("4.9").floor_to(2).to_text(), "4.9");
    assert_eq!(dec("-4.001").floor_to(2).to_text(), "-4.01");
    assert_eq!(dec("0.991").ceil_to(2).to_text(), "1.00");
    assert_eq!(dec("0.5").ceil_to(2).to_text(), "0.5");
}

#[test]
fn tenths_are_exact() {
    assert!(dec("100").tenths(8).expect("tenths").same(dec("80")));
    assert!(dec("0.07").tenths(3).expect("tenths").same(dec("0.021")));
    assert!(dec("79228162514264337593543950335").tenths(11).is_none());
}

#[test]
fn instants_are_placed_in_the_calendar() {
    let start = Timestamp::from_seconds(1_700_000_000).expect("time");
    assert_eq!(Timestamp::from_millis(1_700_000_000_000), Some(start));
    assert_eq!(start.plus_seconds(60).expect("later").whole_seconds(), 1_700_000_060);
    assert_eq!(start.plus_millis(1).expect("later").whole_millis(), 1_700_000_000_001);
    assert_eq!(start.plus_natural_seconds(u64::MAX), None);
    assert_eq!(Timestamp::from_seconds(i64::MAX), None);
    assert_eq!(Timestamp::from_millis(i64::MAX), None);
    assert_eq!(Timestamp::new(0, 1_000_000_000), None);
    assert_eq!(start.to_text(), "2023-11-14 22:13:20 UTC");
    assert_eq!(start.to_rfc3339(), "2023-11-14T22:13:20+00:00");
    assert_eq!(Timestamp::epoch().whole_millis(), 0);
}

#[test]
fn instants_are_ordered() {
    let first = Timestamp::from_millis(-1).expect("time");
    let second = Timestamp::epoch();
    assert!(first.before(second) && !second.before(first));
    assert!(first.until(second) && first.until(first));
    assert_eq!(second.since(first), 1_000_000);
    assert_eq!(first.whole_seconds(), -1);
    assert_eq!(first.earlier(second), first);
}

#[test]
fn the_calendar_ends_where_chrono_ends() {
    let last = chrono::DateTime::<chrono::Utc>::MAX_UTC.timestamp();
    let first = chrono::DateTime::<chrono::Utc>::MIN_UTC.timestamp();
    assert!(Timestamp::from_seconds(last).is_some() && Timestamp::new(last, 999_999_999).is_some());
    assert!(Timestamp::from_seconds(last + 1).is_none() && Timestamp::new(last + 1, 0).is_none());
    assert!(Timestamp::from_seconds(first).is_some() && Timestamp::new(first, 0).is_some());
    assert!(Timestamp::from_seconds(first - 1).is_none() && Timestamp::new(first - 1, 0).is_none());
}

#[test]
fn numbers_are_written_out() {
    assert_eq!(write_natural(0), "0");
    assert_eq!(write_natural(u128::MAX), u128::MAX.to_string());
    assert_eq!(write_integer(i64::MIN), i64::MIN.to_string());
    assert_eq!(write_hex(0xbeef, 6), "00beef");
    assert_eq!(write_id(0x0123_4567_89ab_cdef_0123_4567_89ab_cdef), "01234567-89ab-cdef-0123-456789abcdef");
    assert_eq!(write_bool(true), "true");
    assert_eq!(join(&vec!["a".to_owned(), "b".to_owned()], ", "), "a, b");
    assert_eq!(
        ContentHash { high: 0, low: 1 }.to_text(),
        format!("blake3:{}1", "0".repeat(63))
    );
}

#[test]
fn texts_are_ordered_like_strings() {
    for left in ["", "a", "ab", "b", "\u{e9}", "\u{1f600}"] {
        for right in ["", "a", "ab", "b", "\u{e9}", "\u{1f600}"] {
            assert_eq!(text_before(left, right), left < right);
        }
    }
    let names = vec![Ident::new("a"), Ident::new("a"), Ident::new("b"), Ident::new("a")];
    assert_eq!(
        drop_repeats(&names).iter().map(|id| id.text.as_str()).collect::<Vec<_>>(),
        vec!["a", "b", "a"]
    );
    assert_eq!(drop_equal_neighbours(&vec![1, 1, 2, 2, 1]), vec![1, 2, 1]);
}
