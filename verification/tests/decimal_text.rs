use voxelweaver::decimal::Decimal;
use voxelweaver::text::{join3, join5, join7, nat_to_string, str_eq, usize_to_string};

#[test]
fn numerals_of_naturals() {
    assert_eq!(nat_to_string(0), "0");
    assert_eq!(nat_to_string(7), "7");
    assert_eq!(nat_to_string(10), "10");
    assert_eq!(nat_to_string(905), "905");
    assert_eq!(nat_to_string(18_446_744_073_709_551_615), "18446744073709551615");
    assert_eq!(
        nat_to_string(340_282_366_920_938_463_463_374_607_431_768_211_455),
        "340282366920938463463374607431768211455"
    );
    assert_eq!(usize_to_string(42), "42");
}

#[test]
fn strings_compare_by_their_characters() {
    assert!(str_eq("", ""));
    assert!(str_eq("Terrain", "Terrain"));
    assert!(!str_eq("Terrain", "terrain"));
    assert!(!str_eq("Terrain", "Terrai"));
    assert!(str_eq("hö", "hö"));
    assert!(!str_eq("hö", "ho"));
}

#[test]
fn pieces_are_joined_in_order() {
    assert_eq!(join3("a", "b", "c"), "abc");
    assert_eq!(join5("1", "", "2", "3", "4"), "1234");
    assert_eq!(join7("a", "b", "c", "d", "e", "f", "g"), "abcdefg");
}

#[test]
fn literal_spelling_always_has_a_fraction() {
    assert_eq!(Decimal::from_micros(0).to_literal(), "0.0");
    assert_eq!(Decimal::from_int(1).to_literal(), "1.0");
    assert_eq!(Decimal::from_int(-3).to_literal(), "-3.0");
    assert_eq!(Decimal::from_micros(1_500_000).to_literal(), "1.5");
    assert_eq!(Decimal::from_micros(250_000).to_literal(), "0.25");
    assert_eq!(Decimal::from_micros(50_000).to_literal(), "0.05");
    assert_eq!(Decimal::from_micros(-250_000).to_literal(), "-0.25");
    assert_eq!(Decimal::from_micros(1).to_literal(), "0.000001");
    assert_eq!(Decimal::from_micros(2_718_282).to_literal(), "2.718282");
    assert_eq!(Decimal::from_micros(10_000_100).to_literal(), "10.0001");
    assert_eq!(Decimal::from_micros(i64::MAX).to_literal(), "9223372036854.775807");
    assert_eq!(Decimal::from_micros(i64::MIN).to_literal(), "-9223372036854.775808");
}

#[test]
fn plain_spelling_drops_an_empty_fraction() {
    assert_eq!(Decimal::from_micros(0).to_plain(), "0");
    assert_eq!(Decimal::from_int(1).to_plain(), "1");
    assert_eq!(Decimal::from_int(-12).to_plain(), "-12");
    assert_eq!(Decimal::from_micros(500_000).to_plain(), "0.5");
    assert_eq!(Decimal::from_micros(-99_999_500_000).to_plain(), "-99999.5");
    assert_eq!(Decimal::from_micros(2_000).to_plain(), "0.002");
}

#[test]
fn whole_numbers_and_halves() {
    assert_eq!(Decimal::from_int(5).micros, 5_000_000);
    assert_eq!(Decimal::from_int(i32::MIN).micros, -2_147_483_648_000_000);
    assert_eq!(Decimal::from_halves(5, -1).micros, 4_500_000);
    assert_eq!(Decimal::from_halves(5, 1).micros, 5_500_000);
    assert_eq!(Decimal::from_halves(-99999, -1).to_plain(), "-99999.5");
    assert_eq!(Decimal::from_halves(i32::MAX, 1).to_plain(), "2147483647.5");
}

#[test]
fn floor_of_a_number() {
    let floor = Decimal::from_micros(10_000);
    assert_eq!(Decimal::from_micros(0).at_least(floor).micros, 10_000);
    assert_eq!(Decimal::from_micros(-5).at_least(floor).micros, 10_000);
    assert_eq!(Decimal::from_micros(10_000).at_least(floor).micros, 10_000);
    assert_eq!(Decimal::from_micros(3_000_000).at_least(floor).micros, 3_000_000);
}

#[test]
fn reciprocal_rounds_toward_zero_and_is_finite() {
    assert_eq!(Decimal::from_int(500).reciprocal().micros, 2_000);
    assert_eq!(Decimal::from_int(1).reciprocal().micros, 1_000_000);
    assert_eq!(Decimal::from_int(3).reciprocal().micros, 333_333);
    assert_eq!(Decimal::from_int(-2).reciprocal().micros, -500_000);
    assert_eq!(Decimal::from_int(-3).reciprocal().micros, -333_333);
    assert_eq!(Decimal::from_micros(0).reciprocal().micros, 1_000_000_000_000);
    assert_eq!(Decimal::from_micros(1).reciprocal().micros, 1_000_000_000_000);
    assert_eq!(Decimal::from_micros(i64::MAX).reciprocal().micros, 0);
    assert_eq!(Decimal::from_micros(i64::MIN).reciprocal().micros, 0);
}
