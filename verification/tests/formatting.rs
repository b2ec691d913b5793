use backfat::currency::Currency;
use backfat::format::{format_column, parse_decimal, TypeOfItem};
use backfat::geometry::Color;

const BLACK: Color = Color { r: 0, g: 0, b: 0 };
const ALERT: Color = Color { r: 1000, g: 0, b: 0 };
const WARNING: Color = Color { r: 500, g: 300, b: 500 };

fn currency(text: &str, precision: usize) -> (String, Color) {
    format_column(
        &TypeOfItem::Currency(precision),
        &text.to_owned(),
        BLACK,
        false,
    )
}

fn number(text: &str, precision: usize) -> (String, Color) {
    format_column(&TypeOfItem::Number(precision), &text.to_owned(), BLACK, false)
}

#[test]
fn currency_formats_negatives_in_parentheses_and_alert_color() {
    let (text, color) = currency("-12.5", 2);
    assert_eq!(text, "($12.50)");
    assert_eq!(color, ALERT);
}

#[test]
fn currency_renders_unparseable_text_as_nan_in_warning_color() {
    let (text, color) = currency("abc", 2);
    assert_eq!(text, "NAN");
    assert_eq!(color, WARNING);
}

#[test]
fn currency_formats_positive_values_with_dollar_sign() {
    let (text, color) = currency("2032.9", 2);
    assert_eq!(text, "$2032.90");
    assert_eq!(color, BLACK);
    assert_eq!(currency("12", 2).0, "$12.00");
    assert_eq!(currency(".5", 2).0, "$0.50");
    assert_eq!(currency("7.", 2).0, "$7.00");
}

#[test]
fn number_formats_fixed_precision() {
    assert_eq!(number("2032.90", 2).0, "2032.90");
    assert_eq!(number("3", 0).0, "3");
    let (text, color) = number("-1.25", 1);
    assert_eq!(text, "-1.3");
    assert_eq!(color, ALERT);
}

#[test]
fn rounding_is_half_away_from_zero_and_carries() {
    assert_eq!(number("0.96", 1).0, "1.0");
    assert_eq!(number("9.99", 1).0, "10.0");
    assert_eq!(number("2.5", 0).0, "3");
    assert_eq!(number("0.04", 1).0, "0.0");
}

#[test]
fn minus_zero_is_not_negative() {
    let (text, color) = currency("-0.0", 2);
    assert_eq!(text, "$0.00");
    assert_eq!(color, BLACK);
}

#[test]
fn non_decimal_grammar_is_rejected() {
    for bad in ["", "-", ".", "1.2.3", "--1", "1e5", "1 2", "+5"] {
        assert!(parse_decimal(bad).is_none(), "{bad:?} should not parse");
        assert_eq!(number(bad, 2).0, "NAN");
    }
}

#[test]
fn decimal_grammar_accepts_plain_forms() {
    let pd = parse_decimal("-12.5").unwrap();
    assert!(pd.neg);
    assert_eq!(pd.int_val, 12);
    assert_eq!(pd.frac_val, 5);
    assert_eq!(pd.frac_len, 1);
    assert!(parse_decimal("0").is_some());
    assert!(parse_decimal(".25").is_some());
    assert!(parse_decimal("123456789012345678").is_some());
    assert!(parse_decimal("1234567890123456789").is_none());
}

#[test]
fn header_cells_are_never_reformatted() {
    let (text, color) = format_column(
        &TypeOfItem::Currency(2),
        &"Invoice Amount".to_owned(),
        BLACK,
        true,
    );
    assert_eq!(text, "Invoice Amount");
    assert_eq!(color, BLACK);
}

#[test]
fn string_columns_pass_text_through() {
    let (text, color) = format_column(&TypeOfItem::String, &"abc".to_owned(), BLACK, false);
    assert_eq!(text, "abc");
    assert_eq!(color, BLACK);
}

#[test]
fn currency_groups_dollars_with_commas() {
    let c = Currency::new(123456789);
    assert_eq!(c.value, "1,234,567.89");
    assert!(!c.is_neg);
}

#[test]
fn currency_negative_amounts_carry_their_sign() {
    let c = Currency::new(-1234550);
    assert_eq!(c.value, "-12,345.50");
    assert!(c.is_neg);
}

#[test]
fn currency_small_amounts_have_no_separator() {
    assert_eq!(Currency::new(0).value, "0.00");
    assert_eq!(Currency::new(7).value, "0.07");
    assert_eq!(Currency::new(99999).value, "999.99");
    assert_eq!(Currency::new(100000).value, "1,000.00");
}
