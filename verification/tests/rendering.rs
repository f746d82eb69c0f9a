use iso_20022_sdk::decimal::Decimal;
use iso_20022_sdk::render::number_text;
use iso_20022_sdk::render::render_decimal;
use iso_20022_sdk::render::render_path;
use iso_20022_sdk::violation::PathSegment;

fn decimal(mantissa: i64, scale: u8) -> Decimal {
    Decimal::new(mantissa, scale).expect("scale within range")
}

#[test]
fn numbers_are_written_without_leading_zeros() {
    assert_eq!(number_text(0), "0");
    assert_eq!(number_text(7), "7");
    assert_eq!(number_text(10), "10");
    assert_eq!(number_text(1203), "1203");
    assert_eq!(number_text(u64::MAX), "18446744073709551615");
}

#[test]
fn path_is_written_with_dots_and_brackets() {
    let path = vec![
        PathSegment::Field("Document".to_string()),
        PathSegment::Field("Itm".to_string()),
        PathSegment::Index(2),
        PathSegment::Field("Id".to_string()),
    ];
    assert_eq!(render_path(&path), "Document.Itm[2].Id");
    assert_eq!(render_path(&vec![]), "");
    assert_eq!(render_path(&vec![PathSegment::Index(0)]), "[0]");
    assert_eq!(
        render_path(&vec![
            PathSegment::Field("a".to_string()),
            PathSegment::Index(10),
            PathSegment::Index(11)
        ]),
        "a[10][11]"
    );
}

#[test]
fn decimals_are_written_with_their_point() {
    assert_eq!(render_decimal(&Decimal::whole(7)), "7");
    assert_eq!(render_decimal(&Decimal::whole(0)), "0");
    assert_eq!(render_decimal(&Decimal::whole(-31)), "-31");
    assert_eq!(render_decimal(&decimal(1050, 2)), "10.50");
    assert_eq!(render_decimal(&decimal(-1050, 2)), "-10.50");
    assert_eq!(render_decimal(&decimal(5, 3)), "0.005");
    assert_eq!(render_decimal(&decimal(-5, 3)), "-0.005");
    assert_eq!(render_decimal(&decimal(0, 2)), "0.00");
    assert_eq!(render_decimal(&decimal(123, 3)), "0.123");
    assert_eq!(render_decimal(&decimal(1, 18)), "0.000000000000000001");
}

#[test]
fn decimals_at_the_limits_of_the_type_are_written_in_full() {
    assert_eq!(render_decimal(&Decimal::whole(i64::MIN)), "-9223372036854775808");
    assert_eq!(render_decimal(&Decimal::whole(i64::MAX)), "9223372036854775807");
    assert_eq!(render_decimal(&decimal(i64::MIN, 18)), "-9.223372036854775808");
}
