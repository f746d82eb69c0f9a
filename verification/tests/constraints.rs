use iso_20022_sdk::constraint::check_length;
use iso_20022_sdk::constraint::check_pattern;
use iso_20022_sdk::constraint::check_range;
use iso_20022_sdk::constraint::count_within;
use iso_20022_sdk::constraint::ConstraintSpec;
use iso_20022_sdk::constraint::ScalarValue;
use iso_20022_sdk::decimal::power_of_ten;
use iso_20022_sdk::decimal::Decimal;
use iso_20022_sdk::pattern::CompiledPattern;
use iso_20022_sdk::pattern::PatternRegistry;
use iso_20022_sdk::violation::StructuralFault;
use iso_20022_sdk::violation::Violation;
use iso_20022_sdk::violation::ViolationKind;

fn pattern(source: &str) -> CompiledPattern {
    match CompiledPattern::compile(source) {
        Ok(compiled) => compiled,
        Err(error) => panic!("pattern {} rejected: {}", error.pattern, error.message),
    }
}

#[test]
fn length_within_both_bounds_passes() {
    assert_eq!(check_length("abc", Some(1), Some(3)), Ok(()));
    assert_eq!(check_length("a", Some(1), Some(3)), Ok(()));
}

#[test]
fn length_below_minimum_fails_with_detail() {
    assert_eq!(
        check_length("", Some(1), Some(35)),
        Err(Violation::Length { actual: 0, min: Some(1), max: Some(35) })
    );
}

#[test]
fn length_above_maximum_fails_with_detail() {
    assert_eq!(
        check_length("abcd", None, Some(3)),
        Err(Violation::Length { actual: 4, min: None, max: Some(3) })
    );
}

#[test]
fn length_without_bounds_always_passes() {
    assert_eq!(check_length("", None, None), Ok(()));
    assert_eq!(check_length("any text at all", None, None), Ok(()));
}

#[test]
fn length_counts_scalar_values_not_bytes() {
    let text = "日本語";
    assert_eq!(text.len(), 9);
    assert_eq!(check_length(text, Some(3), Some(3)), Ok(()));
    assert_eq!(
        check_length(text, None, Some(2)),
        Err(Violation::Length { actual: 3, min: None, max: Some(2) })
    );
    assert_eq!(check_length("héé", None, Some(3)), Ok(()));
}

#[test]
fn length_with_minimum_above_maximum_never_passes() {
    assert!(check_length("ab", Some(3), Some(1)).is_err());
}

#[test]
fn count_within_agrees_with_bounds() {
    assert!(count_within(0, None, None));
    assert!(count_within(5, Some(5), Some(5)));
    assert!(!count_within(4, Some(5), None));
    assert!(!count_within(6, None, Some(5)));
}

fn whole(value: i64) -> Decimal {
    Decimal::whole(value)
}

fn decimal(mantissa: i64, scale: u8) -> Decimal {
    Decimal::new(mantissa, scale).expect("scale within range")
}

#[test]
fn range_within_bounds_passes() {
    assert_eq!(check_range(whole(1), Some(whole(1)), Some(whole(31))), Ok(()));
    assert_eq!(check_range(whole(31), Some(whole(1)), Some(whole(31))), Ok(()));
    assert_eq!(check_range(whole(-7), None, None), Ok(()));
}

#[test]
fn range_outside_bounds_fails_with_detail() {
    assert_eq!(
        check_range(whole(0), Some(whole(1)), Some(whole(31))),
        Err(Violation::Range { actual: whole(0), min: Some(whole(1)), max: Some(whole(31)) })
    );
    assert_eq!(
        check_range(whole(32), Some(whole(1)), Some(whole(31))),
        Err(Violation::Range { actual: whole(32), min: Some(whole(1)), max: Some(whole(31)) })
    );
    assert_eq!(
        check_range(whole(-1), Some(whole(0)), None),
        Err(Violation::Range { actual: whole(-1), min: Some(whole(0)), max: None })
    );
}

#[test]
fn range_at_the_limits_of_the_type() {
    assert_eq!(check_range(whole(i64::MIN), Some(whole(i64::MIN)), Some(whole(i64::MAX))), Ok(()));
    assert_eq!(check_range(whole(i64::MAX), None, Some(whole(i64::MAX))), Ok(()));
    assert!(check_range(whole(i64::MIN), Some(whole(i64::MIN + 1)), None).is_err());
    let smallest = decimal(i64::MIN, 18);
    let largest = decimal(i64::MAX, 0);
    assert_eq!(check_range(smallest, Some(smallest), Some(largest)), Ok(()));
    assert!(check_range(largest, None, Some(decimal(i64::MAX, 18))).is_err());
}

#[test]
fn range_compares_fractions_exactly() {
    assert_eq!(check_range(decimal(1050, 2), Some(whole(0)), Some(decimal(105, 1))), Ok(()));
    assert!(check_range(decimal(1051, 2), None, Some(decimal(105, 1))).is_err());
    assert_eq!(check_range(decimal(-1, 18), None, Some(whole(0))), Ok(()));
    assert_eq!(
        check_range(decimal(-1, 18), Some(whole(0)), None),
        Err(Violation::Range { actual: decimal(-1, 18), min: Some(whole(0)), max: None })
    );
    assert_eq!(check_range(decimal(3100, 2), Some(whole(1)), Some(whole(31))), Ok(()));
    assert!(check_range(decimal(3101, 2), Some(whole(1)), Some(whole(31))).is_err());
}

#[test]
fn decimal_keeps_its_digits_and_scale() {
    let amount = decimal(12345, 2);
    assert_eq!(amount.mantissa(), 12345);
    assert_eq!(amount.scale(), 2);
    assert_eq!(whole(7).mantissa(), 7);
    assert_eq!(whole(7).scale(), 0);
    assert_eq!(Decimal::new(1, 18).map(|number| number.scale()), Some(18));
    assert_eq!(Decimal::new(1, 19), None);
    assert_eq!(Decimal::default(), whole(0));
}

#[test]
fn decimal_order_is_numeric() {
    assert!(decimal(10, 1).le(&whole(1)));
    assert!(whole(1).le(&decimal(10, 1)));
    assert!(decimal(99, 2).le(&whole(1)));
    assert!(!whole(1).le(&decimal(99, 2)));
    assert!(whole(-2).le(&decimal(-15, 1)));
    assert!(!decimal(-15, 1).le(&whole(-2)));
}

#[test]
fn powers_of_ten_are_exact() {
    assert_eq!(power_of_ten(0), 1);
    assert_eq!(power_of_ten(1), 10);
    assert_eq!(power_of_ten(5), 100_000);
    assert_eq!(power_of_ten(18), 1_000_000_000_000_000_000);
}

#[test]
fn pattern_match_is_full_string() {
    let compiled = pattern("[A-Z]{2}[0-9]");
    assert_eq!(check_pattern("AB1", &compiled), Ok(()));
    assert_eq!(
        check_pattern("XAB1Y", &compiled),
        Err(Violation::Pattern {
            actual: "XAB1Y".to_string(),
            pattern: "[A-Z]{2}[0-9]".to_string()
        })
    );
    assert!(check_pattern("AB1Y", &compiled).is_err());
    assert!(check_pattern("XAB1", &compiled).is_err());
}

#[test]
fn pattern_alternation_is_anchored_as_a_whole() {
    let compiled = pattern("a|ab");
    assert_eq!(check_pattern("a", &compiled), Ok(()));
    assert_eq!(check_pattern("ab", &compiled), Ok(()));
    assert!(check_pattern("abc", &compiled).is_err());
    assert!(check_pattern("ba", &compiled).is_err());
}

#[test]
fn pattern_does_not_match_across_a_trailing_line_break() {
    let compiled = pattern("[A-Z]{2,2}");
    assert_eq!(check_pattern("DE", &compiled), Ok(()));
    assert!(check_pattern("DE\n", &compiled).is_err());
    assert!(check_pattern("de", &compiled).is_err());
}

#[test]
fn compiled_pattern_keeps_its_source() {
    let compiled = pattern("[A-Z0-9]{4,4}");
    assert_eq!(compiled.source(), "[A-Z0-9]{4,4}");
    let copy = compiled.duplicate();
    assert_eq!(copy.source(), "[A-Z0-9]{4,4}");
    assert!(copy.is_full_match("AB12"));
    assert!(!copy.is_full_match("AB123"));
}

#[test]
fn invalid_pattern_is_rejected() {
    match CompiledPattern::compile("foo(bar") {
        Ok(_) => panic!("an unclosed group was accepted"),
        Err(error) => {
            assert_eq!(error.pattern, "foo(bar");
            assert!(!error.message.is_empty());
        }
    }
}

#[test]
fn pattern_that_is_valid_only_when_wrapped_is_rejected() {
    assert!(CompiledPattern::compile("a)(b").is_err());
}

#[test]
fn registry_compiles_each_pattern_once() {
    let mut registry = PatternRegistry::new();
    assert_eq!(registry.len(), 0);
    assert!(!registry.contains("[A-Z]{2,2}"));
    let first = registry.get_or_compile("[A-Z]{2,2}").expect("valid pattern");
    assert_eq!(registry.len(), 1);
    assert!(registry.contains("[A-Z]{2,2}"));
    let second = registry.get_or_compile("[A-Z]{2,2}").expect("valid pattern");
    assert_eq!(registry.len(), 1);
    assert_eq!(first.source(), second.source());
    assert!(second.is_full_match("DE"));
    assert!(!second.is_full_match("DEU"));
    registry.get_or_compile("[0-9]{3,3}").expect("valid pattern");
    assert_eq!(registry.len(), 2);
    assert!(registry.contains("[0-9]{3,3}"));
}

#[test]
fn registry_rejects_invalid_pattern_and_stays_unchanged() {
    let mut registry = PatternRegistry::new();
    registry.get_or_compile("[a-z]+").expect("valid pattern");
    let rejected = registry.get_or_compile("[a-z");
    match rejected {
        Ok(_) => panic!("an unclosed class was accepted"),
        Err(error) => assert_eq!(error.pattern, "[a-z"),
    }
    assert_eq!(registry.len(), 1);
    assert!(!registry.contains("[a-z"));
}

#[test]
fn evaluate_applies_each_kind_to_its_value() {
    let text = ScalarValue::Text("abc".to_string());
    let number = ScalarValue::Number(whole(5));
    assert_eq!(ConstraintSpec::MinLength(3).evaluate(&text), None);
    assert_eq!(
        ConstraintSpec::MinLength(4).evaluate(&text),
        Some(Violation::Length { actual: 3, min: Some(4), max: None })
    );
    assert_eq!(ConstraintSpec::MaxLength(3).evaluate(&text), None);
    assert_eq!(
        ConstraintSpec::MaxLength(2).evaluate(&text),
        Some(Violation::Length { actual: 3, min: None, max: Some(2) })
    );
    assert_eq!(ConstraintSpec::MinValue(whole(5)).evaluate(&number), None);
    assert_eq!(
        ConstraintSpec::MinValue(whole(6)).evaluate(&number),
        Some(Violation::Range { actual: whole(5), min: Some(whole(6)), max: None })
    );
    assert_eq!(ConstraintSpec::MaxValue(whole(5)).evaluate(&number), None);
    assert_eq!(
        ConstraintSpec::MaxValue(whole(4)).evaluate(&number),
        Some(Violation::Range { actual: whole(5), min: None, max: Some(whole(4)) })
    );
    assert_eq!(ConstraintSpec::Pattern(pattern("[a-c]+")).evaluate(&text), None);
    assert_eq!(
        ConstraintSpec::Pattern(pattern("[a-b]+")).evaluate(&text),
        Some(Violation::Pattern { actual: "abc".to_string(), pattern: "[a-b]+".to_string() })
    );
}

#[test]
fn evaluate_reports_a_constraint_on_the_wrong_kind_of_value() {
    let text = ScalarValue::Text("abc".to_string());
    let number = ScalarValue::Number(whole(5));
    let mismatch = Some(Violation::Structure(StructuralFault::KindMismatch));
    assert_eq!(ConstraintSpec::MinLength(1).evaluate(&number), mismatch);
    assert_eq!(ConstraintSpec::MaxLength(1).evaluate(&number), mismatch);
    assert_eq!(ConstraintSpec::MinValue(whole(1)).evaluate(&text), mismatch);
    assert_eq!(ConstraintSpec::MaxValue(whole(1)).evaluate(&text), mismatch);
    assert_eq!(ConstraintSpec::Pattern(pattern("5")).evaluate(&number), mismatch);
}

#[test]
fn violations_name_their_kind_and_message() {
    let length = Violation::Length { actual: 0, min: Some(1), max: None };
    assert_eq!(length.kind(), ViolationKind::Length);
    assert_eq!(length.message(), "length is outside the declared bounds");
    let range = Violation::Range { actual: whole(0), min: Some(whole(1)), max: None };
    assert_eq!(range.kind(), ViolationKind::Range);
    assert_eq!(range.message(), "number is outside the declared bounds");
    let pattern = Violation::Pattern { actual: "x".to_string(), pattern: "y".to_string() };
    assert_eq!(pattern.kind(), ViolationKind::Pattern);
    assert_eq!(pattern.message(), "value does not match the declared pattern");
    assert_eq!(Violation::MissingField.kind(), ViolationKind::MissingField);
    assert_eq!(Violation::MissingField.message(), "mandatory field is absent");
    let structure = Violation::Structure(StructuralFault::MissingChoice);
    assert_eq!(structure.kind(), ViolationKind::Structure);
    assert_eq!(structure.message(), "document structure is malformed");
}
