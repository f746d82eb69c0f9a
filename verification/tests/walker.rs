use iso_20022_sdk::constraint::ConstraintSpec;
use iso_20022_sdk::constraint::ScalarValue;
use iso_20022_sdk::decimal::Decimal;
use iso_20022_sdk::pattern::CompiledPattern;
use iso_20022_sdk::tree::validate;
use iso_20022_sdk::tree::Alternative;
use iso_20022_sdk::tree::DocumentTree;
use iso_20022_sdk::tree::Field;
use iso_20022_sdk::violation::copy_path;
use iso_20022_sdk::violation::extend_path;
use iso_20022_sdk::violation::PathSegment;
use iso_20022_sdk::violation::StructuralFault;
use iso_20022_sdk::violation::ValidationViolation;
use iso_20022_sdk::violation::Violation;

fn text(value: &str, constraints: Vec<ConstraintSpec>) -> DocumentTree {
    DocumentTree::Scalar { value: ScalarValue::Text(value.to_string()), constraints }
}

fn field(name: &str, node: DocumentTree) -> Field {
    Field { name: name.to_string(), node }
}

fn named(name: &str) -> PathSegment {
    PathSegment::Field(name.to_string())
}

fn lei(value: &str) -> DocumentTree {
    let pattern = CompiledPattern::compile("[A-Z0-9]{18}[0-9]{2}").expect("valid pattern");
    DocumentTree::Struct {
        fields: vec![field(
            "LEI",
            text(
                value,
                vec![
                    ConstraintSpec::MinLength(20),
                    ConstraintSpec::MaxLength(20),
                    ConstraintSpec::Pattern(pattern),
                ],
            ),
        )],
    }
}

#[test]
fn lei_of_twenty_characters_validates() {
    let reports = validate(&lei("5493001KJTIIGC8Y1R12"), &vec![]);
    assert_eq!(reports, vec![]);
}

#[test]
fn lei_of_nineteen_characters_fails_length_and_pattern() {
    let reports = validate(&lei("5493001KJTIIGC8Y1R1"), &vec![named("Document")]);
    let path = vec![named("Document"), named("LEI")];
    assert_eq!(
        reports,
        vec![
            ValidationViolation {
                path: path.clone(),
                violation: Violation::Length { actual: 19, min: Some(20), max: None },
            },
            ValidationViolation {
                path,
                violation: Violation::Pattern {
                    actual: "5493001KJTIIGC8Y1R1".to_string(),
                    pattern: "[A-Z0-9]{18}[0-9]{2}".to_string(),
                },
            },
        ]
    );
}

#[test]
fn lei_with_pattern_only_fails_with_pattern_violation() {
    let pattern = CompiledPattern::compile("[A-Z0-9]{18}[0-9]{2}").expect("valid pattern");
    let node = text("5493001KJTIIGC8Y1R1", vec![ConstraintSpec::Pattern(pattern)]);
    let reports = validate(&node, &vec![named("LEI")]);
    assert_eq!(reports.len(), 1);
    assert_eq!(reports[0].path, vec![named("LEI")]);
    assert_eq!(
        reports[0].violation,
        Violation::Pattern {
            actual: "5493001KJTIIGC8Y1R1".to_string(),
            pattern: "[A-Z0-9]{18}[0-9]{2}".to_string(),
        }
    );
}

fn sample_document() -> DocumentTree {
    DocumentTree::Struct {
        fields: vec![
            field("Id", text("", vec![ConstraintSpec::MinLength(1), ConstraintSpec::MaxLength(35)])),
            field("Desc", DocumentTree::Optional { mandatory: false, value: None }),
            field("CreDtTm", DocumentTree::Optional { mandatory: true, value: None }),
            field(
                "Nm",
                DocumentTree::Optional {
                    mandatory: true,
                    value: Some(Box::new(text("a name that is too long", vec![ConstraintSpec::MaxLength(5)]))),
                },
            ),
            field(
                "Amt",
                DocumentTree::List {
                    min_items: Some(1),
                    max_items: Some(2),
                    items: vec![
                        DocumentTree::Scalar {
                            value: ScalarValue::Number(Decimal::whole(5)),
                            constraints: vec![ConstraintSpec::MinValue(Decimal::whole(0))],
                        },
                        DocumentTree::Scalar {
                            value: ScalarValue::Number(Decimal::whole(-1)),
                            constraints: vec![ConstraintSpec::MinValue(Decimal::whole(0)), ConstraintSpec::MaxValue(Decimal::whole(-2))],
                        },
                        DocumentTree::Scalar {
                            value: ScalarValue::Number(Decimal::whole(7)),
                            constraints: vec![ConstraintSpec::MaxValue(Decimal::whole(6))],
                        },
                    ],
                },
            ),
        ],
    }
}

#[test]
fn walk_collects_every_violation_in_declaration_order() {
    let reports = validate(&sample_document(), &vec![]);
    assert_eq!(
        reports,
        vec![
            ValidationViolation {
                path: vec![named("Id")],
                violation: Violation::Length { actual: 0, min: Some(1), max: None },
            },
            ValidationViolation { path: vec![named("CreDtTm")], violation: Violation::MissingField },
            ValidationViolation {
                path: vec![named("Nm")],
                violation: Violation::Length { actual: 23, min: None, max: Some(5) },
            },
            ValidationViolation {
                path: vec![named("Amt")],
                violation: Violation::Length { actual: 3, min: Some(1), max: Some(2) },
            },
            ValidationViolation {
                path: vec![named("Amt"), PathSegment::Index(1)],
                violation: Violation::Range { actual: Decimal::whole(-1), min: Some(Decimal::whole(0)), max: None },
            },
            ValidationViolation {
                path: vec![named("Amt"), PathSegment::Index(1)],
                violation: Violation::Range { actual: Decimal::whole(-1), min: None, max: Some(Decimal::whole(-2)) },
            },
            ValidationViolation {
                path: vec![named("Amt"), PathSegment::Index(2)],
                violation: Violation::Range { actual: Decimal::whole(7), min: None, max: Some(Decimal::whole(6)) },
            },
        ]
    );
}

#[test]
fn walking_twice_gives_the_same_reports() {
    let document = sample_document();
    let path = vec![named("Document")];
    let first = validate(&document, &path);
    let second = validate(&document, &path);
    assert_eq!(first, second);
    assert_eq!(first.len(), 7);
}

#[test]
fn absent_mandatory_field_is_reported_exactly_once() {
    let node = DocumentTree::Optional { mandatory: true, value: None };
    let reports = validate(&node, &vec![named("Doc"), named("Id")]);
    assert_eq!(
        reports,
        vec![ValidationViolation {
            path: vec![named("Doc"), named("Id")],
            violation: Violation::MissingField,
        }]
    );
}

#[test]
fn absent_mandatory_field_is_reported_beside_other_violations() {
    let reports = validate(&sample_document(), &vec![]);
    let missing: Vec<&ValidationViolation> =
        reports.iter().filter(|report| report.violation == Violation::MissingField).collect();
    assert_eq!(missing.len(), 1);
    assert_eq!(missing[0].path, vec![named("CreDtTm")]);
    assert!(reports.len() > 1);
}

#[test]
fn absent_optional_field_is_valid() {
    let node = DocumentTree::Optional { mandatory: false, value: None };
    assert_eq!(validate(&node, &vec![]), vec![]);
}

#[test]
fn present_optional_field_is_walked_under_the_same_path() {
    let node = DocumentTree::Optional {
        mandatory: false,
        value: Some(Box::new(text("abc", vec![ConstraintSpec::MaxLength(2)]))),
    };
    let reports = validate(&node, &vec![named("Desc")]);
    assert_eq!(
        reports,
        vec![ValidationViolation {
            path: vec![named("Desc")],
            violation: Violation::Length { actual: 3, min: None, max: Some(2) },
        }]
    );
}

#[test]
fn empty_list_below_minimum_is_reported() {
    let node = DocumentTree::List { min_items: Some(1), max_items: None, items: vec![] };
    let reports = validate(&node, &vec![named("Itm")]);
    assert_eq!(
        reports,
        vec![ValidationViolation {
            path: vec![named("Itm")],
            violation: Violation::Length { actual: 0, min: Some(1), max: None },
        }]
    );
}

fn choice(optional: bool, cd: Option<&str>, prtry: Option<&str>) -> DocumentTree {
    DocumentTree::Choice {
        optional,
        alternatives: vec![
            Alternative {
                name: "Cd".to_string(),
                value: cd.map(|value| text(value, vec![ConstraintSpec::MaxLength(2)])),
            },
            Alternative {
                name: "Prtry".to_string(),
                value: prtry.map(|value| text(value, vec![ConstraintSpec::MaxLength(2)])),
            },
        ],
    }
}

#[test]
fn choice_with_one_alternative_is_walked_into() {
    assert_eq!(validate(&choice(false, Some("DE"), None), &vec![]), vec![]);
    let reports = validate(&choice(false, None, Some("long")), &vec![named("Ctry")]);
    assert_eq!(
        reports,
        vec![ValidationViolation {
            path: vec![named("Ctry"), named("Prtry")],
            violation: Violation::Length { actual: 4, min: None, max: Some(2) },
        }]
    );
}

#[test]
fn choice_with_two_alternatives_is_a_structural_violation() {
    let reports = validate(&choice(false, Some("DEU"), Some("X")), &vec![named("Ctry")]);
    assert_eq!(
        reports,
        vec![
            ValidationViolation {
                path: vec![named("Ctry")],
                violation: Violation::Structure(StructuralFault::AmbiguousChoice {
                    present: vec!["Cd".to_string(), "Prtry".to_string()],
                }),
            },
            ValidationViolation {
                path: vec![named("Ctry"), named("Cd")],
                violation: Violation::Length { actual: 3, min: None, max: Some(2) },
            },
        ]
    );
}

#[test]
fn mandatory_choice_without_alternative_is_a_structural_violation() {
    let reports = validate(&choice(false, None, None), &vec![named("Ctry")]);
    assert_eq!(
        reports,
        vec![ValidationViolation {
            path: vec![named("Ctry")],
            violation: Violation::Structure(StructuralFault::MissingChoice),
        }]
    );
    assert_eq!(validate(&choice(true, None, None), &vec![named("Ctry")]), vec![]);
}

#[test]
fn paths_are_copied_and_extended() {
    let path = vec![named("a"), PathSegment::Index(3)];
    assert_eq!(copy_path(&path), path);
    assert_eq!(path[0].duplicate(), named("a"));
    assert_eq!(
        extend_path(&path, named("b")),
        vec![named("a"), PathSegment::Index(3), named("b")]
    );
}
