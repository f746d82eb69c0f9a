use iso_20022_sdk::choice::check_all;
use iso_20022_sdk::choice::decode;
use iso_20022_sdk::choice::encode;
use iso_20022_sdk::choice::encode_into;
use iso_20022_sdk::choice::AlternativeSpec;
use iso_20022_sdk::choice::ChoiceSchema;
use iso_20022_sdk::choice::ChoiceValue;
use iso_20022_sdk::choice::DecodeError;
use iso_20022_sdk::choice::EncodeError;
use iso_20022_sdk::choice::FlatEntry;
use iso_20022_sdk::choice::FlatMapping;
use iso_20022_sdk::constraint::ConstraintSpec;
use iso_20022_sdk::pattern::CompiledPattern;
use iso_20022_sdk::violation::Violation;

fn country_schema(mandatory: bool) -> ChoiceSchema {
    let code = CompiledPattern::compile("[A-Z]{2,2}").expect("valid pattern");
    ChoiceSchema {
        alternatives: vec![
            AlternativeSpec { name: "Cd".to_string(), constraints: vec![ConstraintSpec::Pattern(code)] },
            AlternativeSpec {
                name: "Prtry".to_string(),
                constraints: vec![ConstraintSpec::MinLength(1), ConstraintSpec::MaxLength(35)],
            },
        ],
        mandatory,
    }
}

fn mapping(entries: &[(&str, &str)]) -> FlatMapping {
    let mut flat = FlatMapping::new();
    for (name, value) in entries {
        flat.insert(name, value);
    }
    flat
}

fn selected(name: &str, value: &str) -> ChoiceValue {
    ChoiceValue::Selected { name: name.to_string(), value: value.to_string() }
}

#[test]
fn country_code_decodes_to_its_alternative() {
    let decoded = decode(&country_schema(true), &mapping(&[("Cd", "DE")]));
    assert_eq!(decoded, Ok(selected("Cd", "DE")));
}

#[test]
fn two_alternatives_decode_to_an_ambiguity_error() {
    let decoded = decode(&country_schema(true), &mapping(&[("Cd", "DE"), ("Prtry", "X")]));
    assert_eq!(
        decoded,
        Err(DecodeError::AmbiguousChoice {
            present_keys: vec!["Cd".to_string(), "Prtry".to_string()],
        })
    );
}

#[test]
fn ambiguity_lists_keys_in_declaration_order() {
    let decoded = decode(&country_schema(false), &mapping(&[("Prtry", "X"), ("Cd", "DE")]));
    assert_eq!(
        decoded,
        Err(DecodeError::AmbiguousChoice {
            present_keys: vec!["Cd".to_string(), "Prtry".to_string()],
        })
    );
}

#[test]
fn missing_mandatory_choice_is_an_error() {
    assert_eq!(decode(&country_schema(true), &mapping(&[])), Err(DecodeError::MissingChoice));
    assert_eq!(
        decode(&country_schema(true), &mapping(&[("Other", "1")])),
        Err(DecodeError::MissingChoice)
    );
}

#[test]
fn missing_optional_choice_decodes_to_absent() {
    assert_eq!(decode(&country_schema(false), &mapping(&[])), Ok(ChoiceValue::Absent));
}

#[test]
fn sibling_keys_are_left_alone() {
    let flat = mapping(&[("Nm", "Name"), ("Prtry", "own"), ("Id", "7")]);
    assert_eq!(decode(&country_schema(true), &flat), Ok(selected("Prtry", "own")));
}

#[test]
fn nested_violation_names_the_alternative() {
    let decoded = decode(&country_schema(true), &mapping(&[("Cd", "de")]));
    assert_eq!(
        decoded,
        Err(DecodeError::Nested {
            alternative: "Cd".to_string(),
            violation: Violation::Pattern {
                actual: "de".to_string(),
                pattern: "[A-Z]{2,2}".to_string(),
            },
        })
    );
    let decoded = decode(&country_schema(true), &mapping(&[("Prtry", "")]));
    assert_eq!(
        decoded,
        Err(DecodeError::Nested {
            alternative: "Prtry".to_string(),
            violation: Violation::Length { actual: 0, min: Some(1), max: None },
        })
    );
}

#[test]
fn first_entry_of_a_repeated_key_counts() {
    let flat = mapping(&[("Cd", "DE"), ("Cd", "FR")]);
    assert_eq!(flat.get("Cd"), Some(&"DE".to_string()));
    assert_eq!(flat.get("Prtry"), None);
    assert_eq!(decode(&country_schema(true), &flat), Ok(selected("Cd", "DE")));
}

#[test]
fn encode_emits_one_entry_for_the_populated_alternative() {
    let flat = encode(&country_schema(true), &selected("Cd", "DE")).expect("known alternative");
    assert_eq!(
        flat.entries,
        vec![FlatEntry { name: "Cd".to_string(), value: "DE".to_string() }]
    );
}

#[test]
fn encode_emits_nothing_for_an_absent_optional_choice() {
    let flat = encode(&country_schema(false), &ChoiceValue::Absent).expect("optional choice");
    assert_eq!(flat.entries, vec![]);
}

#[test]
fn encode_refuses_an_absent_mandatory_choice() {
    assert_eq!(
        encode(&country_schema(true), &ChoiceValue::Absent),
        Err(EncodeError::MissingChoice)
    );
}

#[test]
fn encode_refuses_an_unknown_alternative() {
    assert_eq!(
        encode(&country_schema(true), &selected("Other", "1")),
        Err(EncodeError::UnknownAlternative)
    );
}

#[test]
fn decode_after_encode_returns_the_choice() {
    let schema = country_schema(true);
    for choice in [selected("Cd", "DE"), selected("Prtry", "own code")] {
        let flat = encode(&schema, &choice).expect("known alternative");
        assert_eq!(decode(&schema, &flat), Ok(choice));
    }
    let optional = country_schema(false);
    let flat = encode(&optional, &ChoiceValue::Absent).expect("optional choice");
    assert_eq!(decode(&optional, &flat), Ok(ChoiceValue::Absent));
}

#[test]
fn check_all_returns_the_first_violation() {
    let constraints = vec![
        ConstraintSpec::MinLength(1),
        ConstraintSpec::MaxLength(2),
        ConstraintSpec::MaxLength(1),
    ];
    assert_eq!(check_all(&constraints, "ab"), Some(Violation::Length { actual: 2, min: None, max: Some(1) }));
    assert_eq!(
        check_all(&constraints, "abc"),
        Some(Violation::Length { actual: 3, min: None, max: Some(2) })
    );
    assert_eq!(check_all(&constraints, "a"), None);
    assert_eq!(check_all(&vec![], "anything"), None);
}

#[test]
fn schema_knows_whether_its_keys_are_distinct() {
    assert!(country_schema(true).has_distinct_keys());
    let mut repeated = country_schema(true);
    repeated.alternatives.push(AlternativeSpec { name: "Cd".to_string(), constraints: vec![] });
    assert!(!repeated.has_distinct_keys());
    let empty = ChoiceSchema { alternatives: vec![], mandatory: false };
    assert!(empty.has_distinct_keys());
}

#[test]
fn repeated_key_in_a_schema_makes_its_alternative_ambiguous() {
    let mut repeated = country_schema(true);
    repeated.alternatives.push(AlternativeSpec { name: "Cd".to_string(), constraints: vec![] });
    assert_eq!(
        decode(&repeated, &mapping(&[("Cd", "DE")])),
        Err(DecodeError::AmbiguousChoice { present_keys: vec!["Cd".to_string(), "Cd".to_string()] })
    );
}

#[test]
fn schema_admits_conforming_choices_only() {
    let schema = country_schema(true);
    assert!(schema.admits_choice(&selected("Cd", "DE")));
    assert!(!schema.admits_choice(&selected("Cd", "de")));
    assert!(!schema.admits_choice(&selected("Other", "DE")));
    assert!(!schema.admits_choice(&ChoiceValue::Absent));
    assert!(country_schema(false).admits_choice(&ChoiceValue::Absent));
}

#[test]
fn choice_that_is_not_admitted_does_not_survive_the_round_trip() {
    let schema = country_schema(true);
    let choice = selected("Cd", "de");
    let flat = encode(&schema, &choice).expect("known alternative");
    assert!(matches!(decode(&schema, &flat), Err(DecodeError::Nested { .. })));
}

#[test]
fn choice_is_encoded_among_the_fields_of_its_parent() {
    let schema = country_schema(true);
    let mut parent = mapping(&[("Nm", "Name"), ("Id", "7")]);
    assert_eq!(encode_into(&schema, &selected("Cd", "DE"), &mut parent), Ok(()));
    assert_eq!(parent, mapping(&[("Nm", "Name"), ("Id", "7"), ("Cd", "DE")]));
    assert_eq!(decode(&schema, &parent), Ok(selected("Cd", "DE")));
    let optional = country_schema(false);
    assert_eq!(encode_into(&optional, &ChoiceValue::Absent, &mut parent), Ok(()));
    assert_eq!(parent.entries.len(), 3);
}

#[test]
fn parent_is_untouched_where_the_choice_cannot_be_encoded() {
    let schema = country_schema(true);
    let mut parent = mapping(&[("Nm", "Name")]);
    assert_eq!(
        encode_into(&schema, &selected("Other", "1"), &mut parent),
        Err(EncodeError::UnknownAlternative)
    );
    assert_eq!(
        encode_into(&schema, &ChoiceValue::Absent, &mut parent),
        Err(EncodeError::MissingChoice)
    );
    assert_eq!(parent, mapping(&[("Nm", "Name")]));
}
