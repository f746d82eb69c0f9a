use iso_20022_sdk::auth_094_001_02::CorporateSectorCriteria5;
use iso_20022_sdk::auth_094_001_02::DayOfMonthNumber;
use iso_20022_sdk::auth_094_001_02::LeiIdentifier;
use iso_20022_sdk::auth_094_001_02::NaceDomainIdentifier;
use iso_20022_sdk::auth_094_001_02::TradeQueryCriteria10;
use iso_20022_sdk::auth_094_001_02::TradeQueryExecutionFrequency3;
use iso_20022_sdk::auth_094_001_02::TradeRecurrentQuery5;
use iso_20022_sdk::auth_094_001_02::TradeReportQuery13Choice;
use iso_20022_sdk::auth_094_001_02::TradeReportQuery13ChoiceEnum;
use iso_20022_sdk::decimal::Decimal;
use iso_20022_sdk::identifiers::IdentifierPatterns;
use iso_20022_sdk::pattern::PatternRegistry;
use iso_20022_sdk::tsmt_035_001_03::BaselineStatus3Code;
use iso_20022_sdk::tsmt_035_001_03::Document;
use iso_20022_sdk::tsmt_035_001_03::IsoDateTime;
use iso_20022_sdk::tsmt_035_001_03::Max140Text;
use iso_20022_sdk::tsmt_035_001_03::Max35Text;
use iso_20022_sdk::tsmt_035_001_03::MessageIdentification1;
use iso_20022_sdk::tsmt_035_001_03::SimpleIdentificationInformation;
use iso_20022_sdk::tsmt_035_001_03::StatusExtensionRequestV03;
use iso_20022_sdk::tsmt_035_001_03::TransactionStatus5;
use iso_20022_sdk::validate::note_present;
use iso_20022_sdk::validate::report_choice;
use iso_20022_sdk::validate::report_length;
use iso_20022_sdk::validate::report_pattern;
use iso_20022_sdk::validate::report_range;
use iso_20022_sdk::validate::validate_field;
use iso_20022_sdk::validate::validate_list;
use iso_20022_sdk::validate::validate_optional;
use iso_20022_sdk::validate::validate_value;
use iso_20022_sdk::validate::Validate;
use iso_20022_sdk::violation::PathSegment;
use iso_20022_sdk::violation::StructuralFault;
use iso_20022_sdk::violation::ValidationViolation;
use iso_20022_sdk::violation::Violation;

fn patterns() -> IdentifierPatterns {
    let mut registry = PatternRegistry::new();
    match IdentifierPatterns::compile(&mut registry) {
        Ok(patterns) => patterns,
        Err(error) => panic!("pattern {} rejected: {}", error.pattern, error.message),
    }
}

fn named(name: &str) -> PathSegment {
    PathSegment::Field(name.to_string())
}

fn at(path: &[&str], violation: Violation) -> ValidationViolation {
    ValidationViolation { path: path.iter().map(|name| named(name)).collect(), violation }
}

fn short(value: &str) -> Max35Text {
    Max35Text { value: value.to_string() }
}

fn instant() -> IsoDateTime {
    IsoDateTime { value: "2023-04-05T06:07:08Z".to_string() }
}

fn status_request(id: &str, description: Option<&str>) -> Document {
    Document {
        sts_xtnsn_req: StatusExtensionRequestV03 {
            req_id: MessageIdentification1 { id: short(id), cre_dt_tm: instant() },
            tx_id: SimpleIdentificationInformation { id: short("TX-1") },
            submitr_tx_ref: None,
            sts_to_be_xtnded: TransactionStatus5 {
                sts: BaselineStatus3Code::Actv,
                chng_dt_tm: instant(),
                desc: description.map(|text| Max140Text { value: text.to_string() }),
            },
        },
        xmlns: iso_20022_sdk::tsmt_035_001_03::namespace(),
    }
}

#[test]
fn every_declared_pattern_compiles_once() {
    let mut registry = PatternRegistry::new();
    assert!(IdentifierPatterns::compile(&mut registry).is_ok());
    let distinct = registry.len();
    assert!(distinct > 0);
    assert!(registry.contains("[A-Z0-9]{18,18}[0-9]{2,2}"));
    assert!(registry.contains("[A-Z]{2,2}"));
    assert!(IdentifierPatterns::compile(&mut registry).is_ok());
    assert_eq!(registry.len(), distinct);
}

#[test]
fn declared_patterns_keep_their_source() {
    let patterns = patterns();
    assert_eq!(patterns.lei_identifier().source(), "[A-Z0-9]{18,18}[0-9]{2,2}");
    assert_eq!(patterns.country_code().source(), "[A-Z]{2,2}");
    assert_eq!(patterns.active_currency_code().source(), "[A-Z]{3,3}");
    assert_eq!(patterns.uui_dv_4_identifier().source(),
        "[a-f0-9]{8}-[a-f0-9]{4}-4[a-f0-9]{3}-[89ab][a-f0-9]{3}-[a-f0-9]{12}");
    assert_eq!(patterns.phone_number().source(), "\\+[0-9]{1,3}-[0-9()+\\-]{1,30}");
    assert!(patterns.phone_number().is_full_match("+49-1234567"));
    assert!(!patterns.phone_number().is_full_match("49-1234567"));
    assert!(patterns.iso_year_month().is_full_match("2023-04"));
    assert!(!patterns.iso_year_month().is_full_match("2023-13"));
}

#[test]
fn valid_status_request_has_no_violation() {
    let document = status_request("REQ-1", Some("extend by a week"));
    assert_eq!(validate_value(&document, &patterns()), vec![]);
}

#[test]
fn status_request_reports_every_violation_with_its_path() {
    let too_long = "x".repeat(141);
    let document = status_request("", Some(&too_long));
    assert_eq!(
        validate_value(&document, &patterns()),
        vec![
            at(
                &["StsXtnsnReq", "ReqId", "Id"],
                Violation::Length { actual: 0, min: Some(1), max: Some(35) }
            ),
            at(
                &["StsXtnsnReq", "StsToBeXtnded", "Desc"],
                Violation::Length { actual: 141, min: Some(1), max: Some(140) }
            ),
        ]
    );
}

#[test]
fn default_status_request_lacks_its_identifiers() {
    let reports = validate_value(&Document::default(), &patterns());
    assert_eq!(
        reports,
        vec![
            at(
                &["StsXtnsnReq", "ReqId", "Id"],
                Violation::Length { actual: 0, min: Some(1), max: Some(35) }
            ),
            at(
                &["StsXtnsnReq", "TxId", "Id"],
                Violation::Length { actual: 0, min: Some(1), max: Some(35) }
            ),
        ]
    );
}

#[test]
fn validating_a_message_twice_gives_the_same_reports() {
    let document = status_request("", None);
    let patterns = patterns();
    assert_eq!(validate_value(&document, &patterns), validate_value(&document, &patterns));
}

#[test]
fn lei_identifier_is_matched_in_full() {
    let patterns = patterns();
    let valid = LeiIdentifier { value: "5493001KJTIIGC8Y1R12".to_string() };
    assert_eq!(validate_value(&valid, &patterns), vec![]);
    let short = LeiIdentifier { value: "5493001KJTIIGC8Y1R1".to_string() };
    let mut reports = Vec::new();
    short.validate_into(&vec![named("LEI")], &patterns, &mut reports);
    assert_eq!(
        reports,
        vec![at(
            &["LEI"],
            Violation::Pattern {
                actual: "5493001KJTIIGC8Y1R1".to_string(),
                pattern: "[A-Z0-9]{18,18}[0-9]{2,2}".to_string(),
            }
        )]
    );
    let embedded = LeiIdentifier { value: "x5493001KJTIIGC8Y1R12x".to_string() };
    assert_eq!(validate_value(&embedded, &patterns).len(), 1);
}

#[test]
fn day_of_month_is_checked_against_its_range() {
    let patterns = patterns();
    assert_eq!(validate_value(&DayOfMonthNumber { value: Decimal::whole(31) }, &patterns), vec![]);
    assert_eq!(
        validate_value(&DayOfMonthNumber { value: Decimal::whole(32) }, &patterns),
        vec![at(
            &[],
            Violation::Range {
                actual: Decimal::whole(32),
                min: Some(Decimal::whole(1)),
                max: Some(Decimal::whole(31)),
            }
        )]
    );
    assert_eq!(validate_value(&DayOfMonthNumber::default(), &patterns).len(), 1);
}

#[test]
fn repeated_field_reports_each_element_under_its_position() {
    let criteria = CorporateSectorCriteria5 {
        fi_sctr: vec![],
        nfi_sctr: vec![
            NaceDomainIdentifier { value: "A".to_string() },
            NaceDomainIdentifier { value: "Z".to_string() },
            NaceDomainIdentifier { value: "AB".to_string() },
        ],
        not_rptd: None,
    };
    let reports = validate_value(&criteria, &patterns());
    assert_eq!(
        reports,
        vec![
            ValidationViolation {
                path: vec![named("NFISctr"), PathSegment::Index(1)],
                violation: Violation::Pattern {
                    actual: "Z".to_string(),
                    pattern: "[A-U]{1,1}".to_string()
                },
            },
            ValidationViolation {
                path: vec![named("NFISctr"), PathSegment::Index(2)],
                violation: Violation::Pattern {
                    actual: "AB".to_string(),
                    pattern: "[A-U]{1,1}".to_string()
                },
            },
        ]
    );
}

#[test]
fn typed_choice_requires_exactly_one_alternative() {
    let patterns = patterns();
    let none = TradeReportQuery13Choice { value: TradeReportQuery13ChoiceEnum::default() };
    assert_eq!(
        validate_value(&none, &patterns),
        vec![at(&[], Violation::Structure(StructuralFault::MissingChoice))]
    );
    let one = TradeReportQuery13Choice {
        value: TradeReportQuery13ChoiceEnum {
            ad_hoc_qry: Some(TradeQueryCriteria10::default()),
            rcrnt_qry: None,
        },
    };
    assert_eq!(validate_value(&one, &patterns), vec![]);
    let recurrent = TradeRecurrentQuery5 {
        qry_tp: iso_20022_sdk::auth_094_001_02::Max1000Text { value: "daily".to_string() },
        frqcy: TradeQueryExecutionFrequency3::default(),
        vld_until: iso_20022_sdk::auth_094_001_02::IsoDate { value: "2024-01-01".to_string() },
    };
    let both = TradeReportQuery13Choice {
        value: TradeReportQuery13ChoiceEnum {
            ad_hoc_qry: Some(TradeQueryCriteria10::default()),
            rcrnt_qry: Some(recurrent),
        },
    };
    assert_eq!(
        validate_value(&both, &patterns),
        vec![at(
            &[],
            Violation::Structure(StructuralFault::AmbiguousChoice {
                present: vec!["AdHocQry".to_string(), "RcrntQry".to_string()],
            })
        )]
    );
}

#[test]
fn building_blocks_append_to_what_was_reported() {
    let patterns = patterns();
    let path = vec![named("Root")];
    let mut out = vec![at(&["Earlier"], Violation::MissingField)];
    report_length("abc", Some(4), None, &path, &mut out);
    report_length("abc", Some(3), Some(3), &path, &mut out);
    report_pattern("de", patterns.country_code(), &path, &mut out);
    report_pattern("DE", patterns.country_code(), &path, &mut out);
    report_range(Decimal::whole(-1), Some(Decimal::whole(0)), None, &path, &mut out);
    report_range(Decimal::whole(1), Some(Decimal::whole(0)), None, &path, &mut out);
    validate_field(&short(""), "Id", &path, &patterns, &mut out);
    validate_optional(&Some(short("")), "Ref", &path, &patterns, &mut out);
    validate_optional(&None::<Max35Text>, "Ref", &path, &patterns, &mut out);
    validate_list(&vec![short("ok"), short("")], Some(3), None, "Itm", &path, &patterns, &mut out);
    let mut present = Vec::new();
    note_present(true, "A", &mut present);
    note_present(false, "B", &mut present);
    note_present(true, "C", &mut present);
    assert_eq!(present, vec!["A".to_string(), "C".to_string()]);
    report_choice(present, &path, &mut out);
    report_choice(vec!["A".to_string()], &path, &mut out);
    report_choice(vec![], &path, &mut out);
    let empty = Violation::Length { actual: 0, min: Some(1), max: Some(35) };
    assert_eq!(
        out,
        vec![
            at(&["Earlier"], Violation::MissingField),
            at(&["Root"], Violation::Length { actual: 3, min: Some(4), max: None }),
            at(
                &["Root"],
                Violation::Pattern { actual: "de".to_string(), pattern: "[A-Z]{2,2}".to_string() }
            ),
            at(
                &["Root"],
                Violation::Range {
                    actual: Decimal::whole(-1),
                    min: Some(Decimal::whole(0)),
                    max: None
                }
            ),
            at(&["Root", "Id"], empty.clone()),
            at(&["Root", "Ref"], empty.clone()),
            at(&["Root", "Itm"], Violation::Length { actual: 2, min: Some(3), max: None }),
            ValidationViolation {
                path: vec![named("Root"), named("Itm"), PathSegment::Index(1)],
                violation: empty,
            },
            at(
                &["Root"],
                Violation::Structure(StructuralFault::AmbiguousChoice {
                    present: vec!["A".to_string(), "C".to_string()],
                })
            ),
            at(&["Root"], Violation::Structure(StructuralFault::MissingChoice)),
        ]
    );
}

#[test]
fn amount_must_not_be_negative_and_currency_must_be_a_code() {
    let patterns = patterns();
    let amount = iso_20022_sdk::camt_006_001_09::ActiveCurrencyAndAmount {
        value: iso_20022_sdk::camt_006_001_09::ActiveCurrencyAndAmountSimpleType {
            value: Decimal::new(-1050, 2).expect("scale within range"),
        },
        ccy: iso_20022_sdk::camt_006_001_09::ActiveCurrencyCode { value: "eur".to_string() },
    };
    assert_eq!(
        validate_value(&amount, &patterns),
        vec![
            at(
                &["ActiveCurrencyAndAmount"],
                Violation::Range {
                    actual: Decimal::new(-1050, 2).expect("scale within range"),
                    min: Some(Decimal::whole(0)),
                    max: None,
                }
            ),
            at(
                &["@Ccy"],
                Violation::Pattern { actual: "eur".to_string(), pattern: "[A-Z]{3,3}".to_string() }
            ),
        ]
    );
    let valid = iso_20022_sdk::camt_006_001_09::ActiveCurrencyAndAmount {
        value: iso_20022_sdk::camt_006_001_09::ActiveCurrencyAndAmountSimpleType {
            value: Decimal::new(1050, 2).expect("scale within range"),
        },
        ccy: iso_20022_sdk::camt_006_001_09::ActiveCurrencyCode { value: "EUR".to_string() },
    };
    assert_eq!(validate_value(&valid, &patterns), vec![]);
}

#[test]
fn text_with_length_and_pattern_reports_both() {
    let patterns = patterns();
    let binary = iso_20022_sdk::cain_006_001_03::Max35Binary { value: String::new() };
    let reports = validate_value(&binary, &patterns);
    assert_eq!(
        reports,
        vec![at(&[], Violation::Length { actual: 0, min: Some(1), max: Some(35) })]
    );
    let binary = iso_20022_sdk::cain_006_001_03::Max35Binary { value: "not base64!".to_string() };
    let reports = validate_value(&binary, &patterns);
    assert_eq!(reports.len(), 1);
    assert_eq!(reports[0].violation.kind(), iso_20022_sdk::violation::ViolationKind::Pattern);
    let country = iso_20022_sdk::cain_006_001_03::Iso3NumericCountryCode { value: "276".to_string() };
    assert_eq!(validate_value(&country, &patterns), vec![]);
    let country = iso_20022_sdk::cain_006_001_03::Iso3NumericCountryCode { value: "2760".to_string() };
    assert_eq!(validate_value(&country, &patterns).len(), 1);
}

#[test]
fn supplementary_data_is_validated_in_place() {
    let patterns = patterns();
    let data = iso_20022_sdk::seev_003_001_08::SupplementaryData1 {
        plc_and_nm: None,
        envlp: iso_20022_sdk::seev_003_001_08::SupplementaryDataEnvelope1 {
            value: iso_20022_sdk::seev_003_001_08::AnyBicDec2014Identifier {
                value: "not a bic".to_string(),
            },
        },
    };
    assert_eq!(
        validate_value(&data, &patterns),
        vec![at(
            &["Envlp"],
            Violation::Pattern {
                actual: "not a bic".to_string(),
                pattern: "[A-Z0-9]{4,4}[A-Z]{2,2}[A-Z0-9]{2,2}([A-Z0-9]{3,3}){0,1}".to_string(),
            }
        )]
    );
}

#[test]
fn default_meeting_notification_reports_its_missing_parts() {
    let patterns = patterns();
    let document: iso_20022_sdk::seev_003_001_08::Document<Max35Text> = Default::default();
    let reports = validate_value(&document, &patterns);
    assert!(!reports.is_empty());
    assert!(reports.iter().all(|report| report.path.first() == Some(&named("MtgEntitlmntNtfctn"))));
    assert!(reports.contains(&at(
        &["MtgEntitlmntNtfctn", "Issr"],
        Violation::Structure(StructuralFault::MissingChoice)
    )));
    assert!(reports.contains(&at(
        &["MtgEntitlmntNtfctn", "Scty"],
        Violation::Length { actual: 0, min: Some(1), max: Some(200) }
    )));
}
