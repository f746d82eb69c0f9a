use iso_20022_sdk::auth_094_001_02;
use iso_20022_sdk::cain_006_001_03;
use iso_20022_sdk::camt_006_001_09;
use iso_20022_sdk::documents::Document;
use iso_20022_sdk::seev_003_001_08;
use iso_20022_sdk::tsmt_035_001_03;

#[test]
fn namespaces_name_their_schema() {
    assert_eq!(auth_094_001_02::namespace(), "urn:iso:std:iso:20022:tech:xsd:auth.094.001.02");
    assert_eq!(cain_006_001_03::namespace(), "urn:iso:std:iso:20022:tech:xsd:cain.006.001.03");
    assert_eq!(camt_006_001_09::namespace(), "urn:iso:std:iso:20022:tech:xsd:camt.006.001.09");
    assert_eq!(seev_003_001_08::namespace(), "urn:iso:std:iso:20022:tech:xsd:seev.003.001.08");
    assert_eq!(tsmt_035_001_03::namespace(), "urn:iso:std:iso:20022:tech:xsd:tsmt.035.001.03");
}

#[test]
fn document_is_found_by_its_identifier() {
    assert_eq!(Document::try_from("cafr.001.001.02"), Ok(Document::cafr_001_001_02));
    assert_eq!(Document::try_from("cafr.002.001.02"), Ok(Document::cafr_002_001_02));
    assert_eq!(Document::try_from("cafr.003.001.02"), Ok(Document::cafr_003_001_02));
    assert_eq!(Document::try_from("cafr.004.001.02"), Ok(Document::cafr_004_001_02));
}

#[test]
fn unknown_identifier_is_handed_back() {
    assert_eq!(Document::try_from("cafr.005.001.02"), Err("cafr.005.001.02".to_string()));
    assert_eq!(Document::try_from(""), Err(String::new()));
    assert_eq!(Document::try_from("CAFR.001.001.02"), Err("CAFR.001.001.02".to_string()));
}

#[test]
fn default_document_is_unknown() {
    assert_eq!(Document::default(), Document::Unknown);
}

#[test]
fn message_values_default_to_empty_and_unknown() {
    let status = tsmt_035_001_03::TransactionStatus5::default();
    assert_eq!(status.sts, tsmt_035_001_03::BaselineStatus3Code::Unknown);
    assert_eq!(status.desc, None);
    let text = tsmt_035_001_03::Max35Text { value: "abc".to_string() };
    assert_eq!(text.clone(), text);
}
