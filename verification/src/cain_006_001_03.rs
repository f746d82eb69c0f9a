//! Reversal response (`cain.006.001.03`).

use vstd::prelude::*;
use vstd::string::StringExecFns;
use crate::decimal::Decimal;
use crate::identifiers::IdentifierPatterns;
use crate::validate::Validate;
use crate::validate::choice_reports;
use crate::validate::field_reports;
use crate::validate::lemma_more_added;
use crate::validate::lemma_nothing_added;
use crate::validate::length_reports;
use crate::validate::list_reports;
use crate::validate::name_if;
use crate::validate::note_present;
use crate::validate::optional_reports;
use crate::validate::pattern_reports;
use crate::validate::range_reports;
use crate::validate::report_choice;
use crate::validate::report_length;
use crate::validate::report_pattern;
use crate::validate::report_range;
use crate::validate::validate_field;
use crate::validate::validate_list;
use crate::validate::validate_optional;
use crate::violation::PathSegment;
use crate::violation::ReportModel;
use crate::violation::SegmentModel;
use crate::violation::ValidationViolation;
use crate::violation::names_model;
use crate::violation::path_model;
use crate::violation::reports_model;

verus! {

/// The namespace of the schema.
pub fn namespace() -> (name: String)
    ensures
        name@ == "urn:iso:std:iso:20022:tech:xsd:cain.006.001.03"@,
{
    String::from_str("urn:iso:std:iso:20022:tech:xsd:cain.006.001.03")
}

#[derive(Debug, Default, Clone, PartialEq)]
pub struct KekIdentifier6 {
    /// Serialized as `KeyId`.
    pub key_id: Max140Text,
    /// Serialized as `KeyVrsn`.
    pub key_vrsn: Option<Max140Text>,
    /// Serialized as `SeqNb`.
    pub seq_nb: Option<Number>,
    /// Serialized as `DerivtnId`.
    pub derivtn_id: Option<Min5Max16Binary>,
}

impl Validate for KekIdentifier6 {
    open spec fn violations(&self, path: Seq<SegmentModel>) -> Seq<ReportModel> {
        Seq::empty()
            + field_reports(self.key_id, "KeyId"@, path)
            + optional_reports(self.key_vrsn, "KeyVrsn"@, path)
            + optional_reports(self.seq_nb, "SeqNb"@, path)
            + optional_reports(self.derivtn_id, "DerivtnId"@, path)
    }

    fn validate_into(
        &self,
        path: &Vec<PathSegment>,
        patterns: &IdentifierPatterns,
        out: &mut Vec<ValidationViolation>,
    ) {
        let ghost before = reports_model(out@);
        let ghost here = path_model(path@);
        let ghost mut expected = Seq::<ReportModel>::empty();
        proof {
            lemma_nothing_added(before);
        }
        validate_field(&self.key_id, "KeyId", path, patterns, out);
        proof {
            let added = field_reports(self.key_id, "KeyId"@, here);
            lemma_more_added(before, expected, added);
            expected = expected + added;
        }
        validate_optional(&self.key_vrsn, "KeyVrsn", path, patterns, out);
        proof {
            let added = optional_reports(self.key_vrsn, "KeyVrsn"@, here);
            lemma_more_added(before, expected, added);
            expected = expected + added;
        }
        validate_optional(&self.seq_nb, "SeqNb", path, patterns, out);
        proof {
            let added = optional_reports(self.seq_nb, "SeqNb"@, here);
            lemma_more_added(before, expected, added);
            expected = expected + added;
        }
        validate_optional(&self.derivtn_id, "DerivtnId", path, patterns, out);
        proof {
            let added = optional_reports(self.derivtn_id, "DerivtnId"@, here);
            lemma_more_added(before, expected, added);
            expected = expected + added;
        }
    }
}

/// Text of 1 to 99 characters.
#[derive(Debug, Default, Clone, PartialEq)]
pub struct Max99Text {
    /// The text of the element.
    pub value: String,
}

impl Validate for Max99Text {
    open spec fn violations(&self, path: Seq<SegmentModel>) -> Seq<ReportModel> {
        Seq::empty()
            + length_reports(self.value@, Some(1), Some(99), path)
    }

    fn validate_into(
        &self,
        path: &Vec<PathSegment>,
        patterns: &IdentifierPatterns,
        out: &mut Vec<ValidationViolation>,
    ) {
        let ghost before = reports_model(out@);
        let ghost here = path_model(path@);
        let ghost mut expected = Seq::<ReportModel>::empty();
        proof {
            lemma_nothing_added(before);
        }
        report_length(self.value.as_str(), Some(1), Some(99), path, out);
        proof {
            let added = length_reports(self.value@, Some(1), Some(99), here);
            lemma_more_added(before, expected, added);
            expected = expected + added;
        }
    }
}

#[derive(Debug, Default, Clone, PartialEq)]
pub struct PartyIdentification258 {
    /// Serialized as `Id`.
    pub id: Max35Text,
    /// Serialized as `Assgnr`.
    pub assgnr: Option<Max35Text>,
    /// Serialized as `Ctry`.
    pub ctry: Option<Iso3NumericCountryCode>,
    /// Serialized as `ShrtNm`.
    pub shrt_nm: Option<Max35Text>,
    /// Serialized as `LglCorpNm`.
    pub lgl_corp_nm: Option<Max99Text>,
    /// Serialized as `AddtlId`.
    pub addtl_id: Option<AdditionalData1>,
    /// Serialized as `LclData`.
    pub lcl_data: Option<LocalData1>,
}

impl Validate for PartyIdentification258 {
    open spec fn violations(&self, path: Seq<SegmentModel>) -> Seq<ReportModel> {
        Seq::empty()
            + field_reports(self.id, "Id"@, path)
            + optional_reports(self.assgnr, "Assgnr"@, path)
            + optional_reports(self.ctry, "Ctry"@, path)
            + optional_reports(self.shrt_nm, "ShrtNm"@, path)
            + optional_reports(self.lgl_corp_nm, "LglCorpNm"@, path)
            + optional_reports(self.addtl_id, "AddtlId"@, path)
            + optional_reports(self.lcl_data, "LclData"@, path)
    }

    fn validate_into(
        &self,
        path: &Vec<PathSegment>,
        patterns: &IdentifierPatterns,
        out: &mut Vec<ValidationViolation>,
    ) {
        let ghost before = reports_model(out@);
        let ghost here = path_model(path@);
        let ghost mut expected = Seq::<ReportModel>::empty();
        proof {
            lemma_nothing_added(before);
        }
        validate_field(&self.id, "Id", path, patterns, out);
        proof {
            let added = field_reports(self.id, "Id"@, here);
            lemma_more_added(before, expected, added);
            expected = expected + added;
        }
        validate_optional(&self.assgnr, "Assgnr", path, patterns, out);
        proof {
            let added = optional_reports(self.assgnr, "Assgnr"@, here);
            lemma_more_added(before, expected, added);
            expected = expected + added;
        }
        validate_optional(&self.ctry, "Ctry", path, patterns, out);
        proof {
            let added = optional_reports(self.ctry, "Ctry"@, here);
            lemma_more_added(before, expected, added);
            expected = expected + added;
        }
        validate_optional(&self.shrt_nm, "ShrtNm", path, patterns, out);
        proof {
            let added = optional_reports(self.shrt_nm, "ShrtNm"@, here);
            lemma_more_added(before, expected, added);
            expected = expected + added;
        }
        validate_optional(&self.lgl_corp_nm, "LglCorpNm", path, patterns, out);
        proof {
            let added = optional_reports(self.lgl_corp_nm, "LglCorpNm"@, here);
            lemma_more_added(before, expected, added);
            expected = expected + added;
        }
        validate_optional(&self.addtl_id, "AddtlId", path, patterns, out);
        proof {
            let added = optional_reports(self.addtl_id, "AddtlId"@, here);
            lemma_more_added(before, expected, added);
            expected = expected + added;
        }
        validate_optional(&self.lcl_data, "LclData", path, patterns, out);
        proof {
            let added = optional_reports(self.lcl_data, "LclData"@, here);
            lemma_more_added(before, expected, added);
            expected = expected + added;
        }
    }
}

#[derive(Debug, Default, Clone, PartialEq)]
pub struct Transaction137 {
    /// Serialized as `TxTp`.
    pub tx_tp: Iso8583TransactionTypeCode,
    /// Serialized as `TxSubTp`.
    pub tx_sub_tp: Option<Max35Text>,
    /// Serialized as `TxAttr`.
    pub tx_attr: Option<TransactionAttribute2Code>,
    /// Serialized as `OthrTxAttr`.
    pub othr_tx_attr: Option<Max35Text>,
    /// Serialized as `AddtlSvc`.
    pub addtl_svc: Vec<AdditionalService2>,
    /// Serialized as `SpclPrgrmmQlfctn`.
    pub spcl_prgrmm_qlfctn: Vec<SpecialProgrammeQualification1>,
    /// Serialized as `TxId`.
    pub tx_id: TransactionIdentification51,
    /// Serialized as `TxAmts`.
    pub tx_amts: TransactionAmounts2,
    /// Serialized as `AddtlAmt`.
    pub addtl_amt: Vec<AdditionalAmounts3>,
    /// Serialized as `AddtlFee`.
    pub addtl_fee: Vec<AdditionalFee2>,
    /// Serialized as `OrgnlAddtlFee`.
    pub orgnl_addtl_fee: Vec<AdditionalFee2>,
    /// Serialized as `AcctFr`.
    pub acct_fr: Option<AccountDetails3>,
    /// Serialized as `AcctTo`.
    pub acct_to: Option<AccountDetails3>,
    /// Serialized as `TxDesc`.
    pub tx_desc: Option<Max1000Text>,
    /// Serialized as `AddtlData`.
    pub addtl_data: Vec<AdditionalData1>,
}

impl Validate for Transaction137 {
    open spec fn violations(&self, path: Seq<SegmentModel>) -> Seq<ReportModel> {
        Seq::empty()
            + field_reports(self.tx_tp, "TxTp"@, path)
            + optional_reports(self.tx_sub_tp, "TxSubTp"@, path)
            + optional_reports(self.tx_attr, "TxAttr"@, path)
            + optional_reports(self.othr_tx_attr, "OthrTxAttr"@, path)
            + list_reports(self.addtl_svc@, Some(0), None, "AddtlSvc"@, path)
            + list_reports(self.spcl_prgrmm_qlfctn@, Some(0), None, "SpclPrgrmmQlfctn"@, path)
            + field_reports(self.tx_id, "TxId"@, path)
            + field_reports(self.tx_amts, "TxAmts"@, path)
            + list_reports(self.addtl_amt@, Some(0), None, "AddtlAmt"@, path)
            + list_reports(self.addtl_fee@, Some(0), None, "AddtlFee"@, path)
            + list_reports(self.orgnl_addtl_fee@, Some(0), None, "OrgnlAddtlFee"@, path)
            + optional_reports(self.acct_fr, "AcctFr"@, path)
            + optional_reports(self.acct_to, "AcctTo"@, path)
            + optional_reports(self.tx_desc, "TxDesc"@, path)
            + list_reports(self.addtl_data@, Some(0), None, "AddtlData"@, path)
    }

    fn validate_into(
        &self,
        path: &Vec<PathSegment>,
        patterns: &IdentifierPatterns,
        out: &mut Vec<ValidationViolation>,
    ) {
        let ghost before = reports_model(out@);
        let ghost here = path_model(path@);
        let ghost mut expected = Seq::<ReportModel>::empty();
        proof {
            lemma_nothing_added(before);
        }
        validate_field(&self.tx_tp, "TxTp", path, patterns, out);
        proof {
            let added = field_reports(self.tx_tp, "TxTp"@, here);
            lemma_more_added(before, expected, added);
            expected = expected + added;
        }
        validate_optional(&self.tx_sub_tp, "TxSubTp", path, patterns, out);
        proof {
            let added = optional_reports(self.tx_sub_tp, "TxSubTp"@, here);
            lemma_more_added(before, expected, added);
            expected = expected + added;
        }
        validate_optional(&self.tx_attr, "TxAttr", path, patterns, out);
        proof {
            let added = optional_reports(self.tx_attr, "TxAttr"@, here);
            lemma_more_added(before, expected, added);
            expected = expected + added;
        }
        validate_optional(&self.othr_tx_attr, "OthrTxAttr", path, patterns, out);
        proof {
            let added = optional_reports(self.othr_tx_attr, "OthrTxAttr"@, here);
            lemma_more_added(before, expected, added);
            expected = expected + added;
        }
        validate_list(&self.addtl_svc, Some(0), None, "AddtlSvc", path, patterns, out);
        proof {
            let added = list_reports(self.addtl_svc@, Some(0), None, "AddtlSvc"@, here);
            lemma_more_added(before, expected, added);
            expected = expected + added;
        }
        validate_list(&self.spcl_prgrmm_qlfctn, Some(0), None, "SpclPrgrmmQlfctn", path, patterns, out);
        proof {
            let added = list_reports(self.spcl_prgrmm_qlfctn@, Some(0), None, "SpclPrgrmmQlfctn"@, here);
            lemma_more_added(before, expected, added);
            expected = expected + added;
        }
        validate_field(&self.tx_id, "TxId", path, patterns, out);
        proof {
            let added = field_reports(self.tx_id, "TxId"@, here);
            lemma_more_added(before, expected, added);
            expected = expected + added;
        }
        validate_field(&self.tx_amts, "TxAmts", path, patterns, out);
        proof {
            let added = field_reports(self.tx_amts, "TxAmts"@, here);
            lemma_more_added(before, expected, added);
            expected = expected + added;
        }
        validate_list(&self.addtl_amt, Some(0), None, "AddtlAmt", path, patterns, out);
        proof {
            let added = list_reports(self.addtl_amt@, Some(0), None, "AddtlAmt"@, here);
            lemma_more_added(before, expected, added);
            expected = expected + added;
        }
        validate_list(&self.addtl_fee, Some(0), None, "AddtlFee", path, patterns, out);
        proof {
            let added = list_reports(self.addtl_fee@, Some(0), None, "AddtlFee"@, here);
            lemma_more_added(before, expected, added);
            expected = expected + added;
        }
        validate_list(&self.orgnl_addtl_fee, Some(0), None, "OrgnlAddtlFee", path, patterns, out);
        proof {
            let added = list_reports(self.orgnl_addtl_fee@, Some(0), None, "OrgnlAddtlFee"@, here);
            lemma_more_added(before, expected, added);
            expected = expected + added;
        }
        validate_optional(&self.acct_fr, "AcctFr", path, patterns, out);
        proof {
            let added = optional_reports(self.acct_fr, "AcctFr"@, here);
            lemma_more_added(before, expected, added);
            expected = expected + added;
        }
        validate_optional(&self.acct_to, "AcctTo", path, patterns, out);
        proof {
            let added = optional_reports(self.acct_to, "AcctTo"@, here);
            lemma_more_added(before, expected, added);
            expected = expected + added;
        }
        validate_optional(&self.tx_desc, "TxDesc", path, patterns, out);
        proof {
            let added = optional_reports(self.tx_desc, "TxDesc"@, here);
            lemma_more_added(before, expected, added);
            expected = expected + added;
        }
        validate_list(&self.addtl_data, Some(0), None, "AddtlData", path, patterns, out);
        proof {
            let added = list_reports(self.addtl_data@, Some(0), None, "AddtlData"@, here);
            lemma_more_added(before, expected, added);
            expected = expected + added;
        }
    }
}

/// Text of 1 to 20000 characters.
#[derive(Debug, Default, Clone, PartialEq)]
pub struct Max20KText {
    /// The text of the element.
    pub value: String,
}

impl Validate for Max20KText {
    open spec fn violations(&self, path: Seq<SegmentModel>) -> Seq<ReportModel> {
        Seq::empty()
            + length_reports(self.value@, Some(1), Some(20000), path)
    }

    fn validate_into(
        &self,
        path: &Vec<PathSegment>,
        patterns: &IdentifierPatterns,
        out: &mut Vec<ValidationViolation>,
    ) {
        let ghost before = reports_model(out@);
        let ghost here = path_model(path@);
        let ghost mut expected = Seq::<ReportModel>::empty();
        proof {
            lemma_nothing_added(before);
        }
        report_length(self.value.as_str(), Some(1), Some(20000), path, out);
        proof {
            let added = length_reports(self.value@, Some(1), Some(20000), here);
            lemma_more_added(before, expected, added);
            expected = expected + added;
        }
    }
}

/// Text that matches `[0-9]{3,3}`.
#[derive(Debug, Default, Clone, PartialEq)]
pub struct Iso3NumericCurrencyCode {
    /// The text of the element.
    pub value: String,
}

impl Validate for Iso3NumericCurrencyCode {
    open spec fn violations(&self, path: Seq<SegmentModel>) -> Seq<ReportModel> {
        Seq::empty()
            + pattern_reports(self.value@, "[0-9]{3,3}"@, path)
    }

    fn validate_into(
        &self,
        path: &Vec<PathSegment>,
        patterns: &IdentifierPatterns,
        out: &mut Vec<ValidationViolation>,
    ) {
        let ghost before = reports_model(out@);
        let ghost here = path_model(path@);
        let ghost mut expected = Seq::<ReportModel>::empty();
        proof {
            lemma_nothing_added(before);
        }
        report_pattern(self.value.as_str(), patterns.iso_3_numeric_currency_code(), path, out);
        proof {
            let added = pattern_reports(self.value@, "[0-9]{3,3}"@, here);
            lemma_more_added(before, expected, added);
            expected = expected + added;
        }
    }
}

#[derive(Debug, Default, Clone, PartialEq)]
pub struct Parameter14 {
    /// Serialized as `NcrptnFrmt`.
    pub ncrptn_frmt: Option<EncryptionFormat3Code>,
    /// Serialized as `InitlstnVctr`.
    pub initlstn_vctr: Option<Max500Binary>,
    /// Serialized as `BPddg`.
    pub b_pddg: Option<BytePadding1Code>,
}

impl Validate for Parameter14 {
    open spec fn violations(&self, path: Seq<SegmentModel>) -> Seq<ReportModel> {
        Seq::empty()
            + optional_reports(self.ncrptn_frmt, "NcrptnFrmt"@, path)
            + optional_reports(self.initlstn_vctr, "InitlstnVctr"@, path)
            + optional_reports(self.b_pddg, "BPddg"@, path)
    }

    fn validate_into(
        &self,
        path: &Vec<PathSegment>,
        patterns: &IdentifierPatterns,
        out: &mut Vec<ValidationViolation>,
    ) {
        let ghost before = reports_model(out@);
        let ghost here = path_model(path@);
        let ghost mut expected = Seq::<ReportModel>::empty();
        proof {
            lemma_nothing_added(before);
        }
        validate_optional(&self.ncrptn_frmt, "NcrptnFrmt", path, patterns, out);
        proof {
            let added = optional_reports(self.ncrptn_frmt, "NcrptnFrmt"@, here);
            lemma_more_added(before, expected, added);
            expected = expected + added;
        }
        validate_optional(&self.initlstn_vctr, "InitlstnVctr", path, patterns, out);
        proof {
            let added = optional_reports(self.initlstn_vctr, "InitlstnVctr"@, here);
            lemma_more_added(before, expected, added);
            expected = expected + added;
        }
        validate_optional(&self.b_pddg, "BPddg", path, patterns, out);
        proof {
            let added = optional_reports(self.b_pddg, "BPddg"@, here);
            lemma_more_added(before, expected, added);
            expected = expected + added;
        }
    }
}

/// Text that matches `[0-9]{3,3}`.
#[derive(Debug, Default, Clone, PartialEq)]
pub struct Iso3NumericCountryCode {
    /// The text of the element.
    pub value: String,
}

impl Validate for Iso3NumericCountryCode {
    open spec fn violations(&self, path: Seq<SegmentModel>) -> Seq<ReportModel> {
        Seq::empty()
            + pattern_reports(self.value@, "[0-9]{3,3}"@, path)
    }

    fn validate_into(
        &self,
        path: &Vec<PathSegment>,
        patterns: &IdentifierPatterns,
        out: &mut Vec<ValidationViolation>,
    ) {
        let ghost before = reports_model(out@);
        let ghost here = path_model(path@);
        let ghost mut expected = Seq::<ReportModel>::empty();
        proof {
            lemma_nothing_added(before);
        }
        report_pattern(self.value.as_str(), patterns.iso_3_numeric_country_code(), path, out);
        proof {
            let added = pattern_reports(self.value@, "[0-9]{3,3}"@, here);
            lemma_more_added(before, expected, added);
            expected = expected + added;
        }
    }
}

/// The alternatives of a choice: exactly one of them is populated.
#[derive(Debug, Default, Clone, PartialEq)]
pub struct EncryptedData1ChoiceEnum {
    /// Serialized as `HexBinryVal`.
    pub hex_binry_val: Option<Max9999HexBinaryText>,
    /// Serialized as `BinryData`.
    pub binry_data: Option<Max100KBinary>,
}

impl Validate for EncryptedData1ChoiceEnum {
    open spec fn violations(&self, path: Seq<SegmentModel>) -> Seq<ReportModel> {
        Seq::empty()
            + choice_reports(
                Seq::empty()
                    + name_if(self.hex_binry_val.is_some(), "HexBinryVal"@)
                    + name_if(self.binry_data.is_some(), "BinryData"@),
                path,
            )
            + optional_reports(self.hex_binry_val, "HexBinryVal"@, path)
            + optional_reports(self.binry_data, "BinryData"@, path)
    }

    fn validate_into(
        &self,
        path: &Vec<PathSegment>,
        patterns: &IdentifierPatterns,
        out: &mut Vec<ValidationViolation>,
    ) {
        let ghost before = reports_model(out@);
        let ghost here = path_model(path@);
        let ghost mut expected = Seq::<ReportModel>::empty();
        proof {
            lemma_nothing_added(before);
        }
        let mut present: Vec<String> = Vec::new();
        let ghost mut names = Seq::<Seq<char>>::empty();
        proof {
            assert(names_model(present@) =~= names);
        }
        note_present(self.hex_binry_val.is_some(), "HexBinryVal", &mut present);
        proof {
            names = names + name_if(self.hex_binry_val.is_some(), "HexBinryVal"@);
        }
        note_present(self.binry_data.is_some(), "BinryData", &mut present);
        proof {
            names = names + name_if(self.binry_data.is_some(), "BinryData"@);
        }
        report_choice(present, path, out);
        proof {
            let added = choice_reports(names, here);
            lemma_more_added(before, expected, added);
            expected = expected + added;
        }
        validate_optional(&self.hex_binry_val, "HexBinryVal", path, patterns, out);
        proof {
            let added = optional_reports(self.hex_binry_val, "HexBinryVal"@, here);
            lemma_more_added(before, expected, added);
            expected = expected + added;
        }
        validate_optional(&self.binry_data, "BinryData", path, patterns, out);
        proof {
            let added = optional_reports(self.binry_data, "BinryData"@, here);
            lemma_more_added(before, expected, added);
            expected = expected + added;
        }
    }
}

/// A choice, serialized as its populated alternative.
#[derive(Debug, Default, Clone, PartialEq)]
pub struct EncryptedData1Choice {
    /// Serialized in place, without an element of its own.
    pub value: EncryptedData1ChoiceEnum,
}

impl Validate for EncryptedData1Choice {
    open spec fn violations(&self, path: Seq<SegmentModel>) -> Seq<ReportModel> {
        Seq::empty()
            + self.value.violations(path)
    }

    fn validate_into(
        &self,
        path: &Vec<PathSegment>,
        patterns: &IdentifierPatterns,
        out: &mut Vec<ValidationViolation>,
    ) {
        let ghost before = reports_model(out@);
        let ghost here = path_model(path@);
        let ghost mut expected = Seq::<ReportModel>::empty();
        proof {
            lemma_nothing_added(before);
        }
        self.value.validate_into(path, patterns, out);
        proof {
            let added = self.value.violations(here);
            lemma_more_added(before, expected, added);
            expected = expected + added;
        }
    }
}

#[derive(Debug, Default, Clone, PartialEq)]
pub struct SpecialProgrammeQualification1 {
    /// Serialized as `Prgrmm`.
    pub prgrmm: Option<Max35Text>,
    /// Serialized as `Dtl`.
    pub dtl: Vec<SpecialProgrammeDetails1>,
}

impl Validate for SpecialProgrammeQualification1 {
    open spec fn violations(&self, path: Seq<SegmentModel>) -> Seq<ReportModel> {
        Seq::empty()
            + optional_reports(self.prgrmm, "Prgrmm"@, path)
            + list_reports(self.dtl@, Some(0), None, "Dtl"@, path)
    }

    fn validate_into(
        &self,
        path: &Vec<PathSegment>,
        patterns: &IdentifierPatterns,
        out: &mut Vec<ValidationViolation>,
    ) {
        let ghost before = reports_model(out@);
        let ghost here = path_model(path@);
        let ghost mut expected = Seq::<ReportModel>::empty();
        proof {
            lemma_nothing_added(before);
        }
        validate_optional(&self.prgrmm, "Prgrmm", path, patterns, out);
        proof {
            let added = optional_reports(self.prgrmm, "Prgrmm"@, here);
            lemma_more_added(before, expected, added);
            expected = expected + added;
        }
        validate_list(&self.dtl, Some(0), None, "Dtl", path, patterns, out);
        proof {
            let added = list_reports(self.dtl@, Some(0), None, "Dtl"@, here);
            lemma_more_added(before, expected, added);
            expected = expected + added;
        }
    }
}

#[derive(Debug, Default, Clone, PartialEq)]
pub struct Action13 {
    /// Serialized as `Dstn`.
    pub dstn: Option<PartyType20Code>,
    /// Serialized as `ActnTp`.
    pub actn_tp: Option<ActionType11Code>,
    /// Serialized as `OthrActnTp`.
    pub othr_actn_tp: Option<Max35Text>,
    /// Serialized as `Ctct`.
    pub ctct: Option<Contact6>,
    /// Serialized as `AddtlData`.
    pub addtl_data: Vec<AdditionalData1>,
}

impl Validate for Action13 {
    open spec fn violations(&self, path: Seq<SegmentModel>) -> Seq<ReportModel> {
        Seq::empty()
            + optional_reports(self.dstn, "Dstn"@, path)
            + optional_reports(self.actn_tp, "ActnTp"@, path)
            + optional_reports(self.othr_actn_tp, "OthrActnTp"@, path)
            + optional_reports(self.ctct, "Ctct"@, path)
            + list_reports(self.addtl_data@, Some(0), None, "AddtlData"@, path)
    }

    fn validate_into(
        &self,
        path: &Vec<PathSegment>,
        patterns: &IdentifierPatterns,
        out: &mut Vec<ValidationViolation>,
    ) {
        let ghost before = reports_model(out@);
        let ghost here = path_model(path@);
        let ghost mut expected = Seq::<ReportModel>::empty();
        proof {
            lemma_nothing_added(before);
        }
        validate_optional(&self.dstn, "Dstn", path, patterns, out);
        proof {
            let added = optional_reports(self.dstn, "Dstn"@, here);
            lemma_more_added(before, expected, added);
            expected = expected + added;
        }
        validate_optional(&self.actn_tp, "ActnTp", path, patterns, out);
        proof {
            let added = optional_reports(self.actn_tp, "ActnTp"@, here);
            lemma_more_added(before, expected, added);
            expected = expected + added;
        }
        validate_optional(&self.othr_actn_tp, "OthrActnTp", path, patterns, out);
        proof {
            let added = optional_reports(self.othr_actn_tp, "OthrActnTp"@, here);
            lemma_more_added(before, expected, added);
            expected = expected + added;
        }
        validate_optional(&self.ctct, "Ctct", path, patterns, out);
        proof {
            let added = optional_reports(self.ctct, "Ctct"@, here);
            lemma_more_added(before, expected, added);
            expected = expected + added;
        }
        validate_list(&self.addtl_data, Some(0), None, "AddtlData", path, patterns, out);
        proof {
            let added = list_reports(self.addtl_data@, Some(0), None, "AddtlData"@, here);
            lemma_more_added(before, expected, added);
            expected = expected + added;
        }
    }
}

/// Text of 1 to 500 characters that matches `[A-Za-z0-9+/]{4}*(?:[A-Za-z0-9+/]{2}==|[A-Za-z0-9+/]{3}=)?`.
#[derive(Debug, Default, Clone, PartialEq)]
pub struct Max500Binary {
    pub value: String,
}

impl Validate for Max500Binary {
    open spec fn violations(&self, path: Seq<SegmentModel>) -> Seq<ReportModel> {
        Seq::empty()
            + length_reports(self.value@, Some(1), Some(500), path)
            + pattern_reports(self.value@, "[A-Za-z0-9+/]{4}*(?:[A-Za-z0-9+/]{2}==|[A-Za-z0-9+/]{3}=)?"@, path)
    }

    fn validate_into(
        &self,
        path: &Vec<PathSegment>,
        patterns: &IdentifierPatterns,
        out: &mut Vec<ValidationViolation>,
    ) {
        let ghost before = reports_model(out@);
        let ghost here = path_model(path@);
        let ghost mut expected = Seq::<ReportModel>::empty();
        proof {
            lemma_nothing_added(before);
        }
        report_length(self.value.as_str(), Some(1), Some(500), path, out);
        proof {
            let added = length_reports(self.value@, Some(1), Some(500), here);
            lemma_more_added(before, expected, added);
            expected = expected + added;
        }
        report_pattern(self.value.as_str(), patterns.max_500_binary(), path, out);
        proof {
            let added = pattern_reports(self.value@, "[A-Za-z0-9+/]{4}*(?:[A-Za-z0-9+/]{2}==|[A-Za-z0-9+/]{3}=)?"@, here);
            lemma_more_added(before, expected, added);
            expected = expected + added;
        }
    }
}

/// Text of 1 to 1000 characters.
#[derive(Debug, Default, Clone, PartialEq)]
pub struct Max1000Text {
    /// The text of the element.
    pub value: String,
}

impl Validate for Max1000Text {
    open spec fn violations(&self, path: Seq<SegmentModel>) -> Seq<ReportModel> {
        Seq::empty()
            + length_reports(self.value@, Some(1), Some(1000), path)
    }

    fn validate_into(
        &self,
        path: &Vec<PathSegment>,
        patterns: &IdentifierPatterns,
        out: &mut Vec<ValidationViolation>,
    ) {
        let ghost before = reports_model(out@);
        let ghost here = path_model(path@);
        let ghost mut expected = Seq::<ReportModel>::empty();
        proof {
            lemma_nothing_added(before);
        }
        report_length(self.value.as_str(), Some(1), Some(1000), path, out);
        proof {
            let added = length_reports(self.value@, Some(1), Some(1000), here);
            lemma_more_added(before, expected, added);
            expected = expected + added;
        }
    }
}

#[derive(Debug, Default, Clone, PartialEq)]
pub enum ActionType10Code {
    /// Serialized as `ACTV`.
    Actv,
    /// Serialized as `DEAC`.
    Deac,
    /// Serialized as `DISP`.
    Disp,
    /// Serialized as `FUPD`.
    Fupd,
    /// Serialized as `PRNT`.
    Prnt,
    /// Serialized as `SNDM`.
    Sndm,
    #[default]
    Unknown,
}

impl Validate for ActionType10Code {
    open spec fn violations(&self, path: Seq<SegmentModel>) -> Seq<ReportModel> {
        Seq::empty()
    }

    fn validate_into(
        &self,
        path: &Vec<PathSegment>,
        patterns: &IdentifierPatterns,
        out: &mut Vec<ValidationViolation>,
    ) {
        proof {
            lemma_nothing_added(reports_model(out@));
        }
    }
}

#[derive(Debug, Default, Clone, PartialEq)]
pub struct AdditionalAction1 {
    /// Serialized as `Tp`.
    pub tp: Option<ActionType10Code>,
    /// Serialized as `Dstn`.
    pub dstn: Option<PartyType21Code>,
    /// Serialized as `OthrDstn`.
    pub othr_dstn: Option<Max35Text>,
    /// Serialized as `DstnTp`.
    pub dstn_tp: Option<ActionDestination1Code>,
    /// Serialized as `OthrDstnTp`.
    pub othr_dstn_tp: Option<Max35Text>,
    /// Serialized as `DstnAdr`.
    pub dstn_adr: Option<Max70Text>,
    /// Serialized as `Frmt`.
    pub frmt: Option<OutputFormat4Code>,
    /// Serialized as `OthrFrmt`.
    pub othr_frmt: Option<Max35Text>,
    /// Serialized as `Cntt`.
    pub cntt: Option<Content1>,
}

impl Validate for AdditionalAction1 {
    open spec fn violations(&self, path: Seq<SegmentModel>) -> Seq<ReportModel> {
        Seq::empty()
            + optional_reports(self.tp, "Tp"@, path)
            + optional_reports(self.dstn, "Dstn"@, path)
            + optional_reports(self.othr_dstn, "OthrDstn"@, path)
            + optional_reports(self.dstn_tp, "DstnTp"@, path)
            + optional_reports(self.othr_dstn_tp, "OthrDstnTp"@, path)
            + optional_reports(self.dstn_adr, "DstnAdr"@, path)
            + optional_reports(self.frmt, "Frmt"@, path)
            + optional_reports(self.othr_frmt, "OthrFrmt"@, path)
            + optional_reports(self.cntt, "Cntt"@, path)
    }

    fn validate_into(
        &self,
        path: &Vec<PathSegment>,
        patterns: &IdentifierPatterns,
        out: &mut Vec<ValidationViolation>,
    ) {
        let ghost before = reports_model(out@);
        let ghost here = path_model(path@);
        let ghost mut expected = Seq::<ReportModel>::empty();
        proof {
            lemma_nothing_added(before);
        }
        validate_optional(&self.tp, "Tp", path, patterns, out);
        proof {
            let added = optional_reports(self.tp, "Tp"@, here);
            lemma_more_added(before, expected, added);
            expected = expected + added;
        }
        validate_optional(&self.dstn, "Dstn", path, patterns, out);
        proof {
            let added = optional_reports(self.dstn, "Dstn"@, here);
            lemma_more_added(before, expected, added);
            expected = expected + added;
        }
        validate_optional(&self.othr_dstn, "OthrDstn", path, patterns, out);
        proof {
            let added = optional_reports(self.othr_dstn, "OthrDstn"@, here);
            lemma_more_added(before, expected, added);
            expected = expected + added;
        }
        validate_optional(&self.dstn_tp, "DstnTp", path, patterns, out);
        proof {
            let added = optional_reports(self.dstn_tp, "DstnTp"@, here);
            lemma_more_added(before, expected, added);
            expected = expected + added;
        }
        validate_optional(&self.othr_dstn_tp, "OthrDstnTp", path, patterns, out);
        proof {
            let added = optional_reports(self.othr_dstn_tp, "OthrDstnTp"@, here);
            lemma_more_added(before, expected, added);
            expected = expected + added;
        }
        validate_optional(&self.dstn_adr, "DstnAdr", path, patterns, out);
        proof {
            let added = optional_reports(self.dstn_adr, "DstnAdr"@, here);
            lemma_more_added(before, expected, added);
            expected = expected + added;
        }
        validate_optional(&self.frmt, "Frmt", path, patterns, out);
        proof {
            let added = optional_reports(self.frmt, "Frmt"@, here);
            lemma_more_added(before, expected, added);
            expected = expected + added;
        }
        validate_optional(&self.othr_frmt, "OthrFrmt", path, patterns, out);
        proof {
            let added = optional_reports(self.othr_frmt, "OthrFrmt"@, here);
            lemma_more_added(before, expected, added);
            expected = expected + added;
        }
        validate_optional(&self.cntt, "Cntt", path, patterns, out);
        proof {
            let added = optional_reports(self.cntt, "Cntt"@, here);
            lemma_more_added(before, expected, added);
            expected = expected + added;
        }
    }
}

#[derive(Debug, Default, Clone, PartialEq)]
pub enum Priority3Code {
    /// Serialized as `URGT`.
    Urgt,
    /// Serialized as `HIGH`.
    High,
    /// Serialized as `NORM`.
    Norm,
    #[default]
    Unknown,
}

impl Validate for Priority3Code {
    open spec fn violations(&self, path: Seq<SegmentModel>) -> Seq<ReportModel> {
        Seq::empty()
    }

    fn validate_into(
        &self,
        path: &Vec<PathSegment>,
        patterns: &IdentifierPatterns,
        out: &mut Vec<ValidationViolation>,
    ) {
        proof {
            lemma_nothing_added(reports_model(out@));
        }
    }
}

#[derive(Debug, Default, Clone, PartialEq)]
pub struct FeeAmount3 {
    /// Serialized as `Amt`.
    pub amt: ImpliedCurrencyAndAmount,
    /// Serialized as `CdtDbt`.
    pub cdt_dbt: Option<CreditDebit3Code>,
    /// Serialized as `Ccy`.
    pub ccy: Option<Iso3NumericCurrencyCode>,
    /// Serialized as `FctvXchgRate`.
    pub fctv_xchg_rate: Option<BaseOne25Rate>,
    /// Serialized as `ConvsDt`.
    pub convs_dt: Option<IsoDate>,
    /// Serialized as `ConvsTm`.
    pub convs_tm: Option<IsoTime>,
}

impl Validate for FeeAmount3 {
    open spec fn violations(&self, path: Seq<SegmentModel>) -> Seq<ReportModel> {
        Seq::empty()
            + field_reports(self.amt, "Amt"@, path)
            + optional_reports(self.cdt_dbt, "CdtDbt"@, path)
            + optional_reports(self.ccy, "Ccy"@, path)
            + optional_reports(self.fctv_xchg_rate, "FctvXchgRate"@, path)
            + optional_reports(self.convs_dt, "ConvsDt"@, path)
            + optional_reports(self.convs_tm, "ConvsTm"@, path)
    }

    fn validate_into(
        &self,
        path: &Vec<PathSegment>,
        patterns: &IdentifierPatterns,
        out: &mut Vec<ValidationViolation>,
    ) {
        let ghost before = reports_model(out@);
        let ghost here = path_model(path@);
        let ghost mut expected = Seq::<ReportModel>::empty();
        proof {
            lemma_nothing_added(before);
        }
        validate_field(&self.amt, "Amt", path, patterns, out);
        proof {
            let added = field_reports(self.amt, "Amt"@, here);
            lemma_more_added(before, expected, added);
            expected = expected + added;
        }
        validate_optional(&self.cdt_dbt, "CdtDbt", path, patterns, out);
        proof {
            let added = optional_reports(self.cdt_dbt, "CdtDbt"@, here);
            lemma_more_added(before, expected, added);
            expected = expected + added;
        }
        validate_optional(&self.ccy, "Ccy", path, patterns, out);
        proof {
            let added = optional_reports(self.ccy, "Ccy"@, here);
            lemma_more_added(before, expected, added);
            expected = expected + added;
        }
        validate_optional(&self.fctv_xchg_rate, "FctvXchgRate", path, patterns, out);
        proof {
            let added = optional_reports(self.fctv_xchg_rate, "FctvXchgRate"@, here);
            lemma_more_added(before, expected, added);
            expected = expected + added;
        }
        validate_optional(&self.convs_dt, "ConvsDt", path, patterns, out);
        proof {
            let added = optional_reports(self.convs_dt, "ConvsDt"@, here);
            lemma_more_added(before, expected, added);
            expected = expected + added;
        }
        validate_optional(&self.convs_tm, "ConvsTm", path, patterns, out);
        proof {
            let added = optional_reports(self.convs_tm, "ConvsTm"@, here);
            lemma_more_added(before, expected, added);
            expected = expected + added;
        }
    }
}

#[derive(Debug, Default, Clone, PartialEq)]
pub struct KeyTransport6 {
    /// Serialized as `Vrsn`.
    pub vrsn: Option<Number>,
    /// Serialized as `RcptId`.
    pub rcpt_id: Recipient5Choice,
    /// Serialized as `KeyNcrptnAlgo`.
    pub key_ncrptn_algo: AlgorithmIdentification27,
    /// Serialized as `NcrptdKey`.
    pub ncrptd_key: Max5000Binary,
}

impl Validate for KeyTransport6 {
    open spec fn violations(&self, path: Seq<SegmentModel>) -> Seq<ReportModel> {
        Seq::empty()
            + optional_reports(self.vrsn, "Vrsn"@, path)
            + field_reports(self.rcpt_id, "RcptId"@, path)
            + field_reports(self.key_ncrptn_algo, "KeyNcrptnAlgo"@, path)
            + field_reports(self.ncrptd_key, "NcrptdKey"@, path)
    }

    fn validate_into(
        &self,
        path: &Vec<PathSegment>,
        patterns: &IdentifierPatterns,
        out: &mut Vec<ValidationViolation>,
    ) {
        let ghost before = reports_model(out@);
        let ghost here = path_model(path@);
        let ghost mut expected = Seq::<ReportModel>::empty();
        proof {
            lemma_nothing_added(before);
        }
        validate_optional(&self.vrsn, "Vrsn", path, patterns, out);
        proof {
            let added = optional_reports(self.vrsn, "Vrsn"@, here);
            lemma_more_added(before, expected, added);
            expected = expected + added;
        }
        validate_field(&self.rcpt_id, "RcptId", path, patterns, out);
        proof {
            let added = field_reports(self.rcpt_id, "RcptId"@, here);
            lemma_more_added(before, expected, added);
            expected = expected + added;
        }
        validate_field(&self.key_ncrptn_algo, "KeyNcrptnAlgo", path, patterns, out);
        proof {
            let added = field_reports(self.key_ncrptn_algo, "KeyNcrptnAlgo"@, here);
            lemma_more_added(before, expected, added);
            expected = expected + added;
        }
        validate_field(&self.ncrptd_key, "NcrptdKey", path, patterns, out);
        proof {
            let added = field_reports(self.ncrptd_key, "NcrptdKey"@, here);
            lemma_more_added(before, expected, added);
            expected = expected + added;
        }
    }
}

/// Text that matches `^-?\d{4}-(0[1-9]|1[0-2])([+-]\d{2}:\d{2}|Z)?$`.
#[derive(Debug, Default, Clone, PartialEq)]
pub struct IsoYearMonth {
    /// The text of the element.
    pub value: String,
}

impl Validate for IsoYearMonth {
    open spec fn violations(&self, path: Seq<SegmentModel>) -> Seq<ReportModel> {
        Seq::empty()
            + pattern_reports(self.value@, "^-?\\d{4}-(0[1-9]|1[0-2])([+-]\\d{2}:\\d{2}|Z)?$"@, path)
    }

    fn validate_into(
        &self,
        path: &Vec<PathSegment>,
        patterns: &IdentifierPatterns,
        out: &mut Vec<ValidationViolation>,
    ) {
        let ghost before = reports_model(out@);
        let ghost here = path_model(path@);
        let ghost mut expected = Seq::<ReportModel>::empty();
        proof {
            lemma_nothing_added(before);
        }
        report_pattern(self.value.as_str(), patterns.iso_year_month(), path, out);
        proof {
            let added = pattern_reports(self.value@, "^-?\\d{4}-(0[1-9]|1[0-2])([+-]\\d{2}:\\d{2}|Z)?$"@, here);
            lemma_more_added(before, expected, added);
            expected = expected + added;
        }
    }
}

#[derive(Debug, Default, Clone, PartialEq)]
pub enum UserInterface6Code {
    /// Serialized as `CDSP`.
    Cdsp,
    /// Serialized as `CRCP`.
    Crcp,
    /// Serialized as `MDSP`.
    Mdsp,
    /// Serialized as `MRCP`.
    Mrcp,
    /// Serialized as `CRDO`.
    Crdo,
    /// Serialized as `FILE`.
    File,
    /// Serialized as `CHAP`.
    Chap,
    /// Serialized as `MRAP`.
    Mrap,
    /// Serialized as `MRIN`.
    Mrin,
    #[default]
    Unknown,
}

impl Validate for UserInterface6Code {
    open spec fn violations(&self, path: Seq<SegmentModel>) -> Seq<ReportModel> {
        Seq::empty()
    }

    fn validate_into(
        &self,
        path: &Vec<PathSegment>,
        patterns: &IdentifierPatterns,
        out: &mut Vec<ValidationViolation>,
    ) {
        proof {
            lemma_nothing_added(reports_model(out@));
        }
    }
}

/// Text that matches `[0-9]{1,8}`.
#[derive(Debug, Default, Clone, PartialEq)]
pub struct Max8NumericText {
    /// The text of the element.
    pub value: String,
}

impl Validate for Max8NumericText {
    open spec fn violations(&self, path: Seq<SegmentModel>) -> Seq<ReportModel> {
        Seq::empty()
            + pattern_reports(self.value@, "[0-9]{1,8}"@, path)
    }

    fn validate_into(
        &self,
        path: &Vec<PathSegment>,
        patterns: &IdentifierPatterns,
        out: &mut Vec<ValidationViolation>,
    ) {
        let ghost before = reports_model(out@);
        let ghost here = path_model(path@);
        let ghost mut expected = Seq::<ReportModel>::empty();
        proof {
            lemma_nothing_added(before);
        }
        report_pattern(self.value.as_str(), patterns.max_8_numeric_text(), path, out);
        proof {
            let added = pattern_reports(self.value@, "[0-9]{1,8}"@, here);
            lemma_more_added(before, expected, added);
            expected = expected + added;
        }
    }
}

#[derive(Debug, Default, Clone, PartialEq)]
pub enum FeeCollectionInitiator1Code {
    /// Serialized as `ACQR`.
    Acqr,
    /// Serialized as `AGNT`.
    Agnt,
    /// Serialized as `CISS`.
    Ciss,
    /// Serialized as `OTHN`.
    Othn,
    /// Serialized as `OTHP`.
    Othp,
    #[default]
    Unknown,
}

impl Validate for FeeCollectionInitiator1Code {
    open spec fn violations(&self, path: Seq<SegmentModel>) -> Seq<ReportModel> {
        Seq::empty()
    }

    fn validate_into(
        &self,
        path: &Vec<PathSegment>,
        patterns: &IdentifierPatterns,
        out: &mut Vec<ValidationViolation>,
    ) {
        proof {
            lemma_nothing_added(reports_model(out@));
        }
    }
}

#[derive(Debug, Default, Clone, PartialEq)]
pub struct AlgorithmIdentification27 {
    /// Serialized as `Algo`.
    pub algo: Algorithm7Code,
    /// Serialized as `Param`.
    pub param: Option<Parameter13>,
}

impl Validate for AlgorithmIdentification27 {
    open spec fn violations(&self, path: Seq<SegmentModel>) -> Seq<ReportModel> {
        Seq::empty()
            + field_reports(self.algo, "Algo"@, path)
            + optional_reports(self.param, "Param"@, path)
    }

    fn validate_into(
        &self,
        path: &Vec<PathSegment>,
        patterns: &IdentifierPatterns,
        out: &mut Vec<ValidationViolation>,
    ) {
        let ghost before = reports_model(out@);
        let ghost here = path_model(path@);
        let ghost mut expected = Seq::<ReportModel>::empty();
        proof {
            lemma_nothing_added(before);
        }
        validate_field(&self.algo, "Algo", path, patterns, out);
        proof {
            let added = field_reports(self.algo, "Algo"@, here);
            lemma_more_added(before, expected, added);
            expected = expected + added;
        }
        validate_optional(&self.param, "Param", path, patterns, out);
        proof {
            let added = optional_reports(self.param, "Param"@, here);
            lemma_more_added(before, expected, added);
            expected = expected + added;
        }
    }
}

#[derive(Debug, Default, Clone, PartialEq)]
pub struct Exact12Text {
    /// The text of the element.
    pub value: String,
}

impl Validate for Exact12Text {
    open spec fn violations(&self, path: Seq<SegmentModel>) -> Seq<ReportModel> {
        Seq::empty()
    }

    fn validate_into(
        &self,
        path: &Vec<PathSegment>,
        patterns: &IdentifierPatterns,
        out: &mut Vec<ValidationViolation>,
    ) {
        proof {
            lemma_nothing_added(reports_model(out@));
        }
    }
}

/// Text that matches `[0-9]{2}`.
#[derive(Debug, Default, Clone, PartialEq)]
pub struct Exact2NumericText {
    /// The text of the element.
    pub value: String,
}

impl Validate for Exact2NumericText {
    open spec fn violations(&self, path: Seq<SegmentModel>) -> Seq<ReportModel> {
        Seq::empty()
            + pattern_reports(self.value@, "[0-9]{2}"@, path)
    }

    fn validate_into(
        &self,
        path: &Vec<PathSegment>,
        patterns: &IdentifierPatterns,
        out: &mut Vec<ValidationViolation>,
    ) {
        let ghost before = reports_model(out@);
        let ghost here = path_model(path@);
        let ghost mut expected = Seq::<ReportModel>::empty();
        proof {
            lemma_nothing_added(before);
        }
        report_pattern(self.value.as_str(), patterns.exact_2_numeric_text(), path, out);
        proof {
            let added = pattern_reports(self.value@, "[0-9]{2}"@, here);
            lemma_more_added(before, expected, added);
            expected = expected + added;
        }
    }
}

/// Text of 1 to 500 characters.
#[derive(Debug, Default, Clone, PartialEq)]
pub struct Max500Text {
    /// The text of the element.
    pub value: String,
}

impl Validate for Max500Text {
    open spec fn violations(&self, path: Seq<SegmentModel>) -> Seq<ReportModel> {
        Seq::empty()
            + length_reports(self.value@, Some(1), Some(500), path)
    }

    fn validate_into(
        &self,
        path: &Vec<PathSegment>,
        patterns: &IdentifierPatterns,
        out: &mut Vec<ValidationViolation>,
    ) {
        let ghost before = reports_model(out@);
        let ghost here = path_model(path@);
        let ghost mut expected = Seq::<ReportModel>::empty();
        proof {
            lemma_nothing_added(before);
        }
        report_length(self.value.as_str(), Some(1), Some(500), path, out);
        proof {
            let added = length_reports(self.value@, Some(1), Some(500), here);
            lemma_more_added(before, expected, added);
            expected = expected + added;
        }
    }
}

/// Text that matches `[A-Z]{2,3}`.
#[derive(Debug, Default, Clone, PartialEq)]
pub struct IsoMax3ACountryCode {
    /// The text of the element.
    pub value: String,
}

impl Validate for IsoMax3ACountryCode {
    open spec fn violations(&self, path: Seq<SegmentModel>) -> Seq<ReportModel> {
        Seq::empty()
            + pattern_reports(self.value@, "[A-Z]{2,3}"@, path)
    }

    fn validate_into(
        &self,
        path: &Vec<PathSegment>,
        patterns: &IdentifierPatterns,
        out: &mut Vec<ValidationViolation>,
    ) {
        let ghost before = reports_model(out@);
        let ghost here = path_model(path@);
        let ghost mut expected = Seq::<ReportModel>::empty();
        proof {
            lemma_nothing_added(before);
        }
        report_pattern(self.value.as_str(), patterns.iso_max_3_a_country_code(), path, out);
        proof {
            let added = pattern_reports(self.value@, "[A-Z]{2,3}"@, here);
            lemma_more_added(before, expected, added);
            expected = expected + added;
        }
    }
}

/// Text that matches `[0-9]{4,4}`.
#[derive(Debug, Default, Clone, PartialEq)]
pub struct Iso18245MerchantCategoryCode {
    /// The text of the element.
    pub value: String,
}

impl Validate for Iso18245MerchantCategoryCode {
    open spec fn violations(&self, path: Seq<SegmentModel>) -> Seq<ReportModel> {
        Seq::empty()
            + pattern_reports(self.value@, "[0-9]{4,4}"@, path)
    }

    fn validate_into(
        &self,
        path: &Vec<PathSegment>,
        patterns: &IdentifierPatterns,
        out: &mut Vec<ValidationViolation>,
    ) {
        let ghost before = reports_model(out@);
        let ghost here = path_model(path@);
        let ghost mut expected = Seq::<ReportModel>::empty();
        proof {
            lemma_nothing_added(before);
        }
        report_pattern(self.value.as_str(), patterns.iso_18245_merchant_category_code(), path, out);
        proof {
            let added = pattern_reports(self.value@, "[0-9]{4,4}"@, here);
            lemma_more_added(before, expected, added);
            expected = expected + added;
        }
    }
}

#[derive(Debug, Default, Clone, PartialEq)]
pub struct ContentInformationType20 {
    /// Serialized as `MACData`.
    pub mac_data: MacData1,
    /// Serialized as `MAC`.
    pub mac: Max8HexBinaryText,
}

impl Validate for ContentInformationType20 {
    open spec fn violations(&self, path: Seq<SegmentModel>) -> Seq<ReportModel> {
        Seq::empty()
            + field_reports(self.mac_data, "MACData"@, path)
            + field_reports(self.mac, "MAC"@, path)
    }

    fn validate_into(
        &self,
        path: &Vec<PathSegment>,
        patterns: &IdentifierPatterns,
        out: &mut Vec<ValidationViolation>,
    ) {
        let ghost before = reports_model(out@);
        let ghost here = path_model(path@);
        let ghost mut expected = Seq::<ReportModel>::empty();
        proof {
            lemma_nothing_added(before);
        }
        validate_field(&self.mac_data, "MACData", path, patterns, out);
        proof {
            let added = field_reports(self.mac_data, "MACData"@, here);
            lemma_more_added(before, expected, added);
            expected = expected + added;
        }
        validate_field(&self.mac, "MAC", path, patterns, out);
        proof {
            let added = field_reports(self.mac, "MAC"@, here);
            lemma_more_added(before, expected, added);
            expected = expected + added;
        }
    }
}

#[derive(Debug, Default, Clone, PartialEq)]
pub struct OriginalDataElements2 {
    /// Serialized as `MsgClss`.
    pub msg_clss: Option<MessageClass1Code>,
    /// Serialized as `MsgFctn`.
    pub msg_fctn: Option<MessageFunction16Code>,
    /// Serialized as `TxTp`.
    pub tx_tp: Option<Iso8583TransactionTypeCode>,
    /// Serialized as `AcqrrId`.
    pub acqrr_id: Option<Max11NumericText>,
    /// Serialized as `SndrId`.
    pub sndr_id: Option<Max11NumericText>,
    /// Serialized as `LclDt`.
    pub lcl_dt: Option<IsoDate>,
    /// Serialized as `LclTm`.
    pub lcl_tm: Option<IsoTime>,
    /// Serialized as `TmZone`.
    pub tm_zone: Option<Max70Text>,
    /// Serialized as `TxRef`.
    pub tx_ref: Option<Max35Text>,
    /// Serialized as `TrnsmssnDtTm`.
    pub trnsmssn_dt_tm: Option<IsoDateTime>,
    /// Serialized as `SysTracAudtNb`.
    pub sys_trac_audt_nb: Option<Max12NumericText>,
    /// Serialized as `RtrvlRefNb`.
    pub rtrvl_ref_nb: Option<Exact12Text>,
    /// Serialized as `LifeCyclSpprt`.
    pub life_cycl_spprt: Option<LifeCycleSupport1Code>,
    /// Serialized as `LifeCyclTracIdData`.
    pub life_cycl_trac_id_data: Option<TransactionLifeCycleIdentification1>,
    /// Serialized as `LifeCyclTracIdMssng`.
    pub life_cycl_trac_id_mssng: Option<Max70Text>,
    /// Serialized as `AcqrrRefData`.
    pub acqrr_ref_data: Option<Max140Text>,
    /// Serialized as `AcqrrRefNb`.
    pub acqrr_ref_nb: Option<Max23NumericText>,
    /// Serialized as `CardIssrRefData`.
    pub card_issr_ref_data: Option<Max1000Text>,
}

impl Validate for OriginalDataElements2 {
    open spec fn violations(&self, path: Seq<SegmentModel>) -> Seq<ReportModel> {
        Seq::empty()
            + optional_reports(self.msg_clss, "MsgClss"@, path)
            + optional_reports(self.msg_fctn, "MsgFctn"@, path)
            + optional_reports(self.tx_tp, "TxTp"@, path)
            + optional_reports(self.acqrr_id, "AcqrrId"@, path)
            + optional_reports(self.sndr_id, "SndrId"@, path)
            + optional_reports(self.lcl_dt, "LclDt"@, path)
            + optional_reports(self.lcl_tm, "LclTm"@, path)
            + optional_reports(self.tm_zone, "TmZone"@, path)
            + optional_reports(self.tx_ref, "TxRef"@, path)
            + optional_reports(self.trnsmssn_dt_tm, "TrnsmssnDtTm"@, path)
            + optional_reports(self.sys_trac_audt_nb, "SysTracAudtNb"@, path)
            + optional_reports(self.rtrvl_ref_nb, "RtrvlRefNb"@, path)
            + optional_reports(self.life_cycl_spprt, "LifeCyclSpprt"@, path)
            + optional_reports(self.life_cycl_trac_id_data, "LifeCyclTracIdData"@, path)
            + optional_reports(self.life_cycl_trac_id_mssng, "LifeCyclTracIdMssng"@, path)
            + optional_reports(self.acqrr_ref_data, "AcqrrRefData"@, path)
            + optional_reports(self.acqrr_ref_nb, "AcqrrRefNb"@, path)
            + optional_reports(self.card_issr_ref_data, "CardIssrRefData"@, path)
    }

    fn validate_into(
        &self,
        path: &Vec<PathSegment>,
        patterns: &IdentifierPatterns,
        out: &mut Vec<ValidationViolation>,
    ) {
        let ghost before = reports_model(out@);
        let ghost here = path_model(path@);
        let ghost mut expected = Seq::<ReportModel>::empty();
        proof {
            lemma_nothing_added(before);
        }
        validate_optional(&self.msg_clss, "MsgClss", path, patterns, out);
        proof {
            let added = optional_reports(self.msg_clss, "MsgClss"@, here);
            lemma_more_added(before, expected, added);
            expected = expected + added;
        }
        validate_optional(&self.msg_fctn, "MsgFctn", path, patterns, out);
        proof {
            let added = optional_reports(self.msg_fctn, "MsgFctn"@, here);
            lemma_more_added(before, expected, added);
            expected = expected + added;
        }
        validate_optional(&self.tx_tp, "TxTp", path, patterns, out);
        proof {
            let added = optional_reports(self.tx_tp, "TxTp"@, here);
            lemma_more_added(before, expected, added);
            expected = expected + added;
        }
        validate_optional(&self.acqrr_id, "AcqrrId", path, patterns, out);
        proof {
            let added = optional_reports(self.acqrr_id, "AcqrrId"@, here);
            lemma_more_added(before, expected, added);
            expected = expected + added;
        }
        validate_optional(&self.sndr_id, "SndrId", path, patterns, out);
        proof {
            let added = optional_reports(self.sndr_id, "SndrId"@, here);
            lemma_more_added(before, expected, added);
            expected = expected + added;
        }
        validate_optional(&self.lcl_dt, "LclDt", path, patterns, out);
        proof {
            let added = optional_reports(self.lcl_dt, "LclDt"@, here);
            lemma_more_added(before, expected, added);
            expected = expected + added;
        }
        validate_optional(&self.lcl_tm, "LclTm", path, patterns, out);
        proof {
            let added = optional_reports(self.lcl_tm, "LclTm"@, here);
            lemma_more_added(before, expected, added);
            expected = expected + added;
        }
        validate_optional(&self.tm_zone, "TmZone", path, patterns, out);
        proof {
            let added = optional_reports(self.tm_zone, "TmZone"@, here);
            lemma_more_added(before, expected, added);
            expected = expected + added;
        }
        validate_optional(&self.tx_ref, "TxRef", path, patterns, out);
        proof {
            let added = optional_reports(self.tx_ref, "TxRef"@, here);
            lemma_more_added(before, expected, added);
            expected = expected + added;
        }
        validate_optional(&self.trnsmssn_dt_tm, "TrnsmssnDtTm", path, patterns, out);
        proof {
            let added = optional_reports(self.trnsmssn_dt_tm, "TrnsmssnDtTm"@, here);
            lemma_more_added(before, expected, added);
            expected = expected + added;
        }
        validate_optional(&self.sys_trac_audt_nb, "SysTracAudtNb", path, patterns, out);
        proof {
            let added = optional_reports(self.sys_trac_audt_nb, "SysTracAudtNb"@, here);
            lemma_more_added(before, expected, added);
            expected = expected + added;
        }
        validate_optional(&self.rtrvl_ref_nb, "RtrvlRefNb", path, patterns, out);
        proof {
            let added = optional_reports(self.rtrvl_ref_nb, "RtrvlRefNb"@, here);
            lemma_more_added(before, expected, added);
            expected = expected + added;
        }
        validate_optional(&self.life_cycl_spprt, "LifeCyclSpprt", path, patterns, out);
        proof {
            let added = optional_reports(self.life_cycl_spprt, "LifeCyclSpprt"@, here);
            lemma_more_added(before, expected, added);
            expected = expected + added;
        }
        validate_optional(&self.life_cycl_trac_id_data, "LifeCyclTracIdData", path, patterns, out);
        proof {
            let added = optional_reports(self.life_cycl_trac_id_data, "LifeCyclTracIdData"@, here);
            lemma_more_added(before, expected, added);
            expected = expected + added;
        }
        validate_optional(&self.life_cycl_trac_id_mssng, "LifeCyclTracIdMssng", path, patterns, out);
        proof {
            let added = optional_reports(self.life_cycl_trac_id_mssng, "LifeCyclTracIdMssng"@, here);
            lemma_more_added(before, expected, added);
            expected = expected + added;
        }
        validate_optional(&self.acqrr_ref_data, "AcqrrRefData", path, patterns, out);
        proof {
            let added = optional_reports(self.acqrr_ref_data, "AcqrrRefData"@, here);
            lemma_more_added(before, expected, added);
            expected = expected + added;
        }
        validate_optional(&self.acqrr_ref_nb, "AcqrrRefNb", path, patterns, out);
        proof {
            let added = optional_reports(self.acqrr_ref_nb, "AcqrrRefNb"@, here);
            lemma_more_added(before, expected, added);
            expected = expected + added;
        }
        validate_optional(&self.card_issr_ref_data, "CardIssrRefData", path, patterns, out);
        proof {
            let added = optional_reports(self.card_issr_ref_data, "CardIssrRefData"@, here);
            lemma_more_added(before, expected, added);
            expected = expected + added;
        }
    }
}

#[derive(Debug, Default, Clone, PartialEq)]
pub enum OutputFormat4Code {
    /// Serialized as `FLNM`.
    Flnm,
    /// Serialized as `MREF`.
    Mref,
    /// Serialized as `OTHN`.
    Othn,
    /// Serialized as `OTHP`.
    Othp,
    /// Serialized as `SMSI`.
    Smsi,
    /// Serialized as `TEXT`.
    Text,
    /// Serialized as `URLI`.
    Urli,
    /// Serialized as `HTML`.
    Html,
    #[default]
    Unknown,
}

impl Validate for OutputFormat4Code {
    open spec fn violations(&self, path: Seq<SegmentModel>) -> Seq<ReportModel> {
        Seq::empty()
    }

    fn validate_into(
        &self,
        path: &Vec<PathSegment>,
        patterns: &IdentifierPatterns,
        out: &mut Vec<ValidationViolation>,
    ) {
        proof {
            lemma_nothing_added(reports_model(out@));
        }
    }
}

#[derive(Debug, Default, Clone, PartialEq)]
pub enum EncryptedDataFormat1Code {
    /// Serialized as `ASCI`.
    Asci,
    /// Serialized as `BINF`.
    Binf,
    /// Serialized as `EBCD`.
    Ebcd,
    /// Serialized as `HEXF`.
    Hexf,
    /// Serialized as `OTHN`.
    Othn,
    /// Serialized as `OTHP`.
    Othp,
    #[default]
    Unknown,
}

impl Validate for EncryptedDataFormat1Code {
    open spec fn violations(&self, path: Seq<SegmentModel>) -> Seq<ReportModel> {
        Seq::empty()
    }

    fn validate_into(
        &self,
        path: &Vec<PathSegment>,
        patterns: &IdentifierPatterns,
        out: &mut Vec<ValidationViolation>,
    ) {
        proof {
            lemma_nothing_added(reports_model(out@));
        }
    }
}

#[derive(Debug, Default, Clone, PartialEq)]
pub struct AdditionalInformation29 {
    /// Serialized as `Rcpt`.
    pub rcpt: Option<PartyType22Code>,
    /// Serialized as `OthrRcpt`.
    pub othr_rcpt: Option<Max35Text>,
    /// Serialized as `Trgt`.
    pub trgt: Vec<UserInterface6Code>,
    /// Serialized as `OthrTrgt`.
    pub othr_trgt: Option<Max35Text>,
    /// Serialized as `Frmt`.
    pub frmt: Option<OutputFormat4Code>,
    /// Serialized as `OthrFrmt`.
    pub othr_frmt: Option<Max35Text>,
    /// Serialized as `Tp`.
    pub tp: Option<Max35Text>,
    /// Serialized as `Lang`.
    pub lang: IsoMax3ALanguageCode,
    /// Serialized as `Val`.
    pub val: Max20KText,
}

impl Validate for AdditionalInformation29 {
    open spec fn violations(&self, path: Seq<SegmentModel>) -> Seq<ReportModel> {
        Seq::empty()
            + optional_reports(self.rcpt, "Rcpt"@, path)
            + optional_reports(self.othr_rcpt, "OthrRcpt"@, path)
            + list_reports(self.trgt@, Some(0), None, "Trgt"@, path)
            + optional_reports(self.othr_trgt, "OthrTrgt"@, path)
            + optional_reports(self.frmt, "Frmt"@, path)
            + optional_reports(self.othr_frmt, "OthrFrmt"@, path)
            + optional_reports(self.tp, "Tp"@, path)
            + field_reports(self.lang, "Lang"@, path)
            + field_reports(self.val, "Val"@, path)
    }

    fn validate_into(
        &self,
        path: &Vec<PathSegment>,
        patterns: &IdentifierPatterns,
        out: &mut Vec<ValidationViolation>,
    ) {
        let ghost before = reports_model(out@);
        let ghost here = path_model(path@);
        let ghost mut expected = Seq::<ReportModel>::empty();
        proof {
            lemma_nothing_added(before);
        }
        validate_optional(&self.rcpt, "Rcpt", path, patterns, out);
        proof {
            let added = optional_reports(self.rcpt, "Rcpt"@, here);
            lemma_more_added(before, expected, added);
            expected = expected + added;
        }
        validate_optional(&self.othr_rcpt, "OthrRcpt", path, patterns, out);
        proof {
            let added = optional_reports(self.othr_rcpt, "OthrRcpt"@, here);
            lemma_more_added(before, expected, added);
            expected = expected + added;
        }
        validate_list(&self.trgt, Some(0), None, "Trgt", path, patterns, out);
        proof {
            let added = list_reports(self.trgt@, Some(0), None, "Trgt"@, here);
            lemma_more_added(before, expected, added);
            expected = expected + added;
        }
        validate_optional(&self.othr_trgt, "OthrTrgt", path, patterns, out);
        proof {
            let added = optional_reports(self.othr_trgt, "OthrTrgt"@, here);
            lemma_more_added(before, expected, added);
            expected = expected + added;
        }
        validate_optional(&self.frmt, "Frmt", path, patterns, out);
        proof {
            let added = optional_reports(self.frmt, "Frmt"@, here);
            lemma_more_added(before, expected, added);
            expected = expected + added;
        }
        validate_optional(&self.othr_frmt, "OthrFrmt", path, patterns, out);
        proof {
            let added = optional_reports(self.othr_frmt, "OthrFrmt"@, here);
            lemma_more_added(before, expected, added);
            expected = expected + added;
        }
        validate_optional(&self.tp, "Tp", path, patterns, out);
        proof {
            let added = optional_reports(self.tp, "Tp"@, here);
            lemma_more_added(before, expected, added);
            expected = expected + added;
        }
        validate_field(&self.lang, "Lang", path, patterns, out);
        proof {
            let added = field_reports(self.lang, "Lang"@, here);
            lemma_more_added(before, expected, added);
            expected = expected + added;
        }
        validate_field(&self.val, "Val", path, patterns, out);
        proof {
            let added = field_reports(self.val, "Val"@, here);
            lemma_more_added(before, expected, added);
            expected = expected + added;
        }
    }
}

#[derive(Debug, Default, Clone, PartialEq)]
pub enum Algorithm5Code {
    /// Serialized as `HS25`.
    Hs25,
    /// Serialized as `HS38`.
    Hs38,
    /// Serialized as `HS51`.
    Hs51,
    #[default]
    Unknown,
}

impl Validate for Algorithm5Code {
    open spec fn violations(&self, path: Seq<SegmentModel>) -> Seq<ReportModel> {
        Seq::empty()
    }

    fn validate_into(
        &self,
        path: &Vec<PathSegment>,
        patterns: &IdentifierPatterns,
        out: &mut Vec<ValidationViolation>,
    ) {
        proof {
            lemma_nothing_added(reports_model(out@));
        }
    }
}

/// Text that matches `[a-z]{2,3}`.
#[derive(Debug, Default, Clone, PartialEq)]
pub struct IsoMax3ALanguageCode {
    /// The text of the element.
    pub value: String,
}

impl Validate for IsoMax3ALanguageCode {
    open spec fn violations(&self, path: Seq<SegmentModel>) -> Seq<ReportModel> {
        Seq::empty()
            + pattern_reports(self.value@, "[a-z]{2,3}"@, path)
    }

    fn validate_into(
        &self,
        path: &Vec<PathSegment>,
        patterns: &IdentifierPatterns,
        out: &mut Vec<ValidationViolation>,
    ) {
        let ghost before = reports_model(out@);
        let ghost here = path_model(path@);
        let ghost mut expected = Seq::<ReportModel>::empty();
        proof {
            lemma_nothing_added(before);
        }
        report_pattern(self.value.as_str(), patterns.iso_max_3_a_language_code(), path, out);
        proof {
            let added = pattern_reports(self.value@, "[a-z]{2,3}"@, here);
            lemma_more_added(before, expected, added);
            expected = expected + added;
        }
    }
}

#[derive(Debug, Default, Clone, PartialEq)]
pub enum MessageError1Code {
    /// Serialized as `IDEF`.
    Idef,
    /// Serialized as `IDEL`.
    Idel,
    /// Serialized as `IDEV`.
    Idev,
    /// Serialized as `INME`.
    Inme,
    /// Serialized as `INMF`.
    Inmf,
    /// Serialized as `MEPE`.
    Mepe,
    /// Serialized as `OTHP`.
    Othp,
    /// Serialized as `PRVE`.
    Prve,
    /// Serialized as `RDEM`.
    Rdem,
    /// Serialized as `SECU`.
    Secu,
    /// Serialized as `UDFD`.
    Udfd,
    /// Serialized as `OTHN`.
    Othn,
    /// Serialized as `ITDE`.
    Itde,
    /// Serialized as `DUME`.
    Dume,
    /// Serialized as `IDWM`.
    Idwm,
    /// Serialized as `IDRM`.
    Idrm,
    /// Serialized as `IBAT`.
    Ibat,
    /// Serialized as `ICOL`.
    Icol,
    #[default]
    Unknown,
}

impl Validate for MessageError1Code {
    open spec fn violations(&self, path: Seq<SegmentModel>) -> Seq<ReportModel> {
        Seq::empty()
    }

    fn validate_into(
        &self,
        path: &Vec<PathSegment>,
        patterns: &IdentifierPatterns,
        out: &mut Vec<ValidationViolation>,
    ) {
        proof {
            lemma_nothing_added(reports_model(out@));
        }
    }
}

#[derive(Debug, Default, Clone, PartialEq)]
pub enum TransactionAttribute2Code {
    /// Serialized as `AGGR`.
    Aggr,
    /// Serialized as `CADB`.
    Cadb,
    /// Serialized as `CPLT`.
    Cplt,
    /// Serialized as `DBRC`.
    Dbrc,
    /// Serialized as `DBRP`.
    Dbrp,
    /// Serialized as `DFRD`.
    Dfrd,
    /// Serialized as `INCR`.
    Incr,
    /// Serialized as `FRCP`.
    Frcp,
    /// Serialized as `INST`.
    Inst,
    /// Serialized as `OTHN`.
    Othn,
    /// Serialized as `OTHP`.
    Othp,
    /// Serialized as `PAUT`.
    Paut,
    /// Serialized as `PACP`.
    Pacp,
    /// Serialized as `PPYT`.
    Ppyt,
    /// Serialized as `RCPT`.
    Rcpt,
    /// Serialized as `SUBR`.
    Subr,
    /// Serialized as `TPUP`.
    Tpup,
    /// Serialized as `UCOF`.
    Ucof,
    #[default]
    Unknown,
}

impl Validate for TransactionAttribute2Code {
    open spec fn violations(&self, path: Seq<SegmentModel>) -> Seq<ReportModel> {
        Seq::empty()
    }

    fn validate_into(
        &self,
        path: &Vec<PathSegment>,
        patterns: &IdentifierPatterns,
        out: &mut Vec<ValidationViolation>,
    ) {
        proof {
            lemma_nothing_added(reports_model(out@));
        }
    }
}

#[derive(Debug, Default, Clone, PartialEq)]
pub struct Amount17 {
    /// Serialized as `Amt`.
    pub amt: ImpliedCurrencyAndAmount,
    /// Serialized as `Ccy`.
    pub ccy: Option<Iso3NumericCurrencyCode>,
    /// Serialized as `CdtDbt`.
    pub cdt_dbt: Option<CreditDebit3Code>,
}

impl Validate for Amount17 {
    open spec fn violations(&self, path: Seq<SegmentModel>) -> Seq<ReportModel> {
        Seq::empty()
            + field_reports(self.amt, "Amt"@, path)
            + optional_reports(self.ccy, "Ccy"@, path)
            + optional_reports(self.cdt_dbt, "CdtDbt"@, path)
    }

    fn validate_into(
        &self,
        path: &Vec<PathSegment>,
        patterns: &IdentifierPatterns,
        out: &mut Vec<ValidationViolation>,
    ) {
        let ghost before = reports_model(out@);
        let ghost here = path_model(path@);
        let ghost mut expected = Seq::<ReportModel>::empty();
        proof {
            lemma_nothing_added(before);
        }
        validate_field(&self.amt, "Amt", path, patterns, out);
        proof {
            let added = field_reports(self.amt, "Amt"@, here);
            lemma_more_added(before, expected, added);
            expected = expected + added;
        }
        validate_optional(&self.ccy, "Ccy", path, patterns, out);
        proof {
            let added = optional_reports(self.ccy, "Ccy"@, here);
            lemma_more_added(before, expected, added);
            expected = expected + added;
        }
        validate_optional(&self.cdt_dbt, "CdtDbt", path, patterns, out);
        proof {
            let added = optional_reports(self.cdt_dbt, "CdtDbt"@, here);
            lemma_more_added(before, expected, added);
            expected = expected + added;
        }
    }
}

#[derive(Debug, Default, Clone, PartialEq)]
pub struct Header62 {
    /// Serialized as `MsgFctn`.
    pub msg_fctn: MessageFunction16Code,
    /// Serialized as `PrtcolVrsn`.
    pub prtcol_vrsn: Max2048Text,
    /// Serialized as `XchgId`.
    pub xchg_id: Option<Max35Text>,
    /// Serialized as `ReTrnsmssnCntr`.
    pub re_trnsmssn_cntr: Option<Max3NumericText>,
    /// Serialized as `CreDtTm`.
    pub cre_dt_tm: IsoDateTime,
    /// Serialized as `BtchMgmtInf`.
    pub btch_mgmt_inf: Option<BatchManagementInformation1>,
    /// Serialized as `InitgPty`.
    pub initg_pty: GenericIdentification183,
    /// Serialized as `RcptPty`.
    pub rcpt_pty: Option<GenericIdentification183>,
    /// Serialized as `TracData`.
    pub trac_data: Vec<AdditionalData1>,
    /// Serialized as `Tracblt`.
    pub tracblt: Vec<Traceability9>,
}

impl Validate for Header62 {
    open spec fn violations(&self, path: Seq<SegmentModel>) -> Seq<ReportModel> {
        Seq::empty()
            + field_reports(self.msg_fctn, "MsgFctn"@, path)
            + field_reports(self.prtcol_vrsn, "PrtcolVrsn"@, path)
            + optional_reports(self.xchg_id, "XchgId"@, path)
            + optional_reports(self.re_trnsmssn_cntr, "ReTrnsmssnCntr"@, path)
            + field_reports(self.cre_dt_tm, "CreDtTm"@, path)
            + optional_reports(self.btch_mgmt_inf, "BtchMgmtInf"@, path)
            + field_reports(self.initg_pty, "InitgPty"@, path)
            + optional_reports(self.rcpt_pty, "RcptPty"@, path)
            + list_reports(self.trac_data@, Some(0), None, "TracData"@, path)
            + list_reports(self.tracblt@, Some(0), None, "Tracblt"@, path)
    }

    fn validate_into(
        &self,
        path: &Vec<PathSegment>,
        patterns: &IdentifierPatterns,
        out: &mut Vec<ValidationViolation>,
    ) {
        let ghost before = reports_model(out@);
        let ghost here = path_model(path@);
        let ghost mut expected = Seq::<ReportModel>::empty();
        proof {
            lemma_nothing_added(before);
        }
        validate_field(&self.msg_fctn, "MsgFctn", path, patterns, out);
        proof {
            let added = field_reports(self.msg_fctn, "MsgFctn"@, here);
            lemma_more_added(before, expected, added);
            expected = expected + added;
        }
        validate_field(&self.prtcol_vrsn, "PrtcolVrsn", path, patterns, out);
        proof {
            let added = field_reports(self.prtcol_vrsn, "PrtcolVrsn"@, here);
            lemma_more_added(before, expected, added);
            expected = expected + added;
        }
        validate_optional(&self.xchg_id, "XchgId", path, patterns, out);
        proof {
            let added = optional_reports(self.xchg_id, "XchgId"@, here);
            lemma_more_added(before, expected, added);
            expected = expected + added;
        }
        validate_optional(&self.re_trnsmssn_cntr, "ReTrnsmssnCntr", path, patterns, out);
        proof {
            let added = optional_reports(self.re_trnsmssn_cntr, "ReTrnsmssnCntr"@, here);
            lemma_more_added(before, expected, added);
            expected = expected + added;
        }
        validate_field(&self.cre_dt_tm, "CreDtTm", path, patterns, out);
        proof {
            let added = field_reports(self.cre_dt_tm, "CreDtTm"@, here);
            lemma_more_added(before, expected, added);
            expected = expected + added;
        }
        validate_optional(&self.btch_mgmt_inf, "BtchMgmtInf", path, patterns, out);
        proof {
            let added = optional_reports(self.btch_mgmt_inf, "BtchMgmtInf"@, here);
            lemma_more_added(before, expected, added);
            expected = expected + added;
        }
        validate_field(&self.initg_pty, "InitgPty", path, patterns, out);
        proof {
            let added = field_reports(self.initg_pty, "InitgPty"@, here);
            lemma_more_added(before, expected, added);
            expected = expected + added;
        }
        validate_optional(&self.rcpt_pty, "RcptPty", path, patterns, out);
        proof {
            let added = optional_reports(self.rcpt_pty, "RcptPty"@, here);
            lemma_more_added(before, expected, added);
            expected = expected + added;
        }
        validate_list(&self.trac_data, Some(0), None, "TracData", path, patterns, out);
        proof {
            let added = list_reports(self.trac_data@, Some(0), None, "TracData"@, here);
            lemma_more_added(before, expected, added);
            expected = expected + added;
        }
        validate_list(&self.tracblt, Some(0), None, "Tracblt", path, patterns, out);
        proof {
            let added = list_reports(self.tracblt@, Some(0), None, "Tracblt"@, here);
            lemma_more_added(before, expected, added);
            expected = expected + added;
        }
    }
}

/// Text that matches `[0-9A-Z]{2,2}`.
#[derive(Debug, Default, Clone, PartialEq)]
pub struct Iso8583AccountTypeCode {
    /// The text of the element.
    pub value: String,
}

impl Validate for Iso8583AccountTypeCode {
    open spec fn violations(&self, path: Seq<SegmentModel>) -> Seq<ReportModel> {
        Seq::empty()
            + pattern_reports(self.value@, "[0-9A-Z]{2,2}"@, path)
    }

    fn validate_into(
        &self,
        path: &Vec<PathSegment>,
        patterns: &IdentifierPatterns,
        out: &mut Vec<ValidationViolation>,
    ) {
        let ghost before = reports_model(out@);
        let ghost here = path_model(path@);
        let ghost mut expected = Seq::<ReportModel>::empty();
        proof {
            lemma_nothing_added(before);
        }
        report_pattern(self.value.as_str(), patterns.iso_8583_account_type_code(), path, out);
        proof {
            let added = pattern_reports(self.value@, "[0-9A-Z]{2,2}"@, here);
            lemma_more_added(before, expected, added);
            expected = expected + added;
        }
    }
}

#[derive(Debug, Default, Clone, PartialEq)]
pub enum PartyType22Code {
    /// Serialized as `CRDH`.
    Crdh,
    /// Serialized as `MERC`.
    Merc,
    /// Serialized as `OTHN`.
    Othn,
    /// Serialized as `OTHP`.
    Othp,
    /// Serialized as `AGNT`.
    Agnt,
    #[default]
    Unknown,
}

impl Validate for PartyType22Code {
    open spec fn violations(&self, path: Seq<SegmentModel>) -> Seq<ReportModel> {
        Seq::empty()
    }

    fn validate_into(
        &self,
        path: &Vec<PathSegment>,
        patterns: &IdentifierPatterns,
        out: &mut Vec<ValidationViolation>,
    ) {
        proof {
            lemma_nothing_added(reports_model(out@));
        }
    }
}

#[derive(Debug, Default, Clone, PartialEq)]
pub enum PartyType17Code {
    /// Serialized as `OTHN`.
    Othn,
    /// Serialized as `OTHP`.
    Othp,
    /// Serialized as `ACQR`.
    Acqr,
    /// Serialized as `ACQP`.
    Acqp,
    /// Serialized as `CISS`.
    Ciss,
    /// Serialized as `CISP`.
    Cisp,
    /// Serialized as `AGNT`.
    Agnt,
    #[default]
    Unknown,
}

impl Validate for PartyType17Code {
    open spec fn violations(&self, path: Seq<SegmentModel>) -> Seq<ReportModel> {
        Seq::empty()
    }

    fn validate_into(
        &self,
        path: &Vec<PathSegment>,
        patterns: &IdentifierPatterns,
        out: &mut Vec<ValidationViolation>,
    ) {
        proof {
            lemma_nothing_added(reports_model(out@));
        }
    }
}

#[derive(Debug, Default, Clone, PartialEq)]
pub struct AccountDetails3 {
    /// Serialized as `AcctNm`.
    pub acct_nm: Option<Max70Text>,
    /// Serialized as `AcctTp`.
    pub acct_tp: Option<Iso8583AccountTypeCode>,
    /// Serialized as `AcctId`.
    pub acct_id: Option<Max70Text>,
}

impl Validate for AccountDetails3 {
    open spec fn violations(&self, path: Seq<SegmentModel>) -> Seq<ReportModel> {
        Seq::empty()
            + optional_reports(self.acct_nm, "AcctNm"@, path)
            + optional_reports(self.acct_tp, "AcctTp"@, path)
            + optional_reports(self.acct_id, "AcctId"@, path)
    }

    fn validate_into(
        &self,
        path: &Vec<PathSegment>,
        patterns: &IdentifierPatterns,
        out: &mut Vec<ValidationViolation>,
    ) {
        let ghost before = reports_model(out@);
        let ghost here = path_model(path@);
        let ghost mut expected = Seq::<ReportModel>::empty();
        proof {
            lemma_nothing_added(before);
        }
        validate_optional(&self.acct_nm, "AcctNm", path, patterns, out);
        proof {
            let added = optional_reports(self.acct_nm, "AcctNm"@, here);
            lemma_more_added(before, expected, added);
            expected = expected + added;
        }
        validate_optional(&self.acct_tp, "AcctTp", path, patterns, out);
        proof {
            let added = optional_reports(self.acct_tp, "AcctTp"@, here);
            lemma_more_added(before, expected, added);
            expected = expected + added;
        }
        validate_optional(&self.acct_id, "AcctId", path, patterns, out);
        proof {
            let added = optional_reports(self.acct_id, "AcctId"@, here);
            lemma_more_added(before, expected, added);
            expected = expected + added;
        }
    }
}

/// Text that matches `[0-9]{1,11}`.
#[derive(Debug, Default, Clone, PartialEq)]
pub struct Max11NumericText {
    /// The text of the element.
    pub value: String,
}

impl Validate for Max11NumericText {
    open spec fn violations(&self, path: Seq<SegmentModel>) -> Seq<ReportModel> {
        Seq::empty()
            + pattern_reports(self.value@, "[0-9]{1,11}"@, path)
    }

    fn validate_into(
        &self,
        path: &Vec<PathSegment>,
        patterns: &IdentifierPatterns,
        out: &mut Vec<ValidationViolation>,
    ) {
        let ghost before = reports_model(out@);
        let ghost here = path_model(path@);
        let ghost mut expected = Seq::<ReportModel>::empty();
        proof {
            lemma_nothing_added(before);
        }
        report_pattern(self.value.as_str(), patterns.max_11_numeric_text(), path, out);
        proof {
            let added = pattern_reports(self.value@, "[0-9]{1,11}"@, here);
            lemma_more_added(before, expected, added);
            expected = expected + added;
        }
    }
}

#[derive(Debug, Default, Clone, PartialEq)]
pub struct TrueFalseIndicator {
    /// The text of the element.
    pub value: bool,
}

impl Validate for TrueFalseIndicator {
    open spec fn violations(&self, path: Seq<SegmentModel>) -> Seq<ReportModel> {
        Seq::empty()
    }

    fn validate_into(
        &self,
        path: &Vec<PathSegment>,
        patterns: &IdentifierPatterns,
        out: &mut Vec<ValidationViolation>,
    ) {
        proof {
            lemma_nothing_added(reports_model(out@));
        }
    }
}

/// Text of 1 to 140 characters that matches `[A-Za-z0-9+/]{4}*(?:[A-Za-z0-9+/]{2}==|[A-Za-z0-9+/]{3}=)?`.
#[derive(Debug, Default, Clone, PartialEq)]
pub struct Max140Binary {
    pub value: String,
}

impl Validate for Max140Binary {
    open spec fn violations(&self, path: Seq<SegmentModel>) -> Seq<ReportModel> {
        Seq::empty()
            + length_reports(self.value@, Some(1), Some(140), path)
            + pattern_reports(self.value@, "[A-Za-z0-9+/]{4}*(?:[A-Za-z0-9+/]{2}==|[A-Za-z0-9+/]{3}=)?"@, path)
    }

    fn validate_into(
        &self,
        path: &Vec<PathSegment>,
        patterns: &IdentifierPatterns,
        out: &mut Vec<ValidationViolation>,
    ) {
        let ghost before = reports_model(out@);
        let ghost here = path_model(path@);
        let ghost mut expected = Seq::<ReportModel>::empty();
        proof {
            lemma_nothing_added(before);
        }
        report_length(self.value.as_str(), Some(1), Some(140), path, out);
        proof {
            let added = length_reports(self.value@, Some(1), Some(140), here);
            lemma_more_added(before, expected, added);
            expected = expected + added;
        }
        report_pattern(self.value.as_str(), patterns.max_140_binary(), path, out);
        proof {
            let added = pattern_reports(self.value@, "[A-Za-z0-9+/]{4}*(?:[A-Za-z0-9+/]{2}==|[A-Za-z0-9+/]{3}=)?"@, here);
            lemma_more_added(before, expected, added);
            expected = expected + added;
        }
    }
}

/// Text that matches `([0-9A-F][0-9A-F]){1,32}`.
#[derive(Debug, Default, Clone, PartialEq)]
pub struct Max32HexBinaryText {
    /// The text of the element.
    pub value: String,
}

impl Validate for Max32HexBinaryText {
    open spec fn violations(&self, path: Seq<SegmentModel>) -> Seq<ReportModel> {
        Seq::empty()
            + pattern_reports(self.value@, "([0-9A-F][0-9A-F]){1,32}"@, path)
    }

    fn validate_into(
        &self,
        path: &Vec<PathSegment>,
        patterns: &IdentifierPatterns,
        out: &mut Vec<ValidationViolation>,
    ) {
        let ghost before = reports_model(out@);
        let ghost here = path_model(path@);
        let ghost mut expected = Seq::<ReportModel>::empty();
        proof {
            lemma_nothing_added(before);
        }
        report_pattern(self.value.as_str(), patterns.max_32_hex_binary_text(), path, out);
        proof {
            let added = pattern_reports(self.value@, "([0-9A-F][0-9A-F]){1,32}"@, here);
            lemma_more_added(before, expected, added);
            expected = expected + added;
        }
    }
}

#[derive(Debug, Default, Clone, PartialEq)]
pub enum Response8Code {
    /// Serialized as `PRCS`.
    Prcs,
    /// Serialized as `UNPR`.
    Unpr,
    /// Serialized as `UNRV`.
    Unrv,
    /// Serialized as `REJT`.
    Rejt,
    /// Serialized as `TECH`.
    Tech,
    /// Serialized as `OTHN`.
    Othn,
    /// Serialized as `OTHP`.
    Othp,
    #[default]
    Unknown,
}

impl Validate for Response8Code {
    open spec fn violations(&self, path: Seq<SegmentModel>) -> Seq<ReportModel> {
        Seq::empty()
    }

    fn validate_into(
        &self,
        path: &Vec<PathSegment>,
        patterns: &IdentifierPatterns,
        out: &mut Vec<ValidationViolation>,
    ) {
        proof {
            lemma_nothing_added(reports_model(out@));
        }
    }
}

/// Text of 1 to 35 characters.
#[derive(Debug, Default, Clone, PartialEq)]
pub struct Max35Text {
    /// The text of the element.
    pub value: String,
}

impl Validate for Max35Text {
    open spec fn violations(&self, path: Seq<SegmentModel>) -> Seq<ReportModel> {
        Seq::empty()
            + length_reports(self.value@, Some(1), Some(35), path)
    }

    fn validate_into(
        &self,
        path: &Vec<PathSegment>,
        patterns: &IdentifierPatterns,
        out: &mut Vec<ValidationViolation>,
    ) {
        let ghost before = reports_model(out@);
        let ghost here = path_model(path@);
        let ghost mut expected = Seq::<ReportModel>::empty();
        proof {
            lemma_nothing_added(before);
        }
        report_length(self.value.as_str(), Some(1), Some(35), path, out);
        proof {
            let added = length_reports(self.value@, Some(1), Some(35), here);
            lemma_more_added(before, expected, added);
            expected = expected + added;
        }
    }
}

/// Text of 1 to 35 characters that matches `[A-Za-z0-9+/]{4}*(?:[A-Za-z0-9+/]{2}==|[A-Za-z0-9+/]{3}=)?`.
#[derive(Debug, Default, Clone, PartialEq)]
pub struct Max35Binary {
    pub value: String,
}

impl Validate for Max35Binary {
    open spec fn violations(&self, path: Seq<SegmentModel>) -> Seq<ReportModel> {
        Seq::empty()
            + length_reports(self.value@, Some(1), Some(35), path)
            + pattern_reports(self.value@, "[A-Za-z0-9+/]{4}*(?:[A-Za-z0-9+/]{2}==|[A-Za-z0-9+/]{3}=)?"@, path)
    }

    fn validate_into(
        &self,
        path: &Vec<PathSegment>,
        patterns: &IdentifierPatterns,
        out: &mut Vec<ValidationViolation>,
    ) {
        let ghost before = reports_model(out@);
        let ghost here = path_model(path@);
        let ghost mut expected = Seq::<ReportModel>::empty();
        proof {
            lemma_nothing_added(before);
        }
        report_length(self.value.as_str(), Some(1), Some(35), path, out);
        proof {
            let added = length_reports(self.value@, Some(1), Some(35), here);
            lemma_more_added(before, expected, added);
            expected = expected + added;
        }
        report_pattern(self.value.as_str(), patterns.max_35_binary(), path, out);
        proof {
            let added = pattern_reports(self.value@, "[A-Za-z0-9+/]{4}*(?:[A-Za-z0-9+/]{2}==|[A-Za-z0-9+/]{3}=)?"@, here);
            lemma_more_added(before, expected, added);
            expected = expected + added;
        }
    }
}

#[derive(Debug, Default, Clone, PartialEq)]
pub enum ContentType2Code {
    /// Serialized as `DATA`.
    Data,
    /// Serialized as `SIGN`.
    Sign,
    /// Serialized as `EVLP`.
    Evlp,
    /// Serialized as `DGST`.
    Dgst,
    /// Serialized as `AUTH`.
    Auth,
    #[default]
    Unknown,
}

impl Validate for ContentType2Code {
    open spec fn violations(&self, path: Seq<SegmentModel>) -> Seq<ReportModel> {
        Seq::empty()
    }

    fn validate_into(
        &self,
        path: &Vec<PathSegment>,
        patterns: &IdentifierPatterns,
        out: &mut Vec<ValidationViolation>,
    ) {
        proof {
            lemma_nothing_added(reports_model(out@));
        }
    }
}

#[derive(Debug, Default, Clone, PartialEq)]
pub struct ReversalResponseV03<A> {
    /// Serialized as `Hdr`.
    pub hdr: Header62,
    /// Serialized as `Body`.
    pub body: ReversalResponse4<A>,
    /// Serialized as `SctyTrlr`.
    pub scty_trlr: Option<ContentInformationType20>,
}

impl<A: Validate> Validate for ReversalResponseV03<A> {
    open spec fn violations(&self, path: Seq<SegmentModel>) -> Seq<ReportModel> {
        Seq::empty()
            + field_reports(self.hdr, "Hdr"@, path)
            + field_reports(self.body, "Body"@, path)
            + optional_reports(self.scty_trlr, "SctyTrlr"@, path)
    }

    fn validate_into(
        &self,
        path: &Vec<PathSegment>,
        patterns: &IdentifierPatterns,
        out: &mut Vec<ValidationViolation>,
    ) {
        let ghost before = reports_model(out@);
        let ghost here = path_model(path@);
        let ghost mut expected = Seq::<ReportModel>::empty();
        proof {
            lemma_nothing_added(before);
        }
        validate_field(&self.hdr, "Hdr", path, patterns, out);
        proof {
            let added = field_reports(self.hdr, "Hdr"@, here);
            lemma_more_added(before, expected, added);
            expected = expected + added;
        }
        validate_field(&self.body, "Body", path, patterns, out);
        proof {
            let added = field_reports(self.body, "Body"@, here);
            lemma_more_added(before, expected, added);
            expected = expected + added;
        }
        validate_optional(&self.scty_trlr, "SctyTrlr", path, patterns, out);
        proof {
            let added = optional_reports(self.scty_trlr, "SctyTrlr"@, here);
            lemma_more_added(before, expected, added);
            expected = expected + added;
        }
    }
}

#[derive(Debug, Default, Clone, PartialEq)]
pub struct SupplementaryDataEnvelope1<A> {
    /// Serialized in place, without an element of its own.
    pub value: A,
}

impl<A: Validate> Validate for SupplementaryDataEnvelope1<A> {
    open spec fn violations(&self, path: Seq<SegmentModel>) -> Seq<ReportModel> {
        Seq::empty()
            + self.value.violations(path)
    }

    fn validate_into(
        &self,
        path: &Vec<PathSegment>,
        patterns: &IdentifierPatterns,
        out: &mut Vec<ValidationViolation>,
    ) {
        let ghost before = reports_model(out@);
        let ghost here = path_model(path@);
        let ghost mut expected = Seq::<ReportModel>::empty();
        proof {
            lemma_nothing_added(before);
        }
        self.value.validate_into(path, patterns, out);
        proof {
            let added = self.value.violations(here);
            lemma_more_added(before, expected, added);
            expected = expected + added;
        }
    }
}

#[derive(Debug, Default, Clone, PartialEq)]
pub struct Amount15 {
    /// Serialized as `Amt`.
    pub amt: ImpliedCurrencyAndAmount,
    /// Serialized as `Ccy`.
    pub ccy: Option<Iso3NumericCurrencyCode>,
    /// Serialized as `FctvXchgRate`.
    pub fctv_xchg_rate: Option<BaseOne25Rate>,
    /// Serialized as `ConvsDt`.
    pub convs_dt: Option<IsoDate>,
    /// Serialized as `ConvsTm`.
    pub convs_tm: Option<IsoTime>,
}

impl Validate for Amount15 {
    open spec fn violations(&self, path: Seq<SegmentModel>) -> Seq<ReportModel> {
        Seq::empty()
            + field_reports(self.amt, "Amt"@, path)
            + optional_reports(self.ccy, "Ccy"@, path)
            + optional_reports(self.fctv_xchg_rate, "FctvXchgRate"@, path)
            + optional_reports(self.convs_dt, "ConvsDt"@, path)
            + optional_reports(self.convs_tm, "ConvsTm"@, path)
    }

    fn validate_into(
        &self,
        path: &Vec<PathSegment>,
        patterns: &IdentifierPatterns,
        out: &mut Vec<ValidationViolation>,
    ) {
        let ghost before = reports_model(out@);
        let ghost here = path_model(path@);
        let ghost mut expected = Seq::<ReportModel>::empty();
        proof {
            lemma_nothing_added(before);
        }
        validate_field(&self.amt, "Amt", path, patterns, out);
        proof {
            let added = field_reports(self.amt, "Amt"@, here);
            lemma_more_added(before, expected, added);
            expected = expected + added;
        }
        validate_optional(&self.ccy, "Ccy", path, patterns, out);
        proof {
            let added = optional_reports(self.ccy, "Ccy"@, here);
            lemma_more_added(before, expected, added);
            expected = expected + added;
        }
        validate_optional(&self.fctv_xchg_rate, "FctvXchgRate", path, patterns, out);
        proof {
            let added = optional_reports(self.fctv_xchg_rate, "FctvXchgRate"@, here);
            lemma_more_added(before, expected, added);
            expected = expected + added;
        }
        validate_optional(&self.convs_dt, "ConvsDt", path, patterns, out);
        proof {
            let added = optional_reports(self.convs_dt, "ConvsDt"@, here);
            lemma_more_added(before, expected, added);
            expected = expected + added;
        }
        validate_optional(&self.convs_tm, "ConvsTm", path, patterns, out);
        proof {
            let added = optional_reports(self.convs_tm, "ConvsTm"@, here);
            lemma_more_added(before, expected, added);
            expected = expected + added;
        }
    }
}

#[derive(Debug, Default, Clone, PartialEq)]
pub struct AlgorithmIdentification28 {
    /// Serialized as `Algo`.
    pub algo: Algorithm13Code,
    /// Serialized as `Param`.
    pub param: Option<Parameter14>,
}

impl Validate for AlgorithmIdentification28 {
    open spec fn violations(&self, path: Seq<SegmentModel>) -> Seq<ReportModel> {
        Seq::empty()
            + field_reports(self.algo, "Algo"@, path)
            + optional_reports(self.param, "Param"@, path)
    }

    fn validate_into(
        &self,
        path: &Vec<PathSegment>,
        patterns: &IdentifierPatterns,
        out: &mut Vec<ValidationViolation>,
    ) {
        let ghost before = reports_model(out@);
        let ghost here = path_model(path@);
        let ghost mut expected = Seq::<ReportModel>::empty();
        proof {
            lemma_nothing_added(before);
        }
        validate_field(&self.algo, "Algo", path, patterns, out);
        proof {
            let added = field_reports(self.algo, "Algo"@, here);
            lemma_more_added(before, expected, added);
            expected = expected + added;
        }
        validate_optional(&self.param, "Param", path, patterns, out);
        proof {
            let added = optional_reports(self.param, "Param"@, here);
            lemma_more_added(before, expected, added);
            expected = expected + added;
        }
    }
}

#[derive(Debug, Default, Clone, PartialEq)]
pub struct Terminal6 {
    /// Serialized as `TermnlId`.
    pub termnl_id: TerminalIdentification3,
}

impl Validate for Terminal6 {
    open spec fn violations(&self, path: Seq<SegmentModel>) -> Seq<ReportModel> {
        Seq::empty()
            + field_reports(self.termnl_id, "TermnlId"@, path)
    }

    fn validate_into(
        &self,
        path: &Vec<PathSegment>,
        patterns: &IdentifierPatterns,
        out: &mut Vec<ValidationViolation>,
    ) {
        let ghost before = reports_model(out@);
        let ghost here = path_model(path@);
        let ghost mut expected = Seq::<ReportModel>::empty();
        proof {
            lemma_nothing_added(before);
        }
        validate_field(&self.termnl_id, "TermnlId", path, patterns, out);
        proof {
            let added = field_reports(self.termnl_id, "TermnlId"@, here);
            lemma_more_added(before, expected, added);
            expected = expected + added;
        }
    }
}

#[derive(Debug, Default, Clone, PartialEq)]
pub struct ReversalResponse4<A> {
    /// Serialized as `Envt`.
    pub envt: Environment29,
    /// Serialized as `Cntxt`.
    pub cntxt: TransactionContext8,
    /// Serialized as `Tx`.
    pub tx: Transaction137,
    /// Serialized as `PrcgRslt`.
    pub prcg_rslt: ProcessingResult10,
    /// Serialized as `ICCRltdData`.
    pub icc_rltd_data: Option<Max10KHexBinaryText>,
    /// Serialized as `PrtctdData`.
    pub prtctd_data: Vec<ProtectedData1>,
    /// Serialized as `SplmtryData`.
    pub splmtry_data: Vec<SupplementaryData1<A>>,
}

impl<A: Validate> Validate for ReversalResponse4<A> {
    open spec fn violations(&self, path: Seq<SegmentModel>) -> Seq<ReportModel> {
        Seq::empty()
            + field_reports(self.envt, "Envt"@, path)
            + field_reports(self.cntxt, "Cntxt"@, path)
            + field_reports(self.tx, "Tx"@, path)
            + field_reports(self.prcg_rslt, "PrcgRslt"@, path)
            + optional_reports(self.icc_rltd_data, "ICCRltdData"@, path)
            + list_reports(self.prtctd_data@, Some(0), None, "PrtctdData"@, path)
            + list_reports(self.splmtry_data@, Some(0), None, "SplmtryData"@, path)
    }

    fn validate_into(
        &self,
        path: &Vec<PathSegment>,
        patterns: &IdentifierPatterns,
        out: &mut Vec<ValidationViolation>,
    ) {
        let ghost before = reports_model(out@);
        let ghost here = path_model(path@);
        let ghost mut expected = Seq::<ReportModel>::empty();
        proof {
            lemma_nothing_added(before);
        }
        validate_field(&self.envt, "Envt", path, patterns, out);
        proof {
            let added = field_reports(self.envt, "Envt"@, here);
            lemma_more_added(before, expected, added);
            expected = expected + added;
        }
        validate_field(&self.cntxt, "Cntxt", path, patterns, out);
        proof {
            let added = field_reports(self.cntxt, "Cntxt"@, here);
            lemma_more_added(before, expected, added);
            expected = expected + added;
        }
        validate_field(&self.tx, "Tx", path, patterns, out);
        proof {
            let added = field_reports(self.tx, "Tx"@, here);
            lemma_more_added(before, expected, added);
            expected = expected + added;
        }
        validate_field(&self.prcg_rslt, "PrcgRslt", path, patterns, out);
        proof {
            let added = field_reports(self.prcg_rslt, "PrcgRslt"@, here);
            lemma_more_added(before, expected, added);
            expected = expected + added;
        }
        validate_optional(&self.icc_rltd_data, "ICCRltdData", path, patterns, out);
        proof {
            let added = optional_reports(self.icc_rltd_data, "ICCRltdData"@, here);
            lemma_more_added(before, expected, added);
            expected = expected + added;
        }
        validate_list(&self.prtctd_data, Some(0), None, "PrtctdData", path, patterns, out);
        proof {
            let added = list_reports(self.prtctd_data@, Some(0), None, "PrtctdData"@, here);
            lemma_more_added(before, expected, added);
            expected = expected + added;
        }
        validate_list(&self.splmtry_data, Some(0), None, "SplmtryData", path, patterns, out);
        proof {
            let added = list_reports(self.splmtry_data@, Some(0), None, "SplmtryData"@, here);
            lemma_more_added(before, expected, added);
            expected = expected + added;
        }
    }
}

#[derive(Debug, Default, Clone, PartialEq)]
pub struct TransactionContext8 {
    /// Serialized as `MrchntCtgyCd`.
    pub mrchnt_ctgy_cd: Option<Iso18245MerchantCategoryCode>,
    /// Serialized as `MrchntCtgySpcfcData`.
    pub mrchnt_ctgy_spcfc_data: Option<Max35Text>,
    /// Serialized as `FeeColltnInitr`.
    pub fee_colltn_initr: Option<FeeCollectionInitiator1Code>,
    /// Serialized as `TxInitr`.
    pub tx_initr: Option<TransactionInitiator1Code>,
    /// Serialized as `PrtlShipmntInd`.
    pub prtl_shipmnt_ind: Option<TrueFalseIndicator>,
    /// Serialized as `DelydChrgsInd`.
    pub delyd_chrgs_ind: Option<TrueFalseIndicator>,
    /// Serialized as `NoShowInd`.
    pub no_show_ind: Option<TrueFalseIndicator>,
    /// Serialized as `ReauthstnInd`.
    pub reauthstn_ind: Option<TrueFalseIndicator>,
    /// Serialized as `ReSubmissnInd`.
    pub re_submissn_ind: Option<TrueFalseIndicator>,
    /// Serialized as `CardPrgrmmApld`.
    pub card_prgrmm_apld: Option<CardProgrammeMode3>,
    /// Serialized as `Jursdctn`.
    pub jursdctn: Option<Jurisdiction2>,
    /// Serialized as `SttlmSvc`.
    pub sttlm_svc: Option<SettlementService4>,
    /// Serialized as `Rcncltn`.
    pub rcncltn: Option<Reconciliation3>,
    /// Serialized as `AddtlData`.
    pub addtl_data: Vec<AdditionalData1>,
}

impl Validate for TransactionContext8 {
    open spec fn violations(&self, path: Seq<SegmentModel>) -> Seq<ReportModel> {
        Seq::empty()
            + optional_reports(self.mrchnt_ctgy_cd, "MrchntCtgyCd"@, path)
            + optional_reports(self.mrchnt_ctgy_spcfc_data, "MrchntCtgySpcfcData"@, path)
            + optional_reports(self.fee_colltn_initr, "FeeColltnInitr"@, path)
            + optional_reports(self.tx_initr, "TxInitr"@, path)
            + optional_reports(self.prtl_shipmnt_ind, "PrtlShipmntInd"@, path)
            + optional_reports(self.delyd_chrgs_ind, "DelydChrgsInd"@, path)
            + optional_reports(self.no_show_ind, "NoShowInd"@, path)
            + optional_reports(self.reauthstn_ind, "ReauthstnInd"@, path)
            + optional_reports(self.re_submissn_ind, "ReSubmissnInd"@, path)
            + optional_reports(self.card_prgrmm_apld, "CardPrgrmmApld"@, path)
            + optional_reports(self.jursdctn, "Jursdctn"@, path)
            + optional_reports(self.sttlm_svc, "SttlmSvc"@, path)
            + optional_reports(self.rcncltn, "Rcncltn"@, path)
            + list_reports(self.addtl_data@, Some(0), None, "AddtlData"@, path)
    }

    fn validate_into(
        &self,
        path: &Vec<PathSegment>,
        patterns: &IdentifierPatterns,
        out: &mut Vec<ValidationViolation>,
    ) {
        let ghost before = reports_model(out@);
        let ghost here = path_model(path@);
        let ghost mut expected = Seq::<ReportModel>::empty();
        proof {
            lemma_nothing_added(before);
        }
        validate_optional(&self.mrchnt_ctgy_cd, "MrchntCtgyCd", path, patterns, out);
        proof {
            let added = optional_reports(self.mrchnt_ctgy_cd, "MrchntCtgyCd"@, here);
            lemma_more_added(before, expected, added);
            expected = expected + added;
        }
        validate_optional(&self.mrchnt_ctgy_spcfc_data, "MrchntCtgySpcfcData", path, patterns, out);
        proof {
            let added = optional_reports(self.mrchnt_ctgy_spcfc_data, "MrchntCtgySpcfcData"@, here);
            lemma_more_added(before, expected, added);
            expected = expected + added;
        }
        validate_optional(&self.fee_colltn_initr, "FeeColltnInitr", path, patterns, out);
        proof {
            let added = optional_reports(self.fee_colltn_initr, "FeeColltnInitr"@, here);
            lemma_more_added(before, expected, added);
            expected = expected + added;
        }
        validate_optional(&self.tx_initr, "TxInitr", path, patterns, out);
        proof {
            let added = optional_reports(self.tx_initr, "TxInitr"@, here);
            lemma_more_added(before, expected, added);
            expected = expected + added;
        }
        validate_optional(&self.prtl_shipmnt_ind, "PrtlShipmntInd", path, patterns, out);
        proof {
            let added = optional_reports(self.prtl_shipmnt_ind, "PrtlShipmntInd"@, here);
            lemma_more_added(before, expected, added);
            expected = expected + added;
        }
        validate_optional(&self.delyd_chrgs_ind, "DelydChrgsInd", path, patterns, out);
        proof {
            let added = optional_reports(self.delyd_chrgs_ind, "DelydChrgsInd"@, here);
            lemma_more_added(before, expected, added);
            expected = expected + added;
        }
        validate_optional(&self.no_show_ind, "NoShowInd", path, patterns, out);
        proof {
            let added = optional_reports(self.no_show_ind, "NoShowInd"@, here);
            lemma_more_added(before, expected, added);
            expected = expected + added;
        }
        validate_optional(&self.reauthstn_ind, "ReauthstnInd", path, patterns, out);
        proof {
            let added = optional_reports(self.reauthstn_ind, "ReauthstnInd"@, here);
            lemma_more_added(before, expected, added);
            expected = expected + added;
        }
        validate_optional(&self.re_submissn_ind, "ReSubmissnInd", path, patterns, out);
        proof {
            let added = optional_reports(self.re_submissn_ind, "ReSubmissnInd"@, here);
            lemma_more_added(before, expected, added);
            expected = expected + added;
        }
        validate_optional(&self.card_prgrmm_apld, "CardPrgrmmApld", path, patterns, out);
        proof {
            let added = optional_reports(self.card_prgrmm_apld, "CardPrgrmmApld"@, here);
            lemma_more_added(before, expected, added);
            expected = expected + added;
        }
        validate_optional(&self.jursdctn, "Jursdctn", path, patterns, out);
        proof {
            let added = optional_reports(self.jursdctn, "Jursdctn"@, here);
            lemma_more_added(before, expected, added);
            expected = expected + added;
        }
        validate_optional(&self.sttlm_svc, "SttlmSvc", path, patterns, out);
        proof {
            let added = optional_reports(self.sttlm_svc, "SttlmSvc"@, here);
            lemma_more_added(before, expected, added);
            expected = expected + added;
        }
        validate_optional(&self.rcncltn, "Rcncltn", path, patterns, out);
        proof {
            let added = optional_reports(self.rcncltn, "Rcncltn"@, here);
            lemma_more_added(before, expected, added);
            expected = expected + added;
        }
        validate_list(&self.addtl_data, Some(0), None, "AddtlData", path, patterns, out);
        proof {
            let added = list_reports(self.addtl_data@, Some(0), None, "AddtlData"@, here);
            lemma_more_added(before, expected, added);
            expected = expected + added;
        }
    }
}

#[derive(Debug, Default, Clone, PartialEq)]
pub enum CreditDebit3Code {
    /// Serialized as `CRDT`.
    Crdt,
    /// Serialized as `DBIT`.
    Dbit,
    #[default]
    Unknown,
}

impl Validate for CreditDebit3Code {
    open spec fn violations(&self, path: Seq<SegmentModel>) -> Seq<ReportModel> {
        Seq::empty()
    }

    fn validate_into(
        &self,
        path: &Vec<PathSegment>,
        patterns: &IdentifierPatterns,
        out: &mut Vec<ValidationViolation>,
    ) {
        proof {
            lemma_nothing_added(reports_model(out@));
        }
    }
}

#[derive(Debug, Default, Clone, PartialEq)]
pub enum AdditionalServiceType2Code {
    /// Serialized as `CACT`.
    Cact,
    /// Serialized as `CSHB`.
    Cshb,
    /// Serialized as `DCCV`.
    Dccv,
    /// Serialized as `INTP`.
    Intp,
    /// Serialized as `INTT`.
    Intt,
    /// Serialized as `LOYT`.
    Loyt,
    /// Serialized as `OTHN`.
    Othn,
    /// Serialized as `OTHP`.
    Othp,
    /// Serialized as `PRST`.
    Prst,
    /// Serialized as `BALC`.
    Balc,
    #[default]
    Unknown,
}

impl Validate for AdditionalServiceType2Code {
    open spec fn violations(&self, path: Seq<SegmentModel>) -> Seq<ReportModel> {
        Seq::empty()
    }

    fn validate_into(
        &self,
        path: &Vec<PathSegment>,
        patterns: &IdentifierPatterns,
        out: &mut Vec<ValidationViolation>,
    ) {
        proof {
            lemma_nothing_added(reports_model(out@));
        }
    }
}

#[derive(Debug, Default, Clone, PartialEq)]
pub struct Environment29 {
    /// Serialized as `Acqrr`.
    pub acqrr: PartyIdentification263,
    /// Serialized as `Orgtr`.
    pub orgtr: Option<PartyIdentification263>,
    /// Serialized as `Sndr`.
    pub sndr: Option<PartyIdentification263>,
    /// Serialized as `Rcvr`.
    pub rcvr: Option<PartyIdentification263>,
    /// Serialized as `Accptr`.
    pub accptr: Option<PartyIdentification258>,
    /// Serialized as `Dstn`.
    pub dstn: Option<PartyIdentification263>,
    /// Serialized as `Termnl`.
    pub termnl: Option<Terminal6>,
    /// Serialized as `Issr`.
    pub issr: Option<PartyIdentification263>,
    /// Serialized as `Card`.
    pub card: CardData10,
    /// Serialized as `Tkn`.
    pub tkn: Option<Token2>,
}

impl Validate for Environment29 {
    open spec fn violations(&self, path: Seq<SegmentModel>) -> Seq<ReportModel> {
        Seq::empty()
            + field_reports(self.acqrr, "Acqrr"@, path)
            + optional_reports(self.orgtr, "Orgtr"@, path)
            + optional_reports(self.sndr, "Sndr"@, path)
            + optional_reports(self.rcvr, "Rcvr"@, path)
            + optional_reports(self.accptr, "Accptr"@, path)
            + optional_reports(self.dstn, "Dstn"@, path)
            + optional_reports(self.termnl, "Termnl"@, path)
            + optional_reports(self.issr, "Issr"@, path)
            + field_reports(self.card, "Card"@, path)
            + optional_reports(self.tkn, "Tkn"@, path)
    }

    fn validate_into(
        &self,
        path: &Vec<PathSegment>,
        patterns: &IdentifierPatterns,
        out: &mut Vec<ValidationViolation>,
    ) {
        let ghost before = reports_model(out@);
        let ghost here = path_model(path@);
        let ghost mut expected = Seq::<ReportModel>::empty();
        proof {
            lemma_nothing_added(before);
        }
        validate_field(&self.acqrr, "Acqrr", path, patterns, out);
        proof {
            let added = field_reports(self.acqrr, "Acqrr"@, here);
            lemma_more_added(before, expected, added);
            expected = expected + added;
        }
        validate_optional(&self.orgtr, "Orgtr", path, patterns, out);
        proof {
            let added = optional_reports(self.orgtr, "Orgtr"@, here);
            lemma_more_added(before, expected, added);
            expected = expected + added;
        }
        validate_optional(&self.sndr, "Sndr", path, patterns, out);
        proof {
            let added = optional_reports(self.sndr, "Sndr"@, here);
            lemma_more_added(before, expected, added);
            expected = expected + added;
        }
        validate_optional(&self.rcvr, "Rcvr", path, patterns, out);
        proof {
            let added = optional_reports(self.rcvr, "Rcvr"@, here);
            lemma_more_added(before, expected, added);
            expected = expected + added;
        }
        validate_optional(&self.accptr, "Accptr", path, patterns, out);
        proof {
            let added = optional_reports(self.accptr, "Accptr"@, here);
            lemma_more_added(before, expected, added);
            expected = expected + added;
        }
        validate_optional(&self.dstn, "Dstn", path, patterns, out);
        proof {
            let added = optional_reports(self.dstn, "Dstn"@, here);
            lemma_more_added(before, expected, added);
            expected = expected + added;
        }
        validate_optional(&self.termnl, "Termnl", path, patterns, out);
        proof {
            let added = optional_reports(self.termnl, "Termnl"@, here);
            lemma_more_added(before, expected, added);
            expected = expected + added;
        }
        validate_optional(&self.issr, "Issr", path, patterns, out);
        proof {
            let added = optional_reports(self.issr, "Issr"@, here);
            lemma_more_added(before, expected, added);
            expected = expected + added;
        }
        validate_field(&self.card, "Card", path, patterns, out);
        proof {
            let added = field_reports(self.card, "Card"@, here);
            lemma_more_added(before, expected, added);
            expected = expected + added;
        }
        validate_optional(&self.tkn, "Tkn", path, patterns, out);
        proof {
            let added = optional_reports(self.tkn, "Tkn"@, here);
            lemma_more_added(before, expected, added);
            expected = expected + added;
        }
    }
}

/// A number.
#[derive(Debug, Default, Clone, PartialEq)]
pub struct Number {
    /// The text of the element.
    pub value: Decimal,
}

impl Validate for Number {
    open spec fn violations(&self, path: Seq<SegmentModel>) -> Seq<ReportModel> {
        Seq::empty()
    }

    fn validate_into(
        &self,
        path: &Vec<PathSegment>,
        patterns: &IdentifierPatterns,
        out: &mut Vec<ValidationViolation>,
    ) {
        proof {
            lemma_nothing_added(reports_model(out@));
        }
    }
}

/// Text of 1 to 70 characters.
#[derive(Debug, Default, Clone, PartialEq)]
pub struct Max70Text {
    /// The text of the element.
    pub value: String,
}

impl Validate for Max70Text {
    open spec fn violations(&self, path: Seq<SegmentModel>) -> Seq<ReportModel> {
        Seq::empty()
            + length_reports(self.value@, Some(1), Some(70), path)
    }

    fn validate_into(
        &self,
        path: &Vec<PathSegment>,
        patterns: &IdentifierPatterns,
        out: &mut Vec<ValidationViolation>,
    ) {
        let ghost before = reports_model(out@);
        let ghost here = path_model(path@);
        let ghost mut expected = Seq::<ReportModel>::empty();
        proof {
            lemma_nothing_added(before);
        }
        report_length(self.value.as_str(), Some(1), Some(70), path, out);
        proof {
            let added = length_reports(self.value@, Some(1), Some(70), here);
            lemma_more_added(before, expected, added);
            expected = expected + added;
        }
    }
}

/// An instant.
#[derive(Debug, Default, Clone, PartialEq)]
pub struct IsoDateTime {
    /// The text of the element. An instant in ISO 8601 form.
    pub value: String,
}

impl Validate for IsoDateTime {
    open spec fn violations(&self, path: Seq<SegmentModel>) -> Seq<ReportModel> {
        Seq::empty()
    }

    fn validate_into(
        &self,
        path: &Vec<PathSegment>,
        patterns: &IdentifierPatterns,
        out: &mut Vec<ValidationViolation>,
    ) {
        proof {
            lemma_nothing_added(reports_model(out@));
        }
    }
}

#[derive(Debug, Default, Clone, PartialEq)]
pub struct OriginalTransactionAmount2 {
    /// Serialized as `AmtQlfr`.
    pub amt_qlfr: Option<TypeOfAmount22Code>,
    /// Serialized as `TxAmt`.
    pub tx_amt: TransactionAmount1,
    /// Serialized as `CrdhldrBllgAmt`.
    pub crdhldr_bllg_amt: Option<Amount15>,
    /// Serialized as `RcncltnAmt`.
    pub rcncltn_amt: Option<Amount15>,
}

impl Validate for OriginalTransactionAmount2 {
    open spec fn violations(&self, path: Seq<SegmentModel>) -> Seq<ReportModel> {
        Seq::empty()
            + optional_reports(self.amt_qlfr, "AmtQlfr"@, path)
            + field_reports(self.tx_amt, "TxAmt"@, path)
            + optional_reports(self.crdhldr_bllg_amt, "CrdhldrBllgAmt"@, path)
            + optional_reports(self.rcncltn_amt, "RcncltnAmt"@, path)
    }

    fn validate_into(
        &self,
        path: &Vec<PathSegment>,
        patterns: &IdentifierPatterns,
        out: &mut Vec<ValidationViolation>,
    ) {
        let ghost before = reports_model(out@);
        let ghost here = path_model(path@);
        let ghost mut expected = Seq::<ReportModel>::empty();
        proof {
            lemma_nothing_added(before);
        }
        validate_optional(&self.amt_qlfr, "AmtQlfr", path, patterns, out);
        proof {
            let added = optional_reports(self.amt_qlfr, "AmtQlfr"@, here);
            lemma_more_added(before, expected, added);
            expected = expected + added;
        }
        validate_field(&self.tx_amt, "TxAmt", path, patterns, out);
        proof {
            let added = field_reports(self.tx_amt, "TxAmt"@, here);
            lemma_more_added(before, expected, added);
            expected = expected + added;
        }
        validate_optional(&self.crdhldr_bllg_amt, "CrdhldrBllgAmt", path, patterns, out);
        proof {
            let added = optional_reports(self.crdhldr_bllg_amt, "CrdhldrBllgAmt"@, here);
            lemma_more_added(before, expected, added);
            expected = expected + added;
        }
        validate_optional(&self.rcncltn_amt, "RcncltnAmt", path, patterns, out);
        proof {
            let added = optional_reports(self.rcncltn_amt, "RcncltnAmt"@, here);
            lemma_more_added(before, expected, added);
            expected = expected + added;
        }
    }
}

#[derive(Debug, Default, Clone, PartialEq)]
pub enum BytePadding1Code {
    /// Serialized as `LNGT`.
    Lngt,
    /// Serialized as `NUL8`.
    Nul8,
    /// Serialized as `NULG`.
    Nulg,
    /// Serialized as `NULL`.
    Null,
    /// Serialized as `RAND`.
    Rand,
    #[default]
    Unknown,
}

impl Validate for BytePadding1Code {
    open spec fn violations(&self, path: Seq<SegmentModel>) -> Seq<ReportModel> {
        Seq::empty()
    }

    fn validate_into(
        &self,
        path: &Vec<PathSegment>,
        patterns: &IdentifierPatterns,
        out: &mut Vec<ValidationViolation>,
    ) {
        proof {
            lemma_nothing_added(reports_model(out@));
        }
    }
}

#[derive(Debug, Default, Clone, PartialEq)]
pub struct SettlementService4 {
    /// Serialized as `SttlmSvcApld`.
    pub sttlm_svc_apld: Option<SettlementServiceMode1>,
    /// Serialized as `SttlmSvcDts`.
    pub sttlm_svc_dts: Option<SettlementServiceDate2>,
    /// Serialized as `SttlmRptgNtty`.
    pub sttlm_rptg_ntty: Option<SettlementReportingEntity1>,
    /// Serialized as `AddtlSttlmInf`.
    pub addtl_sttlm_inf: Vec<AdditionalData1>,
}

impl Validate for SettlementService4 {
    open spec fn violations(&self, path: Seq<SegmentModel>) -> Seq<ReportModel> {
        Seq::empty()
            + optional_reports(self.sttlm_svc_apld, "SttlmSvcApld"@, path)
            + optional_reports(self.sttlm_svc_dts, "SttlmSvcDts"@, path)
            + optional_reports(self.sttlm_rptg_ntty, "SttlmRptgNtty"@, path)
            + list_reports(self.addtl_sttlm_inf@, Some(0), None, "AddtlSttlmInf"@, path)
    }

    fn validate_into(
        &self,
        path: &Vec<PathSegment>,
        patterns: &IdentifierPatterns,
        out: &mut Vec<ValidationViolation>,
    ) {
        let ghost before = reports_model(out@);
        let ghost here = path_model(path@);
        let ghost mut expected = Seq::<ReportModel>::empty();
        proof {
            lemma_nothing_added(before);
        }
        validate_optional(&self.sttlm_svc_apld, "SttlmSvcApld", path, patterns, out);
        proof {
            let added = optional_reports(self.sttlm_svc_apld, "SttlmSvcApld"@, here);
            lemma_more_added(before, expected, added);
            expected = expected + added;
        }
        validate_optional(&self.sttlm_svc_dts, "SttlmSvcDts", path, patterns, out);
        proof {
            let added = optional_reports(self.sttlm_svc_dts, "SttlmSvcDts"@, here);
            lemma_more_added(before, expected, added);
            expected = expected + added;
        }
        validate_optional(&self.sttlm_rptg_ntty, "SttlmRptgNtty", path, patterns, out);
        proof {
            let added = optional_reports(self.sttlm_rptg_ntty, "SttlmRptgNtty"@, here);
            lemma_more_added(before, expected, added);
            expected = expected + added;
        }
        validate_list(&self.addtl_sttlm_inf, Some(0), None, "AddtlSttlmInf", path, patterns, out);
        proof {
            let added = list_reports(self.addtl_sttlm_inf@, Some(0), None, "AddtlSttlmInf"@, here);
            lemma_more_added(before, expected, added);
            expected = expected + added;
        }
    }
}

#[derive(Debug, Default, Clone, PartialEq)]
pub struct Token2 {
    /// Serialized as `PmtTkn`.
    pub pmt_tkn: Option<Max19NumericText>,
    /// Serialized as `TknXpryDt`.
    pub tkn_xpry_dt: Option<IsoYearMonth>,
    /// Serialized as `TknRqstrId`.
    pub tkn_rqstr_id: Option<Max11NumericText>,
    /// Serialized as `TknAssrncData`.
    pub tkn_assrnc_data: Option<Max140Text>,
    /// Serialized as `TknAssrncMtd`.
    pub tkn_assrnc_mtd: Option<Max2NumericText>,
    /// Serialized as `TknInittdInd`.
    pub tkn_inittd_ind: Option<TrueFalseIndicator>,
    /// Serialized as `StorgLctn`.
    pub storg_lctn: Option<StorageLocation1Code>,
    /// Serialized as `OthrStorgLctn`.
    pub othr_storg_lctn: Option<Max35Text>,
    /// Serialized as `PrtcnMtd`.
    pub prtcn_mtd: Option<ProtectionMethod1Code>,
    /// Serialized as `OthrPrtcnMtd`.
    pub othr_prtcn_mtd: Option<Max35Text>,
    /// Serialized as `AddtlData`.
    pub addtl_data: Vec<AdditionalData1>,
}

impl Validate for Token2 {
    open spec fn violations(&self, path: Seq<SegmentModel>) -> Seq<ReportModel> {
        Seq::empty()
            + optional_reports(self.pmt_tkn, "PmtTkn"@, path)
            + optional_reports(self.tkn_xpry_dt, "TknXpryDt"@, path)
            + optional_reports(self.tkn_rqstr_id, "TknRqstrId"@, path)
            + optional_reports(self.tkn_assrnc_data, "TknAssrncData"@, path)
            + optional_reports(self.tkn_assrnc_mtd, "TknAssrncMtd"@, path)
            + optional_reports(self.tkn_inittd_ind, "TknInittdInd"@, path)
            + optional_reports(self.storg_lctn, "StorgLctn"@, path)
            + optional_reports(self.othr_storg_lctn, "OthrStorgLctn"@, path)
            + optional_reports(self.prtcn_mtd, "PrtcnMtd"@, path)
            + optional_reports(self.othr_prtcn_mtd, "OthrPrtcnMtd"@, path)
            + list_reports(self.addtl_data@, Some(0), None, "AddtlData"@, path)
    }

    fn validate_into(
        &self,
        path: &Vec<PathSegment>,
        patterns: &IdentifierPatterns,
        out: &mut Vec<ValidationViolation>,
    ) {
        let ghost before = reports_model(out@);
        let ghost here = path_model(path@);
        let ghost mut expected = Seq::<ReportModel>::empty();
        proof {
            lemma_nothing_added(before);
        }
        validate_optional(&self.pmt_tkn, "PmtTkn", path, patterns, out);
        proof {
            let added = optional_reports(self.pmt_tkn, "PmtTkn"@, here);
            lemma_more_added(before, expected, added);
            expected = expected + added;
        }
        validate_optional(&self.tkn_xpry_dt, "TknXpryDt", path, patterns, out);
        proof {
            let added = optional_reports(self.tkn_xpry_dt, "TknXpryDt"@, here);
            lemma_more_added(before, expected, added);
            expected = expected + added;
        }
        validate_optional(&self.tkn_rqstr_id, "TknRqstrId", path, patterns, out);
        proof {
            let added = optional_reports(self.tkn_rqstr_id, "TknRqstrId"@, here);
            lemma_more_added(before, expected, added);
            expected = expected + added;
        }
        validate_optional(&self.tkn_assrnc_data, "TknAssrncData", path, patterns, out);
        proof {
            let added = optional_reports(self.tkn_assrnc_data, "TknAssrncData"@, here);
            lemma_more_added(before, expected, added);
            expected = expected + added;
        }
        validate_optional(&self.tkn_assrnc_mtd, "TknAssrncMtd", path, patterns, out);
        proof {
            let added = optional_reports(self.tkn_assrnc_mtd, "TknAssrncMtd"@, here);
            lemma_more_added(before, expected, added);
            expected = expected + added;
        }
        validate_optional(&self.tkn_inittd_ind, "TknInittdInd", path, patterns, out);
        proof {
            let added = optional_reports(self.tkn_inittd_ind, "TknInittdInd"@, here);
            lemma_more_added(before, expected, added);
            expected = expected + added;
        }
        validate_optional(&self.storg_lctn, "StorgLctn", path, patterns, out);
        proof {
            let added = optional_reports(self.storg_lctn, "StorgLctn"@, here);
            lemma_more_added(before, expected, added);
            expected = expected + added;
        }
        validate_optional(&self.othr_storg_lctn, "OthrStorgLctn", path, patterns, out);
        proof {
            let added = optional_reports(self.othr_storg_lctn, "OthrStorgLctn"@, here);
            lemma_more_added(before, expected, added);
            expected = expected + added;
        }
        validate_optional(&self.prtcn_mtd, "PrtcnMtd", path, patterns, out);
        proof {
            let added = optional_reports(self.prtcn_mtd, "PrtcnMtd"@, here);
            lemma_more_added(before, expected, added);
            expected = expected + added;
        }
        validate_optional(&self.othr_prtcn_mtd, "OthrPrtcnMtd", path, patterns, out);
        proof {
            let added = optional_reports(self.othr_prtcn_mtd, "OthrPrtcnMtd"@, here);
            lemma_more_added(before, expected, added);
            expected = expected + added;
        }
        validate_list(&self.addtl_data, Some(0), None, "AddtlData", path, patterns, out);
        proof {
            let added = list_reports(self.addtl_data@, Some(0), None, "AddtlData"@, here);
            lemma_more_added(before, expected, added);
            expected = expected + added;
        }
    }
}

/// Text of 1 to 16 characters.
#[derive(Debug, Default, Clone, PartialEq)]
pub struct Max16Text {
    /// The text of the element.
    pub value: String,
}

impl Validate for Max16Text {
    open spec fn violations(&self, path: Seq<SegmentModel>) -> Seq<ReportModel> {
        Seq::empty()
            + length_reports(self.value@, Some(1), Some(16), path)
    }

    fn validate_into(
        &self,
        path: &Vec<PathSegment>,
        patterns: &IdentifierPatterns,
        out: &mut Vec<ValidationViolation>,
    ) {
        let ghost before = reports_model(out@);
        let ghost here = path_model(path@);
        let ghost mut expected = Seq::<ReportModel>::empty();
        proof {
            lemma_nothing_added(before);
        }
        report_length(self.value.as_str(), Some(1), Some(16), path, out);
        proof {
            let added = length_reports(self.value@, Some(1), Some(16), here);
            lemma_more_added(before, expected, added);
            expected = expected + added;
        }
    }
}

/// Text of 5 to 16 characters that matches `[A-Za-z0-9+/]{4}*(?:[A-Za-z0-9+/]{2}==|[A-Za-z0-9+/]{3}=)?`.
#[derive(Debug, Default, Clone, PartialEq)]
pub struct Min5Max16Binary {
    pub value: String,
}

impl Validate for Min5Max16Binary {
    open spec fn violations(&self, path: Seq<SegmentModel>) -> Seq<ReportModel> {
        Seq::empty()
            + length_reports(self.value@, Some(5), Some(16), path)
            + pattern_reports(self.value@, "[A-Za-z0-9+/]{4}*(?:[A-Za-z0-9+/]{2}==|[A-Za-z0-9+/]{3}=)?"@, path)
    }

    fn validate_into(
        &self,
        path: &Vec<PathSegment>,
        patterns: &IdentifierPatterns,
        out: &mut Vec<ValidationViolation>,
    ) {
        let ghost before = reports_model(out@);
        let ghost here = path_model(path@);
        let ghost mut expected = Seq::<ReportModel>::empty();
        proof {
            lemma_nothing_added(before);
        }
        report_length(self.value.as_str(), Some(5), Some(16), path, out);
        proof {
            let added = length_reports(self.value@, Some(5), Some(16), here);
            lemma_more_added(before, expected, added);
            expected = expected + added;
        }
        report_pattern(self.value.as_str(), patterns.min_5_max_16_binary(), path, out);
        proof {
            let added = pattern_reports(self.value@, "[A-Za-z0-9+/]{4}*(?:[A-Za-z0-9+/]{2}==|[A-Za-z0-9+/]{3}=)?"@, here);
            lemma_more_added(before, expected, added);
            expected = expected + added;
        }
    }
}

#[derive(Debug, Default, Clone, PartialEq)]
pub struct SupplementaryData1<A> {
    /// Serialized as `PlcAndNm`.
    pub plc_and_nm: Option<Max350Text>,
    /// Serialized as `Envlp`.
    pub envlp: SupplementaryDataEnvelope1<A>,
}

impl<A: Validate> Validate for SupplementaryData1<A> {
    open spec fn violations(&self, path: Seq<SegmentModel>) -> Seq<ReportModel> {
        Seq::empty()
            + optional_reports(self.plc_and_nm, "PlcAndNm"@, path)
            + field_reports(self.envlp, "Envlp"@, path)
    }

    fn validate_into(
        &self,
        path: &Vec<PathSegment>,
        patterns: &IdentifierPatterns,
        out: &mut Vec<ValidationViolation>,
    ) {
        let ghost before = reports_model(out@);
        let ghost here = path_model(path@);
        let ghost mut expected = Seq::<ReportModel>::empty();
        proof {
            lemma_nothing_added(before);
        }
        validate_optional(&self.plc_and_nm, "PlcAndNm", path, patterns, out);
        proof {
            let added = optional_reports(self.plc_and_nm, "PlcAndNm"@, here);
            lemma_more_added(before, expected, added);
            expected = expected + added;
        }
        validate_field(&self.envlp, "Envlp", path, patterns, out);
        proof {
            let added = field_reports(self.envlp, "Envlp"@, here);
            lemma_more_added(before, expected, added);
            expected = expected + added;
        }
    }
}

/// Text that matches `([0-9A-F][0-9A-F]){1,8}`.
#[derive(Debug, Default, Clone, PartialEq)]
pub struct Max8HexBinaryText {
    /// The text of the element.
    pub value: String,
}

impl Validate for Max8HexBinaryText {
    open spec fn violations(&self, path: Seq<SegmentModel>) -> Seq<ReportModel> {
        Seq::empty()
            + pattern_reports(self.value@, "([0-9A-F][0-9A-F]){1,8}"@, path)
    }

    fn validate_into(
        &self,
        path: &Vec<PathSegment>,
        patterns: &IdentifierPatterns,
        out: &mut Vec<ValidationViolation>,
    ) {
        let ghost before = reports_model(out@);
        let ghost here = path_model(path@);
        let ghost mut expected = Seq::<ReportModel>::empty();
        proof {
            lemma_nothing_added(before);
        }
        report_pattern(self.value.as_str(), patterns.max_8_hex_binary_text(), path, out);
        proof {
            let added = pattern_reports(self.value@, "([0-9A-F][0-9A-F]){1,8}"@, here);
            lemma_more_added(before, expected, added);
            expected = expected + added;
        }
    }
}

/// Text of 1 to 140 characters.
#[derive(Debug, Default, Clone, PartialEq)]
pub struct Max140Text {
    /// The text of the element.
    pub value: String,
}

impl Validate for Max140Text {
    open spec fn violations(&self, path: Seq<SegmentModel>) -> Seq<ReportModel> {
        Seq::empty()
            + length_reports(self.value@, Some(1), Some(140), path)
    }

    fn validate_into(
        &self,
        path: &Vec<PathSegment>,
        patterns: &IdentifierPatterns,
        out: &mut Vec<ValidationViolation>,
    ) {
        let ghost before = reports_model(out@);
        let ghost here = path_model(path@);
        let ghost mut expected = Seq::<ReportModel>::empty();
        proof {
            lemma_nothing_added(before);
        }
        report_length(self.value.as_str(), Some(1), Some(140), path, out);
        proof {
            let added = length_reports(self.value@, Some(1), Some(140), here);
            lemma_more_added(before, expected, added);
            expected = expected + added;
        }
    }
}

#[derive(Debug, Default, Clone, PartialEq)]
pub enum Algorithm13Code {
    /// Serialized as `EA2C`.
    Ea2C,
    /// Serialized as `E3DC`.
    E3Dc,
    /// Serialized as `DKP9`.
    Dkp9,
    /// Serialized as `UKPT`.
    Ukpt,
    /// Serialized as `UKA1`.
    Uka1,
    /// Serialized as `EA9C`.
    Ea9C,
    /// Serialized as `EA5C`.
    Ea5C,
    #[default]
    Unknown,
}

impl Validate for Algorithm13Code {
    open spec fn violations(&self, path: Seq<SegmentModel>) -> Seq<ReportModel> {
        Seq::empty()
    }

    fn validate_into(
        &self,
        path: &Vec<PathSegment>,
        patterns: &IdentifierPatterns,
        out: &mut Vec<ValidationViolation>,
    ) {
        proof {
            lemma_nothing_added(reports_model(out@));
        }
    }
}

#[derive(Debug, Default, Clone, PartialEq)]
pub struct Contact6 {
    /// Serialized as `HomePhneNb`.
    pub home_phne_nb: Option<PhoneNumber>,
    /// Serialized as `BizPhneNb`.
    pub biz_phne_nb: Option<PhoneNumber>,
    /// Serialized as `MobPhneNb`.
    pub mob_phne_nb: Option<PhoneNumber>,
    /// Serialized as `OthrPhneNb`.
    pub othr_phne_nb: Option<PhoneNumber>,
    /// Serialized as `PrsnlEmailAdr`.
    pub prsnl_email_adr: Option<Max256Text>,
    /// Serialized as `BizEmailAdr`.
    pub biz_email_adr: Option<Max256Text>,
    /// Serialized as `OthrEmailAdr`.
    pub othr_email_adr: Option<Max256Text>,
    /// Serialized as `HomeFaxNb`.
    pub home_fax_nb: Option<PhoneNumber>,
    /// Serialized as `BizFaxNb`.
    pub biz_fax_nb: Option<PhoneNumber>,
    /// Serialized as `URLAdr`.
    pub url_adr: Option<Max256Text>,
    /// Serialized as `Lang`.
    pub lang: Option<LanguageCode>,
}

impl Validate for Contact6 {
    open spec fn violations(&self, path: Seq<SegmentModel>) -> Seq<ReportModel> {
        Seq::empty()
            + optional_reports(self.home_phne_nb, "HomePhneNb"@, path)
            + optional_reports(self.biz_phne_nb, "BizPhneNb"@, path)
            + optional_reports(self.mob_phne_nb, "MobPhneNb"@, path)
            + optional_reports(self.othr_phne_nb, "OthrPhneNb"@, path)
            + optional_reports(self.prsnl_email_adr, "PrsnlEmailAdr"@, path)
            + optional_reports(self.biz_email_adr, "BizEmailAdr"@, path)
            + optional_reports(self.othr_email_adr, "OthrEmailAdr"@, path)
            + optional_reports(self.home_fax_nb, "HomeFaxNb"@, path)
            + optional_reports(self.biz_fax_nb, "BizFaxNb"@, path)
            + optional_reports(self.url_adr, "URLAdr"@, path)
            + optional_reports(self.lang, "Lang"@, path)
    }

    fn validate_into(
        &self,
        path: &Vec<PathSegment>,
        patterns: &IdentifierPatterns,
        out: &mut Vec<ValidationViolation>,
    ) {
        let ghost before = reports_model(out@);
        let ghost here = path_model(path@);
        let ghost mut expected = Seq::<ReportModel>::empty();
        proof {
            lemma_nothing_added(before);
        }
        validate_optional(&self.home_phne_nb, "HomePhneNb", path, patterns, out);
        proof {
            let added = optional_reports(self.home_phne_nb, "HomePhneNb"@, here);
            lemma_more_added(before, expected, added);
            expected = expected + added;
        }
        validate_optional(&self.biz_phne_nb, "BizPhneNb", path, patterns, out);
        proof {
            let added = optional_reports(self.biz_phne_nb, "BizPhneNb"@, here);
            lemma_more_added(before, expected, added);
            expected = expected + added;
        }
        validate_optional(&self.mob_phne_nb, "MobPhneNb", path, patterns, out);
        proof {
            let added = optional_reports(self.mob_phne_nb, "MobPhneNb"@, here);
            lemma_more_added(before, expected, added);
            expected = expected + added;
        }
        validate_optional(&self.othr_phne_nb, "OthrPhneNb", path, patterns, out);
        proof {
            let added = optional_reports(self.othr_phne_nb, "OthrPhneNb"@, here);
            lemma_more_added(before, expected, added);
            expected = expected + added;
        }
        validate_optional(&self.prsnl_email_adr, "PrsnlEmailAdr", path, patterns, out);
        proof {
            let added = optional_reports(self.prsnl_email_adr, "PrsnlEmailAdr"@, here);
            lemma_more_added(before, expected, added);
            expected = expected + added;
        }
        validate_optional(&self.biz_email_adr, "BizEmailAdr", path, patterns, out);
        proof {
            let added = optional_reports(self.biz_email_adr, "BizEmailAdr"@, here);
            lemma_more_added(before, expected, added);
            expected = expected + added;
        }
        validate_optional(&self.othr_email_adr, "OthrEmailAdr", path, patterns, out);
        proof {
            let added = optional_reports(self.othr_email_adr, "OthrEmailAdr"@, here);
            lemma_more_added(before, expected, added);
            expected = expected + added;
        }
        validate_optional(&self.home_fax_nb, "HomeFaxNb", path, patterns, out);
        proof {
            let added = optional_reports(self.home_fax_nb, "HomeFaxNb"@, here);
            lemma_more_added(before, expected, added);
            expected = expected + added;
        }
        validate_optional(&self.biz_fax_nb, "BizFaxNb", path, patterns, out);
        proof {
            let added = optional_reports(self.biz_fax_nb, "BizFaxNb"@, here);
            lemma_more_added(before, expected, added);
            expected = expected + added;
        }
        validate_optional(&self.url_adr, "URLAdr", path, patterns, out);
        proof {
            let added = optional_reports(self.url_adr, "URLAdr"@, here);
            lemma_more_added(before, expected, added);
            expected = expected + added;
        }
        validate_optional(&self.lang, "Lang", path, patterns, out);
        proof {
            let added = optional_reports(self.lang, "Lang"@, here);
            lemma_more_added(before, expected, added);
            expected = expected + added;
        }
    }
}

#[derive(Debug, Default, Clone, PartialEq)]
pub struct YesNoIndicator {
    /// The text of the element.
    pub value: bool,
}

impl Validate for YesNoIndicator {
    open spec fn violations(&self, path: Seq<SegmentModel>) -> Seq<ReportModel> {
        Seq::empty()
    }

    fn validate_into(
        &self,
        path: &Vec<PathSegment>,
        patterns: &IdentifierPatterns,
        out: &mut Vec<ValidationViolation>,
    ) {
        proof {
            lemma_nothing_added(reports_model(out@));
        }
    }
}

#[derive(Debug, Default, Clone, PartialEq)]
pub struct CertificateIssuer1 {
    /// Serialized as `RltvDstngshdNm`.
    pub rltv_dstngshd_nm: Vec<RelativeDistinguishedName1>,
}

impl Validate for CertificateIssuer1 {
    open spec fn violations(&self, path: Seq<SegmentModel>) -> Seq<ReportModel> {
        Seq::empty()
            + list_reports(self.rltv_dstngshd_nm@, Some(1), None, "RltvDstngshdNm"@, path)
    }

    fn validate_into(
        &self,
        path: &Vec<PathSegment>,
        patterns: &IdentifierPatterns,
        out: &mut Vec<ValidationViolation>,
    ) {
        let ghost before = reports_model(out@);
        let ghost here = path_model(path@);
        let ghost mut expected = Seq::<ReportModel>::empty();
        proof {
            lemma_nothing_added(before);
        }
        validate_list(&self.rltv_dstngshd_nm, Some(1), None, "RltvDstngshdNm", path, patterns, out);
        proof {
            let added = list_reports(self.rltv_dstngshd_nm@, Some(1), None, "RltvDstngshdNm"@, here);
            lemma_more_added(before, expected, added);
            expected = expected + added;
        }
    }
}

/// Text that matches `[0-9]{1,5}`.
#[derive(Debug, Default, Clone, PartialEq)]
pub struct Max5NumericText {
    /// The text of the element.
    pub value: String,
}

impl Validate for Max5NumericText {
    open spec fn violations(&self, path: Seq<SegmentModel>) -> Seq<ReportModel> {
        Seq::empty()
            + pattern_reports(self.value@, "[0-9]{1,5}"@, path)
    }

    fn validate_into(
        &self,
        path: &Vec<PathSegment>,
        patterns: &IdentifierPatterns,
        out: &mut Vec<ValidationViolation>,
    ) {
        let ghost before = reports_model(out@);
        let ghost here = path_model(path@);
        let ghost mut expected = Seq::<ReportModel>::empty();
        proof {
            lemma_nothing_added(before);
        }
        report_pattern(self.value.as_str(), patterns.max_5_numeric_text(), path, out);
        proof {
            let added = pattern_reports(self.value@, "[0-9]{1,5}"@, here);
            lemma_more_added(before, expected, added);
            expected = expected + added;
        }
    }
}

/// Text that matches `[0-9]{1,23}`.
#[derive(Debug, Default, Clone, PartialEq)]
pub struct Max23NumericText {
    /// The text of the element.
    pub value: String,
}

impl Validate for Max23NumericText {
    open spec fn violations(&self, path: Seq<SegmentModel>) -> Seq<ReportModel> {
        Seq::empty()
            + pattern_reports(self.value@, "[0-9]{1,23}"@, path)
    }

    fn validate_into(
        &self,
        path: &Vec<PathSegment>,
        patterns: &IdentifierPatterns,
        out: &mut Vec<ValidationViolation>,
    ) {
        let ghost before = reports_model(out@);
        let ghost here = path_model(path@);
        let ghost mut expected = Seq::<ReportModel>::empty();
        proof {
            lemma_nothing_added(before);
        }
        report_pattern(self.value.as_str(), patterns.max_23_numeric_text(), path, out);
        proof {
            let added = pattern_reports(self.value@, "[0-9]{1,23}"@, here);
            lemma_more_added(before, expected, added);
            expected = expected + added;
        }
    }
}

/// Text that matches `\+[0-9]{1,3}-[0-9()+\-]{1,30}`.
#[derive(Debug, Default, Clone, PartialEq)]
pub struct PhoneNumber {
    /// The text of the element.
    pub value: String,
}

impl Validate for PhoneNumber {
    open spec fn violations(&self, path: Seq<SegmentModel>) -> Seq<ReportModel> {
        Seq::empty()
            + pattern_reports(self.value@, "\\+[0-9]{1,3}-[0-9()+\\-]{1,30}"@, path)
    }

    fn validate_into(
        &self,
        path: &Vec<PathSegment>,
        patterns: &IdentifierPatterns,
        out: &mut Vec<ValidationViolation>,
    ) {
        let ghost before = reports_model(out@);
        let ghost here = path_model(path@);
        let ghost mut expected = Seq::<ReportModel>::empty();
        proof {
            lemma_nothing_added(before);
        }
        report_pattern(self.value.as_str(), patterns.phone_number(), path, out);
        proof {
            let added = pattern_reports(self.value@, "\\+[0-9]{1,3}-[0-9()+\\-]{1,30}"@, here);
            lemma_more_added(before, expected, added);
            expected = expected + added;
        }
    }
}

#[derive(Debug, Default, Clone, PartialEq)]
pub struct ErrorDetails2 {
    /// Serialized as `MsgErrTp`.
    pub msg_err_tp: MessageError1Code,
    /// Serialized as `OthrMsgErrTp`.
    pub othr_msg_err_tp: Option<Max35Text>,
    /// Serialized as `ErrCd`.
    pub err_cd: Option<Max35Text>,
    /// Serialized as `ErrDesc`.
    pub err_desc: Option<Max500Text>,
    /// Serialized as `DataElmtInErr`.
    pub data_elmt_in_err: Vec<Max4000Text>,
}

impl Validate for ErrorDetails2 {
    open spec fn violations(&self, path: Seq<SegmentModel>) -> Seq<ReportModel> {
        Seq::empty()
            + field_reports(self.msg_err_tp, "MsgErrTp"@, path)
            + optional_reports(self.othr_msg_err_tp, "OthrMsgErrTp"@, path)
            + optional_reports(self.err_cd, "ErrCd"@, path)
            + optional_reports(self.err_desc, "ErrDesc"@, path)
            + list_reports(self.data_elmt_in_err@, Some(0), None, "DataElmtInErr"@, path)
    }

    fn validate_into(
        &self,
        path: &Vec<PathSegment>,
        patterns: &IdentifierPatterns,
        out: &mut Vec<ValidationViolation>,
    ) {
        let ghost before = reports_model(out@);
        let ghost here = path_model(path@);
        let ghost mut expected = Seq::<ReportModel>::empty();
        proof {
            lemma_nothing_added(before);
        }
        validate_field(&self.msg_err_tp, "MsgErrTp", path, patterns, out);
        proof {
            let added = field_reports(self.msg_err_tp, "MsgErrTp"@, here);
            lemma_more_added(before, expected, added);
            expected = expected + added;
        }
        validate_optional(&self.othr_msg_err_tp, "OthrMsgErrTp", path, patterns, out);
        proof {
            let added = optional_reports(self.othr_msg_err_tp, "OthrMsgErrTp"@, here);
            lemma_more_added(before, expected, added);
            expected = expected + added;
        }
        validate_optional(&self.err_cd, "ErrCd", path, patterns, out);
        proof {
            let added = optional_reports(self.err_cd, "ErrCd"@, here);
            lemma_more_added(before, expected, added);
            expected = expected + added;
        }
        validate_optional(&self.err_desc, "ErrDesc", path, patterns, out);
        proof {
            let added = optional_reports(self.err_desc, "ErrDesc"@, here);
            lemma_more_added(before, expected, added);
            expected = expected + added;
        }
        validate_list(&self.data_elmt_in_err, Some(0), None, "DataElmtInErr", path, patterns, out);
        proof {
            let added = list_reports(self.data_elmt_in_err@, Some(0), None, "DataElmtInErr"@, here);
            lemma_more_added(before, expected, added);
            expected = expected + added;
        }
    }
}

/// Text that matches `[0-9]{1,15}`.
#[derive(Debug, Default, Clone, PartialEq)]
pub struct Max15NumericText {
    /// The text of the element.
    pub value: String,
}

impl Validate for Max15NumericText {
    open spec fn violations(&self, path: Seq<SegmentModel>) -> Seq<ReportModel> {
        Seq::empty()
            + pattern_reports(self.value@, "[0-9]{1,15}"@, path)
    }

    fn validate_into(
        &self,
        path: &Vec<PathSegment>,
        patterns: &IdentifierPatterns,
        out: &mut Vec<ValidationViolation>,
    ) {
        let ghost before = reports_model(out@);
        let ghost here = path_model(path@);
        let ghost mut expected = Seq::<ReportModel>::empty();
        proof {
            lemma_nothing_added(before);
        }
        report_pattern(self.value.as_str(), patterns.max_15_numeric_text(), path, out);
        proof {
            let added = pattern_reports(self.value@, "[0-9]{1,15}"@, here);
            lemma_more_added(before, expected, added);
            expected = expected + added;
        }
    }
}

/// Text that matches `[0-9A-Z]{2,2}`.
#[derive(Debug, Default, Clone, PartialEq)]
pub struct Iso8583ResponseCode {
    /// The text of the element.
    pub value: String,
}

impl Validate for Iso8583ResponseCode {
    open spec fn violations(&self, path: Seq<SegmentModel>) -> Seq<ReportModel> {
        Seq::empty()
            + pattern_reports(self.value@, "[0-9A-Z]{2,2}"@, path)
    }

    fn validate_into(
        &self,
        path: &Vec<PathSegment>,
        patterns: &IdentifierPatterns,
        out: &mut Vec<ValidationViolation>,
    ) {
        let ghost before = reports_model(out@);
        let ghost here = path_model(path@);
        let ghost mut expected = Seq::<ReportModel>::empty();
        proof {
            lemma_nothing_added(before);
        }
        report_pattern(self.value.as_str(), patterns.iso_8583_response_code(), path, out);
        proof {
            let added = pattern_reports(self.value@, "[0-9A-Z]{2,2}"@, here);
            lemma_more_added(before, expected, added);
            expected = expected + added;
        }
    }
}

#[derive(Debug, Default, Clone, PartialEq)]
pub struct LanguageCode {
    /// The text of the element.
    pub value: String,
}

impl Validate for LanguageCode {
    open spec fn violations(&self, path: Seq<SegmentModel>) -> Seq<ReportModel> {
        Seq::empty()
    }

    fn validate_into(
        &self,
        path: &Vec<PathSegment>,
        patterns: &IdentifierPatterns,
        out: &mut Vec<ValidationViolation>,
    ) {
        proof {
            lemma_nothing_added(reports_model(out@));
        }
    }
}

#[derive(Debug, Default, Clone, PartialEq)]
pub struct TransactionLifeCycleIdentification1 {
    /// Serialized as `Id`.
    pub id: Exact15Text,
    /// Serialized as `AuthstnSeqNb`.
    pub authstn_seq_nb: Option<Exact2NumericText>,
    /// Serialized as `PresntmntSeqNb`.
    pub presntmnt_seq_nb: Option<Exact2NumericText>,
    /// Serialized as `PresntmntSeqCnt`.
    pub presntmnt_seq_cnt: Option<Exact2NumericText>,
    /// Serialized as `AuthntcnTkn`.
    pub authntcn_tkn: Option<Max35Text>,
}

impl Validate for TransactionLifeCycleIdentification1 {
    open spec fn violations(&self, path: Seq<SegmentModel>) -> Seq<ReportModel> {
        Seq::empty()
            + field_reports(self.id, "Id"@, path)
            + optional_reports(self.authstn_seq_nb, "AuthstnSeqNb"@, path)
            + optional_reports(self.presntmnt_seq_nb, "PresntmntSeqNb"@, path)
            + optional_reports(self.presntmnt_seq_cnt, "PresntmntSeqCnt"@, path)
            + optional_reports(self.authntcn_tkn, "AuthntcnTkn"@, path)
    }

    fn validate_into(
        &self,
        path: &Vec<PathSegment>,
        patterns: &IdentifierPatterns,
        out: &mut Vec<ValidationViolation>,
    ) {
        let ghost before = reports_model(out@);
        let ghost here = path_model(path@);
        let ghost mut expected = Seq::<ReportModel>::empty();
        proof {
            lemma_nothing_added(before);
        }
        validate_field(&self.id, "Id", path, patterns, out);
        proof {
            let added = field_reports(self.id, "Id"@, here);
            lemma_more_added(before, expected, added);
            expected = expected + added;
        }
        validate_optional(&self.authstn_seq_nb, "AuthstnSeqNb", path, patterns, out);
        proof {
            let added = optional_reports(self.authstn_seq_nb, "AuthstnSeqNb"@, here);
            lemma_more_added(before, expected, added);
            expected = expected + added;
        }
        validate_optional(&self.presntmnt_seq_nb, "PresntmntSeqNb", path, patterns, out);
        proof {
            let added = optional_reports(self.presntmnt_seq_nb, "PresntmntSeqNb"@, here);
            lemma_more_added(before, expected, added);
            expected = expected + added;
        }
        validate_optional(&self.presntmnt_seq_cnt, "PresntmntSeqCnt", path, patterns, out);
        proof {
            let added = optional_reports(self.presntmnt_seq_cnt, "PresntmntSeqCnt"@, here);
            lemma_more_added(before, expected, added);
            expected = expected + added;
        }
        validate_optional(&self.authntcn_tkn, "AuthntcnTkn", path, patterns, out);
        proof {
            let added = optional_reports(self.authntcn_tkn, "AuthntcnTkn"@, here);
            lemma_more_added(before, expected, added);
            expected = expected + added;
        }
    }
}

#[derive(Debug, Default, Clone, PartialEq)]
pub enum AttributeType1Code {
    /// Serialized as `CNAT`.
    Cnat,
    /// Serialized as `LATT`.
    Latt,
    /// Serialized as `OATT`.
    Oatt,
    /// Serialized as `OUAT`.
    Ouat,
    /// Serialized as `CATT`.
    Catt,
    #[default]
    Unknown,
}

impl Validate for AttributeType1Code {
    open spec fn violations(&self, path: Seq<SegmentModel>) -> Seq<ReportModel> {
        Seq::empty()
    }

    fn validate_into(
        &self,
        path: &Vec<PathSegment>,
        patterns: &IdentifierPatterns,
        out: &mut Vec<ValidationViolation>,
    ) {
        proof {
            lemma_nothing_added(reports_model(out@));
        }
    }
}

#[derive(Debug, Default, Clone, PartialEq)]
pub enum ProtectionMethod1Code {
    /// Serialized as `OTHN`.
    Othn,
    /// Serialized as `OTHP`.
    Othp,
    /// Serialized as `SELM`.
    Selm,
    /// Serialized as `SNCL`.
    Sncl,
    /// Serialized as `SOFT`.
    Soft,
    /// Serialized as `TEEN`.
    Teen,
    #[default]
    Unknown,
}

impl Validate for ProtectionMethod1Code {
    open spec fn violations(&self, path: Seq<SegmentModel>) -> Seq<ReportModel> {
        Seq::empty()
    }

    fn validate_into(
        &self,
        path: &Vec<PathSegment>,
        patterns: &IdentifierPatterns,
        out: &mut Vec<ValidationViolation>,
    ) {
        proof {
            lemma_nothing_added(reports_model(out@));
        }
    }
}

/// A calendar date.
#[derive(Debug, Default, Clone, PartialEq)]
pub struct IsoDate {
    /// The text of the element. A calendar date in ISO 8601 form.
    pub value: String,
}

impl Validate for IsoDate {
    open spec fn violations(&self, path: Seq<SegmentModel>) -> Seq<ReportModel> {
        Seq::empty()
    }

    fn validate_into(
        &self,
        path: &Vec<PathSegment>,
        patterns: &IdentifierPatterns,
        out: &mut Vec<ValidationViolation>,
    ) {
        proof {
            lemma_nothing_added(reports_model(out@));
        }
    }
}

/// The alternatives of a choice: exactly one of them is populated.
#[derive(Debug, Default, Clone, PartialEq)]
pub struct Recipient7ChoiceEnum {
    /// Serialized as `KeyTrnsprt`.
    pub key_trnsprt: Option<KeyTransport6>,
    /// Serialized as `KeyIdr`.
    pub key_idr: Option<KekIdentifier6>,
    /// Serialized as `KEK`.
    pub kek: Option<Kek6>,
}

impl Validate for Recipient7ChoiceEnum {
    open spec fn violations(&self, path: Seq<SegmentModel>) -> Seq<ReportModel> {
        Seq::empty()
            + choice_reports(
                Seq::empty()
                    + name_if(self.key_trnsprt.is_some(), "KeyTrnsprt"@)
                    + name_if(self.key_idr.is_some(), "KeyIdr"@)
                    + name_if(self.kek.is_some(), "KEK"@),
                path,
            )
            + optional_reports(self.key_trnsprt, "KeyTrnsprt"@, path)
            + optional_reports(self.key_idr, "KeyIdr"@, path)
            + optional_reports(self.kek, "KEK"@, path)
    }

    fn validate_into(
        &self,
        path: &Vec<PathSegment>,
        patterns: &IdentifierPatterns,
        out: &mut Vec<ValidationViolation>,
    ) {
        let ghost before = reports_model(out@);
        let ghost here = path_model(path@);
        let ghost mut expected = Seq::<ReportModel>::empty();
        proof {
            lemma_nothing_added(before);
        }
        let mut present: Vec<String> = Vec::new();
        let ghost mut names = Seq::<Seq<char>>::empty();
        proof {
            assert(names_model(present@) =~= names);
        }
        note_present(self.key_trnsprt.is_some(), "KeyTrnsprt", &mut present);
        proof {
            names = names + name_if(self.key_trnsprt.is_some(), "KeyTrnsprt"@);
        }
        note_present(self.key_idr.is_some(), "KeyIdr", &mut present);
        proof {
            names = names + name_if(self.key_idr.is_some(), "KeyIdr"@);
        }
        note_present(self.kek.is_some(), "KEK", &mut present);
        proof {
            names = names + name_if(self.kek.is_some(), "KEK"@);
        }
        report_choice(present, path, out);
        proof {
            let added = choice_reports(names, here);
            lemma_more_added(before, expected, added);
            expected = expected + added;
        }
        validate_optional(&self.key_trnsprt, "KeyTrnsprt", path, patterns, out);
        proof {
            let added = optional_reports(self.key_trnsprt, "KeyTrnsprt"@, here);
            lemma_more_added(before, expected, added);
            expected = expected + added;
        }
        validate_optional(&self.key_idr, "KeyIdr", path, patterns, out);
        proof {
            let added = optional_reports(self.key_idr, "KeyIdr"@, here);
            lemma_more_added(before, expected, added);
            expected = expected + added;
        }
        validate_optional(&self.kek, "KEK", path, patterns, out);
        proof {
            let added = optional_reports(self.kek, "KEK"@, here);
            lemma_more_added(before, expected, added);
            expected = expected + added;
        }
    }
}

/// A choice, serialized as its populated alternative.
#[derive(Debug, Default, Clone, PartialEq)]
pub struct Recipient7Choice {
    /// Serialized in place, without an element of its own.
    pub value: Recipient7ChoiceEnum,
}

impl Validate for Recipient7Choice {
    open spec fn violations(&self, path: Seq<SegmentModel>) -> Seq<ReportModel> {
        Seq::empty()
            + self.value.violations(path)
    }

    fn validate_into(
        &self,
        path: &Vec<PathSegment>,
        patterns: &IdentifierPatterns,
        out: &mut Vec<ValidationViolation>,
    ) {
        let ghost before = reports_model(out@);
        let ghost here = path_model(path@);
        let ghost mut expected = Seq::<ReportModel>::empty();
        proof {
            lemma_nothing_added(before);
        }
        self.value.validate_into(path, patterns, out);
        proof {
            let added = self.value.violations(here);
            lemma_more_added(before, expected, added);
            expected = expected + added;
        }
    }
}

#[derive(Debug, Default, Clone, PartialEq)]
pub struct SettlementServiceMode1 {
    /// Serialized as `Tp`.
    pub tp: Option<Max35Text>,
    /// Serialized as `Id`.
    pub id: Option<Max35Text>,
    /// Serialized as `ShrtNm`.
    pub shrt_nm: Option<Max35Text>,
    /// Serialized as `SttlmPrty`.
    pub sttlm_prty: Option<Priority3Code>,
}

impl Validate for SettlementServiceMode1 {
    open spec fn violations(&self, path: Seq<SegmentModel>) -> Seq<ReportModel> {
        Seq::empty()
            + optional_reports(self.tp, "Tp"@, path)
            + optional_reports(self.id, "Id"@, path)
            + optional_reports(self.shrt_nm, "ShrtNm"@, path)
            + optional_reports(self.sttlm_prty, "SttlmPrty"@, path)
    }

    fn validate_into(
        &self,
        path: &Vec<PathSegment>,
        patterns: &IdentifierPatterns,
        out: &mut Vec<ValidationViolation>,
    ) {
        let ghost before = reports_model(out@);
        let ghost here = path_model(path@);
        let ghost mut expected = Seq::<ReportModel>::empty();
        proof {
            lemma_nothing_added(before);
        }
        validate_optional(&self.tp, "Tp", path, patterns, out);
        proof {
            let added = optional_reports(self.tp, "Tp"@, here);
            lemma_more_added(before, expected, added);
            expected = expected + added;
        }
        validate_optional(&self.id, "Id", path, patterns, out);
        proof {
            let added = optional_reports(self.id, "Id"@, here);
            lemma_more_added(before, expected, added);
            expected = expected + added;
        }
        validate_optional(&self.shrt_nm, "ShrtNm", path, patterns, out);
        proof {
            let added = optional_reports(self.shrt_nm, "ShrtNm"@, here);
            lemma_more_added(before, expected, added);
            expected = expected + added;
        }
        validate_optional(&self.sttlm_prty, "SttlmPrty", path, patterns, out);
        proof {
            let added = optional_reports(self.sttlm_prty, "SttlmPrty"@, here);
            lemma_more_added(before, expected, added);
            expected = expected + added;
        }
    }
}

/// A number of at least 0.
#[derive(Debug, Default, Clone, PartialEq)]
pub struct ImpliedCurrencyAndAmount {
    /// The text of the element.
    pub value: Decimal,
}

impl Validate for ImpliedCurrencyAndAmount {
    open spec fn violations(&self, path: Seq<SegmentModel>) -> Seq<ReportModel> {
        Seq::empty()
            + range_reports(self.value, Some(Decimal::whole_spec(0)), None, path)
    }

    fn validate_into(
        &self,
        path: &Vec<PathSegment>,
        patterns: &IdentifierPatterns,
        out: &mut Vec<ValidationViolation>,
    ) {
        let ghost before = reports_model(out@);
        let ghost here = path_model(path@);
        let ghost mut expected = Seq::<ReportModel>::empty();
        proof {
            lemma_nothing_added(before);
        }
        report_range(self.value, Some(Decimal::whole(0)), None, path, out);
        proof {
            let added = range_reports(self.value, Some(Decimal::whole_spec(0)), None, here);
            lemma_more_added(before, expected, added);
            expected = expected + added;
        }
    }
}

#[derive(Debug, Default, Clone, PartialEq)]
pub enum AdditionalServiceResult1Code {
    /// Serialized as `NOPF`.
    Nopf,
    /// Serialized as `NOSP`.
    Nosp,
    /// Serialized as `OTHN`.
    Othn,
    /// Serialized as `OTHP`.
    Othp,
    /// Serialized as `PERF`.
    Perf,
    #[default]
    Unknown,
}

impl Validate for AdditionalServiceResult1Code {
    open spec fn violations(&self, path: Seq<SegmentModel>) -> Seq<ReportModel> {
        Seq::empty()
    }

    fn validate_into(
        &self,
        path: &Vec<PathSegment>,
        patterns: &IdentifierPatterns,
        out: &mut Vec<ValidationViolation>,
    ) {
        proof {
            lemma_nothing_added(reports_model(out@));
        }
    }
}

#[derive(Debug, Default, Clone, PartialEq)]
pub enum ContentType3Code {
    /// Serialized as `EVLP`.
    Evlp,
    /// Serialized as `IFSE`.
    Ifse,
    #[default]
    Unknown,
}

impl Validate for ContentType3Code {
    open spec fn violations(&self, path: Seq<SegmentModel>) -> Seq<ReportModel> {
        Seq::empty()
    }

    fn validate_into(
        &self,
        path: &Vec<PathSegment>,
        patterns: &IdentifierPatterns,
        out: &mut Vec<ValidationViolation>,
    ) {
        proof {
            lemma_nothing_added(reports_model(out@));
        }
    }
}

/// Text that matches `[0-9]{2,3}`.
#[derive(Debug, Default, Clone, PartialEq)]
pub struct Min2Max3NumericText {
    /// The text of the element.
    pub value: String,
}

impl Validate for Min2Max3NumericText {
    open spec fn violations(&self, path: Seq<SegmentModel>) -> Seq<ReportModel> {
        Seq::empty()
            + pattern_reports(self.value@, "[0-9]{2,3}"@, path)
    }

    fn validate_into(
        &self,
        path: &Vec<PathSegment>,
        patterns: &IdentifierPatterns,
        out: &mut Vec<ValidationViolation>,
    ) {
        let ghost before = reports_model(out@);
        let ghost here = path_model(path@);
        let ghost mut expected = Seq::<ReportModel>::empty();
        proof {
            lemma_nothing_added(before);
        }
        report_pattern(self.value.as_str(), patterns.min_2_max_3_numeric_text(), path, out);
        proof {
            let added = pattern_reports(self.value@, "[0-9]{2,3}"@, here);
            lemma_more_added(before, expected, added);
            expected = expected + added;
        }
    }
}

#[derive(Debug, Default, Clone, PartialEq)]
pub struct Reconciliation3 {
    /// Serialized as `Id`.
    pub id: Option<Max35Text>,
    /// Serialized as `Dt`.
    pub dt: Option<IsoDate>,
    /// Serialized as `ChckptRef`.
    pub chckpt_ref: Option<Max35Text>,
}

impl Validate for Reconciliation3 {
    open spec fn violations(&self, path: Seq<SegmentModel>) -> Seq<ReportModel> {
        Seq::empty()
            + optional_reports(self.id, "Id"@, path)
            + optional_reports(self.dt, "Dt"@, path)
            + optional_reports(self.chckpt_ref, "ChckptRef"@, path)
    }

    fn validate_into(
        &self,
        path: &Vec<PathSegment>,
        patterns: &IdentifierPatterns,
        out: &mut Vec<ValidationViolation>,
    ) {
        let ghost before = reports_model(out@);
        let ghost here = path_model(path@);
        let ghost mut expected = Seq::<ReportModel>::empty();
        proof {
            lemma_nothing_added(before);
        }
        validate_optional(&self.id, "Id", path, patterns, out);
        proof {
            let added = optional_reports(self.id, "Id"@, here);
            lemma_more_added(before, expected, added);
            expected = expected + added;
        }
        validate_optional(&self.dt, "Dt", path, patterns, out);
        proof {
            let added = optional_reports(self.dt, "Dt"@, here);
            lemma_more_added(before, expected, added);
            expected = expected + added;
        }
        validate_optional(&self.chckpt_ref, "ChckptRef", path, patterns, out);
        proof {
            let added = optional_reports(self.chckpt_ref, "ChckptRef"@, here);
            lemma_more_added(before, expected, added);
            expected = expected + added;
        }
    }
}

#[derive(Debug, Default, Clone, PartialEq)]
pub struct TransactionAmounts2 {
    /// Serialized as `AmtQlfr`.
    pub amt_qlfr: Option<TypeOfAmount22Code>,
    /// Serialized as `TxAmt`.
    pub tx_amt: TransactionAmount1,
    /// Serialized as `CrdhldrBllgAmt`.
    pub crdhldr_bllg_amt: Option<Amount15>,
    /// Serialized as `RcncltnAmt`.
    pub rcncltn_amt: Option<Amount15>,
    /// Serialized as `DtldAmt`.
    pub dtld_amt: Vec<DetailedAmount22>,
    /// Serialized as `OrgnlTxAmts`.
    pub orgnl_tx_amts: Option<OriginalTransactionAmount2>,
}

impl Validate for TransactionAmounts2 {
    open spec fn violations(&self, path: Seq<SegmentModel>) -> Seq<ReportModel> {
        Seq::empty()
            + optional_reports(self.amt_qlfr, "AmtQlfr"@, path)
            + field_reports(self.tx_amt, "TxAmt"@, path)
            + optional_reports(self.crdhldr_bllg_amt, "CrdhldrBllgAmt"@, path)
            + optional_reports(self.rcncltn_amt, "RcncltnAmt"@, path)
            + list_reports(self.dtld_amt@, Some(0), None, "DtldAmt"@, path)
            + optional_reports(self.orgnl_tx_amts, "OrgnlTxAmts"@, path)
    }

    fn validate_into(
        &self,
        path: &Vec<PathSegment>,
        patterns: &IdentifierPatterns,
        out: &mut Vec<ValidationViolation>,
    ) {
        let ghost before = reports_model(out@);
        let ghost here = path_model(path@);
        let ghost mut expected = Seq::<ReportModel>::empty();
        proof {
            lemma_nothing_added(before);
        }
        validate_optional(&self.amt_qlfr, "AmtQlfr", path, patterns, out);
        proof {
            let added = optional_reports(self.amt_qlfr, "AmtQlfr"@, here);
            lemma_more_added(before, expected, added);
            expected = expected + added;
        }
        validate_field(&self.tx_amt, "TxAmt", path, patterns, out);
        proof {
            let added = field_reports(self.tx_amt, "TxAmt"@, here);
            lemma_more_added(before, expected, added);
            expected = expected + added;
        }
        validate_optional(&self.crdhldr_bllg_amt, "CrdhldrBllgAmt", path, patterns, out);
        proof {
            let added = optional_reports(self.crdhldr_bllg_amt, "CrdhldrBllgAmt"@, here);
            lemma_more_added(before, expected, added);
            expected = expected + added;
        }
        validate_optional(&self.rcncltn_amt, "RcncltnAmt", path, patterns, out);
        proof {
            let added = optional_reports(self.rcncltn_amt, "RcncltnAmt"@, here);
            lemma_more_added(before, expected, added);
            expected = expected + added;
        }
        validate_list(&self.dtld_amt, Some(0), None, "DtldAmt", path, patterns, out);
        proof {
            let added = list_reports(self.dtld_amt@, Some(0), None, "DtldAmt"@, here);
            lemma_more_added(before, expected, added);
            expected = expected + added;
        }
        validate_optional(&self.orgnl_tx_amts, "OrgnlTxAmts", path, patterns, out);
        proof {
            let added = optional_reports(self.orgnl_tx_amts, "OrgnlTxAmts"@, here);
            lemma_more_added(before, expected, added);
            expected = expected + added;
        }
    }
}

/// Text of 1 to 5000 characters that matches `[A-Za-z0-9+/]{4}*(?:[A-Za-z0-9+/]{2}==|[A-Za-z0-9+/]{3}=)?`.
#[derive(Debug, Default, Clone, PartialEq)]
pub struct Max5000Binary {
    pub value: String,
}

impl Validate for Max5000Binary {
    open spec fn violations(&self, path: Seq<SegmentModel>) -> Seq<ReportModel> {
        Seq::empty()
            + length_reports(self.value@, Some(1), Some(5000), path)
            + pattern_reports(self.value@, "[A-Za-z0-9+/]{4}*(?:[A-Za-z0-9+/]{2}==|[A-Za-z0-9+/]{3}=)?"@, path)
    }

    fn validate_into(
        &self,
        path: &Vec<PathSegment>,
        patterns: &IdentifierPatterns,
        out: &mut Vec<ValidationViolation>,
    ) {
        let ghost before = reports_model(out@);
        let ghost here = path_model(path@);
        let ghost mut expected = Seq::<ReportModel>::empty();
        proof {
            lemma_nothing_added(before);
        }
        report_length(self.value.as_str(), Some(1), Some(5000), path, out);
        proof {
            let added = length_reports(self.value@, Some(1), Some(5000), here);
            lemma_more_added(before, expected, added);
            expected = expected + added;
        }
        report_pattern(self.value.as_str(), patterns.max_5000_binary(), path, out);
        proof {
            let added = pattern_reports(self.value@, "[A-Za-z0-9+/]{4}*(?:[A-Za-z0-9+/]{2}==|[A-Za-z0-9+/]{3}=)?"@, here);
            lemma_more_added(before, expected, added);
            expected = expected + added;
        }
    }
}

#[derive(Debug, Default, Clone, PartialEq)]
pub enum MessageClass1Code {
    /// Serialized as `ADDE`.
    Adde,
    /// Serialized as `AMDT`.
    Amdt,
    /// Serialized as `AUTH`.
    Auth,
    /// Serialized as `CMGT`.
    Cmgt,
    /// Serialized as `CBCK`.
    Cbck,
    /// Serialized as `FEEC`.
    Feec,
    /// Serialized as `FINL`.
    Finl,
    /// Serialized as `INQY`.
    Inqy,
    /// Serialized as `VERI`.
    Veri,
    #[default]
    Unknown,
}

impl Validate for MessageClass1Code {
    open spec fn violations(&self, path: Seq<SegmentModel>) -> Seq<ReportModel> {
        Seq::empty()
    }

    fn validate_into(
        &self,
        path: &Vec<PathSegment>,
        patterns: &IdentifierPatterns,
        out: &mut Vec<ValidationViolation>,
    ) {
        proof {
            lemma_nothing_added(reports_model(out@));
        }
    }
}

#[derive(Debug, Default, Clone, PartialEq)]
pub struct SettlementReportingEntity1 {
    /// Serialized as `Tp`.
    pub tp: Option<Max35Text>,
    /// Serialized as `Id`.
    pub id: Option<Max35Text>,
}

impl Validate for SettlementReportingEntity1 {
    open spec fn violations(&self, path: Seq<SegmentModel>) -> Seq<ReportModel> {
        Seq::empty()
            + optional_reports(self.tp, "Tp"@, path)
            + optional_reports(self.id, "Id"@, path)
    }

    fn validate_into(
        &self,
        path: &Vec<PathSegment>,
        patterns: &IdentifierPatterns,
        out: &mut Vec<ValidationViolation>,
    ) {
        let ghost before = reports_model(out@);
        let ghost here = path_model(path@);
        let ghost mut expected = Seq::<ReportModel>::empty();
        proof {
            lemma_nothing_added(before);
        }
        validate_optional(&self.tp, "Tp", path, patterns, out);
        proof {
            let added = optional_reports(self.tp, "Tp"@, here);
            lemma_more_added(before, expected, added);
            expected = expected + added;
        }
        validate_optional(&self.id, "Id", path, patterns, out);
        proof {
            let added = optional_reports(self.id, "Id"@, here);
            lemma_more_added(before, expected, added);
            expected = expected + added;
        }
    }
}

#[derive(Debug, Default, Clone, PartialEq)]
pub enum TypeOfAmount22Code {
    /// Serialized as `ACTL`.
    Actl,
    /// Serialized as `DFLT`.
    Dflt,
    /// Serialized as `DPST`.
    Dpst,
    /// Serialized as `ESTM`.
    Estm,
    /// Serialized as `MAXI`.
    Maxi,
    /// Serialized as `PRXY`.
    Prxy,
    /// Serialized as `RESD`.
    Resd,
    #[default]
    Unknown,
}

impl Validate for TypeOfAmount22Code {
    open spec fn violations(&self, path: Seq<SegmentModel>) -> Seq<ReportModel> {
        Seq::empty()
    }

    fn validate_into(
        &self,
        path: &Vec<PathSegment>,
        patterns: &IdentifierPatterns,
        out: &mut Vec<ValidationViolation>,
    ) {
        proof {
            lemma_nothing_added(reports_model(out@));
        }
    }
}

#[derive(Debug, Default, Clone, PartialEq)]
pub enum Algorithm20Code {
    /// Serialized as `HS25`.
    Hs25,
    /// Serialized as `HS38`.
    Hs38,
    /// Serialized as `HS51`.
    Hs51,
    #[default]
    Unknown,
}

impl Validate for Algorithm20Code {
    open spec fn violations(&self, path: Seq<SegmentModel>) -> Seq<ReportModel> {
        Seq::empty()
    }

    fn validate_into(
        &self,
        path: &Vec<PathSegment>,
        patterns: &IdentifierPatterns,
        out: &mut Vec<ValidationViolation>,
    ) {
        proof {
            lemma_nothing_added(reports_model(out@));
        }
    }
}

#[derive(Debug, Default, Clone, PartialEq)]
pub struct AdditionalService2 {
    /// Serialized as `Tp`.
    pub tp: AdditionalServiceType2Code,
    /// Serialized as `OthrTp`.
    pub othr_tp: Option<Max35Text>,
    /// Serialized as `Rslt`.
    pub rslt: Option<AdditionalServiceResult1Code>,
    /// Serialized as `OthrRslt`.
    pub othr_rslt: Option<Max35Text>,
    /// Serialized as `SvcDtl`.
    pub svc_dtl: Vec<AdditionalData1>,
}

impl Validate for AdditionalService2 {
    open spec fn violations(&self, path: Seq<SegmentModel>) -> Seq<ReportModel> {
        Seq::empty()
            + field_reports(self.tp, "Tp"@, path)
            + optional_reports(self.othr_tp, "OthrTp"@, path)
            + optional_reports(self.rslt, "Rslt"@, path)
            + optional_reports(self.othr_rslt, "OthrRslt"@, path)
            + list_reports(self.svc_dtl@, Some(0), None, "SvcDtl"@, path)
    }

    fn validate_into(
        &self,
        path: &Vec<PathSegment>,
        patterns: &IdentifierPatterns,
        out: &mut Vec<ValidationViolation>,
    ) {
        let ghost before = reports_model(out@);
        let ghost here = path_model(path@);
        let ghost mut expected = Seq::<ReportModel>::empty();
        proof {
            lemma_nothing_added(before);
        }
        validate_field(&self.tp, "Tp", path, patterns, out);
        proof {
            let added = field_reports(self.tp, "Tp"@, here);
            lemma_more_added(before, expected, added);
            expected = expected + added;
        }
        validate_optional(&self.othr_tp, "OthrTp", path, patterns, out);
        proof {
            let added = optional_reports(self.othr_tp, "OthrTp"@, here);
            lemma_more_added(before, expected, added);
            expected = expected + added;
        }
        validate_optional(&self.rslt, "Rslt", path, patterns, out);
        proof {
            let added = optional_reports(self.rslt, "Rslt"@, here);
            lemma_more_added(before, expected, added);
            expected = expected + added;
        }
        validate_optional(&self.othr_rslt, "OthrRslt", path, patterns, out);
        proof {
            let added = optional_reports(self.othr_rslt, "OthrRslt"@, here);
            lemma_more_added(before, expected, added);
            expected = expected + added;
        }
        validate_list(&self.svc_dtl, Some(0), None, "SvcDtl", path, patterns, out);
        proof {
            let added = list_reports(self.svc_dtl@, Some(0), None, "SvcDtl"@, here);
            lemma_more_added(before, expected, added);
            expected = expected + added;
        }
    }
}

/// Text that matches `[0-9A-Z]{2,2}`.
#[derive(Debug, Default, Clone, PartialEq)]
pub struct Iso8583AmountTypeCode {
    /// The text of the element.
    pub value: String,
}

impl Validate for Iso8583AmountTypeCode {
    open spec fn violations(&self, path: Seq<SegmentModel>) -> Seq<ReportModel> {
        Seq::empty()
            + pattern_reports(self.value@, "[0-9A-Z]{2,2}"@, path)
    }

    fn validate_into(
        &self,
        path: &Vec<PathSegment>,
        patterns: &IdentifierPatterns,
        out: &mut Vec<ValidationViolation>,
    ) {
        let ghost before = reports_model(out@);
        let ghost here = path_model(path@);
        let ghost mut expected = Seq::<ReportModel>::empty();
        proof {
            lemma_nothing_added(before);
        }
        report_pattern(self.value.as_str(), patterns.iso_8583_amount_type_code(), path, out);
        proof {
            let added = pattern_reports(self.value@, "[0-9A-Z]{2,2}"@, here);
            lemma_more_added(before, expected, added);
            expected = expected + added;
        }
    }
}

/// Text that matches `[0-9]{1,4}`.
#[derive(Debug, Default, Clone, PartialEq)]
pub struct Max4NumericText {
    /// The text of the element.
    pub value: String,
}

impl Validate for Max4NumericText {
    open spec fn violations(&self, path: Seq<SegmentModel>) -> Seq<ReportModel> {
        Seq::empty()
            + pattern_reports(self.value@, "[0-9]{1,4}"@, path)
    }

    fn validate_into(
        &self,
        path: &Vec<PathSegment>,
        patterns: &IdentifierPatterns,
        out: &mut Vec<ValidationViolation>,
    ) {
        let ghost before = reports_model(out@);
        let ghost here = path_model(path@);
        let ghost mut expected = Seq::<ReportModel>::empty();
        proof {
            lemma_nothing_added(before);
        }
        report_pattern(self.value.as_str(), patterns.max_4_numeric_text(), path, out);
        proof {
            let added = pattern_reports(self.value@, "[0-9]{1,4}"@, here);
            lemma_more_added(before, expected, added);
            expected = expected + added;
        }
    }
}

#[derive(Debug, Default, Clone, PartialEq)]
pub enum MessageFunction16Code {
    /// Serialized as `ADVC`.
    Advc,
    /// Serialized as `NOTI`.
    Noti,
    /// Serialized as `CAAD`.
    Caad,
    /// Serialized as `CANO`.
    Cano,
    /// Serialized as `REQU`.
    Requ,
    #[default]
    Unknown,
}

impl Validate for MessageFunction16Code {
    open spec fn violations(&self, path: Seq<SegmentModel>) -> Seq<ReportModel> {
        Seq::empty()
    }

    fn validate_into(
        &self,
        path: &Vec<PathSegment>,
        patterns: &IdentifierPatterns,
        out: &mut Vec<ValidationViolation>,
    ) {
        proof {
            lemma_nothing_added(reports_model(out@));
        }
    }
}

#[derive(Debug, Default, Clone, PartialEq)]
pub enum PartyType9Code {
    /// Serialized as `ACQR`.
    Acqr,
    /// Serialized as `ACQP`.
    Acqp,
    /// Serialized as `CISS`.
    Ciss,
    /// Serialized as `CISP`.
    Cisp,
    /// Serialized as `CSCH`.
    Csch,
    /// Serialized as `SCHP`.
    Schp,
    #[default]
    Unknown,
}

impl Validate for PartyType9Code {
    open spec fn violations(&self, path: Seq<SegmentModel>) -> Seq<ReportModel> {
        Seq::empty()
    }

    fn validate_into(
        &self,
        path: &Vec<PathSegment>,
        patterns: &IdentifierPatterns,
        out: &mut Vec<ValidationViolation>,
    ) {
        proof {
            lemma_nothing_added(reports_model(out@));
        }
    }
}

#[derive(Debug, Default, Clone, PartialEq)]
pub enum PartyType26Code {
    /// Serialized as `ACCP`.
    Accp,
    /// Serialized as `ACQR`.
    Acqr,
    /// Serialized as `ICCA`.
    Icca,
    /// Serialized as `CISS`.
    Ciss,
    /// Serialized as `DLIS`.
    Dlis,
    /// Serialized as `AGNT`.
    Agnt,
    /// Serialized as `OTHN`.
    Othn,
    /// Serialized as `OTHP`.
    Othp,
    #[default]
    Unknown,
}

impl Validate for PartyType26Code {
    open spec fn violations(&self, path: Seq<SegmentModel>) -> Seq<ReportModel> {
        Seq::empty()
    }

    fn validate_into(
        &self,
        path: &Vec<PathSegment>,
        patterns: &IdentifierPatterns,
        out: &mut Vec<ValidationViolation>,
    ) {
        proof {
            lemma_nothing_added(reports_model(out@));
        }
    }
}

#[derive(Debug, Default, Clone, PartialEq)]
pub struct KekIdentifier2 {
    /// Serialized as `KeyId`.
    pub key_id: Max140Text,
    /// Serialized as `KeyVrsn`.
    pub key_vrsn: Max140Text,
    /// Serialized as `SeqNb`.
    pub seq_nb: Option<Number>,
    /// Serialized as `DerivtnId`.
    pub derivtn_id: Option<Min5Max16Binary>,
}

impl Validate for KekIdentifier2 {
    open spec fn violations(&self, path: Seq<SegmentModel>) -> Seq<ReportModel> {
        Seq::empty()
            + field_reports(self.key_id, "KeyId"@, path)
            + field_reports(self.key_vrsn, "KeyVrsn"@, path)
            + optional_reports(self.seq_nb, "SeqNb"@, path)
            + optional_reports(self.derivtn_id, "DerivtnId"@, path)
    }

    fn validate_into(
        &self,
        path: &Vec<PathSegment>,
        patterns: &IdentifierPatterns,
        out: &mut Vec<ValidationViolation>,
    ) {
        let ghost before = reports_model(out@);
        let ghost here = path_model(path@);
        let ghost mut expected = Seq::<ReportModel>::empty();
        proof {
            lemma_nothing_added(before);
        }
        validate_field(&self.key_id, "KeyId", path, patterns, out);
        proof {
            let added = field_reports(self.key_id, "KeyId"@, here);
            lemma_more_added(before, expected, added);
            expected = expected + added;
        }
        validate_field(&self.key_vrsn, "KeyVrsn", path, patterns, out);
        proof {
            let added = field_reports(self.key_vrsn, "KeyVrsn"@, here);
            lemma_more_added(before, expected, added);
            expected = expected + added;
        }
        validate_optional(&self.seq_nb, "SeqNb", path, patterns, out);
        proof {
            let added = optional_reports(self.seq_nb, "SeqNb"@, here);
            lemma_more_added(before, expected, added);
            expected = expected + added;
        }
        validate_optional(&self.derivtn_id, "DerivtnId", path, patterns, out);
        proof {
            let added = optional_reports(self.derivtn_id, "DerivtnId"@, here);
            lemma_more_added(before, expected, added);
            expected = expected + added;
        }
    }
}

#[derive(Debug, Default, Clone, PartialEq)]
pub enum Algorithm7Code {
    /// Serialized as `ERSA`.
    Ersa,
    /// Serialized as `RSAO`.
    Rsao,
    #[default]
    Unknown,
}

impl Validate for Algorithm7Code {
    open spec fn violations(&self, path: Seq<SegmentModel>) -> Seq<ReportModel> {
        Seq::empty()
    }

    fn validate_into(
        &self,
        path: &Vec<PathSegment>,
        patterns: &IdentifierPatterns,
        out: &mut Vec<ValidationViolation>,
    ) {
        proof {
            lemma_nothing_added(reports_model(out@));
        }
    }
}

#[derive(Debug, Default, Clone, PartialEq)]
pub struct AlgorithmIdentification26 {
    /// Serialized as `Algo`.
    pub algo: Algorithm8Code,
    /// Serialized as `Param`.
    pub param: Option<Algorithm5Code>,
}

impl Validate for AlgorithmIdentification26 {
    open spec fn violations(&self, path: Seq<SegmentModel>) -> Seq<ReportModel> {
        Seq::empty()
            + field_reports(self.algo, "Algo"@, path)
            + optional_reports(self.param, "Param"@, path)
    }

    fn validate_into(
        &self,
        path: &Vec<PathSegment>,
        patterns: &IdentifierPatterns,
        out: &mut Vec<ValidationViolation>,
    ) {
        let ghost before = reports_model(out@);
        let ghost here = path_model(path@);
        let ghost mut expected = Seq::<ReportModel>::empty();
        proof {
            lemma_nothing_added(before);
        }
        validate_field(&self.algo, "Algo", path, patterns, out);
        proof {
            let added = field_reports(self.algo, "Algo"@, here);
            lemma_more_added(before, expected, added);
            expected = expected + added;
        }
        validate_optional(&self.param, "Param", path, patterns, out);
        proof {
            let added = optional_reports(self.param, "Param"@, here);
            lemma_more_added(before, expected, added);
            expected = expected + added;
        }
    }
}

#[derive(Debug, Default, Clone, PartialEq)]
pub struct ProcessingResult10 {
    /// Serialized as `RspnSrc`.
    pub rspn_src: Option<ApprovalEntity2>,
    /// Serialized as `RsltData`.
    pub rslt_data: ResultData7,
    /// Serialized as `ApprvlCd`.
    pub apprvl_cd: Option<Exact6AlphaNumericText>,
    /// Serialized as `ErrDtl`.
    pub err_dtl: Option<ErrorDetails2>,
    /// Serialized as `OrgnlRsltData`.
    pub orgnl_rslt_data: Option<ResultData7>,
    /// Serialized as `ActnReqrd`.
    pub actn_reqrd: Option<YesNoIndicator>,
    /// Serialized as `Actn`.
    pub actn: Vec<Action13>,
    /// Serialized as `AddtlActn`.
    pub addtl_actn: Vec<AdditionalAction1>,
    /// Serialized as `AddtlInf`.
    pub addtl_inf: Vec<AdditionalInformation29>,
}

impl Validate for ProcessingResult10 {
    open spec fn violations(&self, path: Seq<SegmentModel>) -> Seq<ReportModel> {
        Seq::empty()
            + optional_reports(self.rspn_src, "RspnSrc"@, path)
            + field_reports(self.rslt_data, "RsltData"@, path)
            + optional_reports(self.apprvl_cd, "ApprvlCd"@, path)
            + optional_reports(self.err_dtl, "ErrDtl"@, path)
            + optional_reports(self.orgnl_rslt_data, "OrgnlRsltData"@, path)
            + optional_reports(self.actn_reqrd, "ActnReqrd"@, path)
            + list_reports(self.actn@, Some(0), None, "Actn"@, path)
            + list_reports(self.addtl_actn@, Some(0), None, "AddtlActn"@, path)
            + list_reports(self.addtl_inf@, Some(0), None, "AddtlInf"@, path)
    }

    fn validate_into(
        &self,
        path: &Vec<PathSegment>,
        patterns: &IdentifierPatterns,
        out: &mut Vec<ValidationViolation>,
    ) {
        let ghost before = reports_model(out@);
        let ghost here = path_model(path@);
        let ghost mut expected = Seq::<ReportModel>::empty();
        proof {
            lemma_nothing_added(before);
        }
        validate_optional(&self.rspn_src, "RspnSrc", path, patterns, out);
        proof {
            let added = optional_reports(self.rspn_src, "RspnSrc"@, here);
            lemma_more_added(before, expected, added);
            expected = expected + added;
        }
        validate_field(&self.rslt_data, "RsltData", path, patterns, out);
        proof {
            let added = field_reports(self.rslt_data, "RsltData"@, here);
            lemma_more_added(before, expected, added);
            expected = expected + added;
        }
        validate_optional(&self.apprvl_cd, "ApprvlCd", path, patterns, out);
        proof {
            let added = optional_reports(self.apprvl_cd, "ApprvlCd"@, here);
            lemma_more_added(before, expected, added);
            expected = expected + added;
        }
        validate_optional(&self.err_dtl, "ErrDtl", path, patterns, out);
        proof {
            let added = optional_reports(self.err_dtl, "ErrDtl"@, here);
            lemma_more_added(before, expected, added);
            expected = expected + added;
        }
        validate_optional(&self.orgnl_rslt_data, "OrgnlRsltData", path, patterns, out);
        proof {
            let added = optional_reports(self.orgnl_rslt_data, "OrgnlRsltData"@, here);
            lemma_more_added(before, expected, added);
            expected = expected + added;
        }
        validate_optional(&self.actn_reqrd, "ActnReqrd", path, patterns, out);
        proof {
            let added = optional_reports(self.actn_reqrd, "ActnReqrd"@, here);
            lemma_more_added(before, expected, added);
            expected = expected + added;
        }
        validate_list(&self.actn, Some(0), None, "Actn", path, patterns, out);
        proof {
            let added = list_reports(self.actn@, Some(0), None, "Actn"@, here);
            lemma_more_added(before, expected, added);
            expected = expected + added;
        }
        validate_list(&self.addtl_actn, Some(0), None, "AddtlActn", path, patterns, out);
        proof {
            let added = list_reports(self.addtl_actn@, Some(0), None, "AddtlActn"@, here);
            lemma_more_added(before, expected, added);
            expected = expected + added;
        }
        validate_list(&self.addtl_inf, Some(0), None, "AddtlInf", path, patterns, out);
        proof {
            let added = list_reports(self.addtl_inf@, Some(0), None, "AddtlInf"@, here);
            lemma_more_added(before, expected, added);
            expected = expected + added;
        }
    }
}

#[derive(Debug, Default, Clone, PartialEq)]
pub struct AdditionalData1 {
    /// Serialized as `Tp`.
    pub tp: Option<Max35Text>,
    /// Serialized as `Val`.
    pub val: Option<Max2048Text>,
}

impl Validate for AdditionalData1 {
    open spec fn violations(&self, path: Seq<SegmentModel>) -> Seq<ReportModel> {
        Seq::empty()
            + optional_reports(self.tp, "Tp"@, path)
            + optional_reports(self.val, "Val"@, path)
    }

    fn validate_into(
        &self,
        path: &Vec<PathSegment>,
        patterns: &IdentifierPatterns,
        out: &mut Vec<ValidationViolation>,
    ) {
        let ghost before = reports_model(out@);
        let ghost here = path_model(path@);
        let ghost mut expected = Seq::<ReportModel>::empty();
        proof {
            lemma_nothing_added(before);
        }
        validate_optional(&self.tp, "Tp", path, patterns, out);
        proof {
            let added = optional_reports(self.tp, "Tp"@, here);
            lemma_more_added(before, expected, added);
            expected = expected + added;
        }
        validate_optional(&self.val, "Val", path, patterns, out);
        proof {
            let added = optional_reports(self.val, "Val"@, here);
            lemma_more_added(before, expected, added);
            expected = expected + added;
        }
    }
}

#[derive(Debug, Default, Clone, PartialEq)]
pub struct Traceability9 {
    /// Serialized as `RlayId`.
    pub rlay_id: GenericIdentification183,
    /// Serialized as `TracDtTmIn`.
    pub trac_dt_tm_in: Option<IsoDateTime>,
    /// Serialized as `TracDtTmOut`.
    pub trac_dt_tm_out: Option<IsoDateTime>,
}

impl Validate for Traceability9 {
    open spec fn violations(&self, path: Seq<SegmentModel>) -> Seq<ReportModel> {
        Seq::empty()
            + field_reports(self.rlay_id, "RlayId"@, path)
            + optional_reports(self.trac_dt_tm_in, "TracDtTmIn"@, path)
            + optional_reports(self.trac_dt_tm_out, "TracDtTmOut"@, path)
    }

    fn validate_into(
        &self,
        path: &Vec<PathSegment>,
        patterns: &IdentifierPatterns,
        out: &mut Vec<ValidationViolation>,
    ) {
        let ghost before = reports_model(out@);
        let ghost here = path_model(path@);
        let ghost mut expected = Seq::<ReportModel>::empty();
        proof {
            lemma_nothing_added(before);
        }
        validate_field(&self.rlay_id, "RlayId", path, patterns, out);
        proof {
            let added = field_reports(self.rlay_id, "RlayId"@, here);
            lemma_more_added(before, expected, added);
            expected = expected + added;
        }
        validate_optional(&self.trac_dt_tm_in, "TracDtTmIn", path, patterns, out);
        proof {
            let added = optional_reports(self.trac_dt_tm_in, "TracDtTmIn"@, here);
            lemma_more_added(before, expected, added);
            expected = expected + added;
        }
        validate_optional(&self.trac_dt_tm_out, "TracDtTmOut", path, patterns, out);
        proof {
            let added = optional_reports(self.trac_dt_tm_out, "TracDtTmOut"@, here);
            lemma_more_added(before, expected, added);
            expected = expected + added;
        }
    }
}

#[derive(Debug, Default, Clone, PartialEq)]
pub enum EncryptionFormat3Code {
    /// Serialized as `TR34`.
    Tr34,
    /// Serialized as `TR31`.
    Tr31,
    /// Serialized as `CTCE`.
    Ctce,
    /// Serialized as `CBCE`.
    Cbce,
    #[default]
    Unknown,
}

impl Validate for EncryptionFormat3Code {
    open spec fn violations(&self, path: Seq<SegmentModel>) -> Seq<ReportModel> {
        Seq::empty()
    }

    fn validate_into(
        &self,
        path: &Vec<PathSegment>,
        patterns: &IdentifierPatterns,
        out: &mut Vec<ValidationViolation>,
    ) {
        proof {
            lemma_nothing_added(reports_model(out@));
        }
    }
}

#[derive(Debug, Default, Clone, PartialEq)]
pub struct Content1 {
    /// Serialized as `Val`.
    pub val: Max20KText,
    /// Serialized as `Sgntr`.
    pub sgntr: Option<Max140Binary>,
    /// Serialized as `CertId`.
    pub cert_id: Option<Max70Text>,
}

impl Validate for Content1 {
    open spec fn violations(&self, path: Seq<SegmentModel>) -> Seq<ReportModel> {
        Seq::empty()
            + field_reports(self.val, "Val"@, path)
            + optional_reports(self.sgntr, "Sgntr"@, path)
            + optional_reports(self.cert_id, "CertId"@, path)
    }

    fn validate_into(
        &self,
        path: &Vec<PathSegment>,
        patterns: &IdentifierPatterns,
        out: &mut Vec<ValidationViolation>,
    ) {
        let ghost before = reports_model(out@);
        let ghost here = path_model(path@);
        let ghost mut expected = Seq::<ReportModel>::empty();
        proof {
            lemma_nothing_added(before);
        }
        validate_field(&self.val, "Val", path, patterns, out);
        proof {
            let added = field_reports(self.val, "Val"@, here);
            lemma_more_added(before, expected, added);
            expected = expected + added;
        }
        validate_optional(&self.sgntr, "Sgntr", path, patterns, out);
        proof {
            let added = optional_reports(self.sgntr, "Sgntr"@, here);
            lemma_more_added(before, expected, added);
            expected = expected + added;
        }
        validate_optional(&self.cert_id, "CertId", path, patterns, out);
        proof {
            let added = optional_reports(self.cert_id, "CertId"@, here);
            lemma_more_added(before, expected, added);
            expected = expected + added;
        }
    }
}

#[derive(Debug, Default, Clone, PartialEq)]
pub struct IssuerAndSerialNumber1 {
    /// Serialized as `Issr`.
    pub issr: CertificateIssuer1,
    /// Serialized as `SrlNb`.
    pub srl_nb: Max35Binary,
}

impl Validate for IssuerAndSerialNumber1 {
    open spec fn violations(&self, path: Seq<SegmentModel>) -> Seq<ReportModel> {
        Seq::empty()
            + field_reports(self.issr, "Issr"@, path)
            + field_reports(self.srl_nb, "SrlNb"@, path)
    }

    fn validate_into(
        &self,
        path: &Vec<PathSegment>,
        patterns: &IdentifierPatterns,
        out: &mut Vec<ValidationViolation>,
    ) {
        let ghost before = reports_model(out@);
        let ghost here = path_model(path@);
        let ghost mut expected = Seq::<ReportModel>::empty();
        proof {
            lemma_nothing_added(before);
        }
        validate_field(&self.issr, "Issr", path, patterns, out);
        proof {
            let added = field_reports(self.issr, "Issr"@, here);
            lemma_more_added(before, expected, added);
            expected = expected + added;
        }
        validate_field(&self.srl_nb, "SrlNb", path, patterns, out);
        proof {
            let added = field_reports(self.srl_nb, "SrlNb"@, here);
            lemma_more_added(before, expected, added);
            expected = expected + added;
        }
    }
}

/// Text that matches `[a-zA-Z0-9\s]{6}`.
#[derive(Debug, Default, Clone, PartialEq)]
pub struct Exact6AlphaNumericText {
    /// The text of the element.
    pub value: String,
}

impl Validate for Exact6AlphaNumericText {
    open spec fn violations(&self, path: Seq<SegmentModel>) -> Seq<ReportModel> {
        Seq::empty()
            + pattern_reports(self.value@, "[a-zA-Z0-9\\s]{6}"@, path)
    }

    fn validate_into(
        &self,
        path: &Vec<PathSegment>,
        patterns: &IdentifierPatterns,
        out: &mut Vec<ValidationViolation>,
    ) {
        let ghost before = reports_model(out@);
        let ghost here = path_model(path@);
        let ghost mut expected = Seq::<ReportModel>::empty();
        proof {
            lemma_nothing_added(before);
        }
        report_pattern(self.value.as_str(), patterns.exact_6_alpha_numeric_text(), path, out);
        proof {
            let added = pattern_reports(self.value@, "[a-zA-Z0-9\\s]{6}"@, here);
            lemma_more_added(before, expected, added);
            expected = expected + added;
        }
    }
}

#[derive(Debug, Default, Clone, PartialEq)]
pub struct EncryptedDataElement1 {
    /// Serialized as `Id`.
    pub id: Option<ExternalEncryptedElementIdentification1Code>,
    /// Serialized as `OthrId`.
    pub othr_id: Option<Max35Text>,
    /// Serialized as `NcrptdData`.
    pub ncrptd_data: EncryptedData1Choice,
    /// Serialized as `ClearTxtDataFrmt`.
    pub clear_txt_data_frmt: Option<EncryptedDataFormat1Code>,
    /// Serialized as `OthrClearTxtDataFrmt`.
    pub othr_clear_txt_data_frmt: Option<Max35Text>,
}

impl Validate for EncryptedDataElement1 {
    open spec fn violations(&self, path: Seq<SegmentModel>) -> Seq<ReportModel> {
        Seq::empty()
            + optional_reports(self.id, "Id"@, path)
            + optional_reports(self.othr_id, "OthrId"@, path)
            + field_reports(self.ncrptd_data, "NcrptdData"@, path)
            + optional_reports(self.clear_txt_data_frmt, "ClearTxtDataFrmt"@, path)
            + optional_reports(self.othr_clear_txt_data_frmt, "OthrClearTxtDataFrmt"@, path)
    }

    fn validate_into(
        &self,
        path: &Vec<PathSegment>,
        patterns: &IdentifierPatterns,
        out: &mut Vec<ValidationViolation>,
    ) {
        let ghost before = reports_model(out@);
        let ghost here = path_model(path@);
        let ghost mut expected = Seq::<ReportModel>::empty();
        proof {
            lemma_nothing_added(before);
        }
        validate_optional(&self.id, "Id", path, patterns, out);
        proof {
            let added = optional_reports(self.id, "Id"@, here);
            lemma_more_added(before, expected, added);
            expected = expected + added;
        }
        validate_optional(&self.othr_id, "OthrId", path, patterns, out);
        proof {
            let added = optional_reports(self.othr_id, "OthrId"@, here);
            lemma_more_added(before, expected, added);
            expected = expected + added;
        }
        validate_field(&self.ncrptd_data, "NcrptdData", path, patterns, out);
        proof {
            let added = field_reports(self.ncrptd_data, "NcrptdData"@, here);
            lemma_more_added(before, expected, added);
            expected = expected + added;
        }
        validate_optional(&self.clear_txt_data_frmt, "ClearTxtDataFrmt", path, patterns, out);
        proof {
            let added = optional_reports(self.clear_txt_data_frmt, "ClearTxtDataFrmt"@, here);
            lemma_more_added(before, expected, added);
            expected = expected + added;
        }
        validate_optional(&self.othr_clear_txt_data_frmt, "OthrClearTxtDataFrmt", path, patterns, out);
        proof {
            let added = optional_reports(self.othr_clear_txt_data_frmt, "OthrClearTxtDataFrmt"@, here);
            lemma_more_added(before, expected, added);
            expected = expected + added;
        }
    }
}

/// Text that matches `[0-9]{1,19}`.
#[derive(Debug, Default, Clone, PartialEq)]
pub struct Max19NumericText {
    /// The text of the element.
    pub value: String,
}

impl Validate for Max19NumericText {
    open spec fn violations(&self, path: Seq<SegmentModel>) -> Seq<ReportModel> {
        Seq::empty()
            + pattern_reports(self.value@, "[0-9]{1,19}"@, path)
    }

    fn validate_into(
        &self,
        path: &Vec<PathSegment>,
        patterns: &IdentifierPatterns,
        out: &mut Vec<ValidationViolation>,
    ) {
        let ghost before = reports_model(out@);
        let ghost here = path_model(path@);
        let ghost mut expected = Seq::<ReportModel>::empty();
        proof {
            lemma_nothing_added(before);
        }
        report_pattern(self.value.as_str(), patterns.max_19_numeric_text(), path, out);
        proof {
            let added = pattern_reports(self.value@, "[0-9]{1,19}"@, here);
            lemma_more_added(before, expected, added);
            expected = expected + added;
        }
    }
}

#[derive(Debug, Default, Clone, PartialEq)]
pub enum PartyType20Code {
    /// Serialized as `ACCP`.
    Accp,
    /// Serialized as `ACQR`.
    Acqr,
    /// Serialized as `CRDH`.
    Crdh,
    /// Serialized as `CISS`.
    Ciss,
    /// Serialized as `AGNT`.
    Agnt,
    #[default]
    Unknown,
}

impl Validate for PartyType20Code {
    open spec fn violations(&self, path: Seq<SegmentModel>) -> Seq<ReportModel> {
        Seq::empty()
    }

    fn validate_into(
        &self,
        path: &Vec<PathSegment>,
        patterns: &IdentifierPatterns,
        out: &mut Vec<ValidationViolation>,
    ) {
        proof {
            lemma_nothing_added(reports_model(out@));
        }
    }
}

/// Text of 1 to 256 characters.
#[derive(Debug, Default, Clone, PartialEq)]
pub struct Max256Text {
    /// The text of the element.
    pub value: String,
}

impl Validate for Max256Text {
    open spec fn violations(&self, path: Seq<SegmentModel>) -> Seq<ReportModel> {
        Seq::empty()
            + length_reports(self.value@, Some(1), Some(256), path)
    }

    fn validate_into(
        &self,
        path: &Vec<PathSegment>,
        patterns: &IdentifierPatterns,
        out: &mut Vec<ValidationViolation>,
    ) {
        let ghost before = reports_model(out@);
        let ghost here = path_model(path@);
        let ghost mut expected = Seq::<ReportModel>::empty();
        proof {
            lemma_nothing_added(before);
        }
        report_length(self.value.as_str(), Some(1), Some(256), path, out);
        proof {
            let added = length_reports(self.value@, Some(1), Some(256), here);
            lemma_more_added(before, expected, added);
            expected = expected + added;
        }
    }
}

#[derive(Debug, Default, Clone, PartialEq)]
pub struct SettlementServiceDate2 {
    /// Serialized as `ReqdSttlmDt`.
    pub reqd_sttlm_dt: Option<IsoDate>,
    /// Serialized as `DfrrdSttlmInd`.
    pub dfrrd_sttlm_ind: Option<TrueFalseIndicator>,
    /// Serialized as `SttlmDt`.
    pub sttlm_dt: Option<IsoDate>,
    /// Serialized as `SttlmTm`.
    pub sttlm_tm: Option<IsoTime>,
    /// Serialized as `SttlmPrd`.
    pub sttlm_prd: Option<Max35Text>,
    /// Serialized as `SttlmCutOffTm`.
    pub sttlm_cut_off_tm: Option<IsoDateTime>,
}

impl Validate for SettlementServiceDate2 {
    open spec fn violations(&self, path: Seq<SegmentModel>) -> Seq<ReportModel> {
        Seq::empty()
            + optional_reports(self.reqd_sttlm_dt, "ReqdSttlmDt"@, path)
            + optional_reports(self.dfrrd_sttlm_ind, "DfrrdSttlmInd"@, path)
            + optional_reports(self.sttlm_dt, "SttlmDt"@, path)
            + optional_reports(self.sttlm_tm, "SttlmTm"@, path)
            + optional_reports(self.sttlm_prd, "SttlmPrd"@, path)
            + optional_reports(self.sttlm_cut_off_tm, "SttlmCutOffTm"@, path)
    }

    fn validate_into(
        &self,
        path: &Vec<PathSegment>,
        patterns: &IdentifierPatterns,
        out: &mut Vec<ValidationViolation>,
    ) {
        let ghost before = reports_model(out@);
        let ghost here = path_model(path@);
        let ghost mut expected = Seq::<ReportModel>::empty();
        proof {
            lemma_nothing_added(before);
        }
        validate_optional(&self.reqd_sttlm_dt, "ReqdSttlmDt", path, patterns, out);
        proof {
            let added = optional_reports(self.reqd_sttlm_dt, "ReqdSttlmDt"@, here);
            lemma_more_added(before, expected, added);
            expected = expected + added;
        }
        validate_optional(&self.dfrrd_sttlm_ind, "DfrrdSttlmInd", path, patterns, out);
        proof {
            let added = optional_reports(self.dfrrd_sttlm_ind, "DfrrdSttlmInd"@, here);
            lemma_more_added(before, expected, added);
            expected = expected + added;
        }
        validate_optional(&self.sttlm_dt, "SttlmDt", path, patterns, out);
        proof {
            let added = optional_reports(self.sttlm_dt, "SttlmDt"@, here);
            lemma_more_added(before, expected, added);
            expected = expected + added;
        }
        validate_optional(&self.sttlm_tm, "SttlmTm", path, patterns, out);
        proof {
            let added = optional_reports(self.sttlm_tm, "SttlmTm"@, here);
            lemma_more_added(before, expected, added);
            expected = expected + added;
        }
        validate_optional(&self.sttlm_prd, "SttlmPrd", path, patterns, out);
        proof {
            let added = optional_reports(self.sttlm_prd, "SttlmPrd"@, here);
            lemma_more_added(before, expected, added);
            expected = expected + added;
        }
        validate_optional(&self.sttlm_cut_off_tm, "SttlmCutOffTm", path, patterns, out);
        proof {
            let added = optional_reports(self.sttlm_cut_off_tm, "SttlmCutOffTm"@, here);
            lemma_more_added(before, expected, added);
            expected = expected + added;
        }
    }
}

#[derive(Debug, Default, Clone, PartialEq)]
pub struct EncryptedData1 {
    /// Serialized as `Ctrl`.
    pub ctrl: Option<Exact1HexBinaryText>,
    /// Serialized as `KeySetIdr`.
    pub key_set_idr: Option<Max8NumericText>,
    /// Serialized as `DrvdInf`.
    pub drvd_inf: Option<Max32HexBinaryText>,
    /// Serialized as `Algo`.
    pub algo: Option<Max2NumericText>,
    /// Serialized as `KeyLngth`.
    pub key_lngth: Option<Max4NumericText>,
    /// Serialized as `KeyPrtcn`.
    pub key_prtcn: Option<Max2NumericText>,
    /// Serialized as `KeyIndx`.
    pub key_indx: Option<Max5NumericText>,
    /// Serialized as `PddgMtd`.
    pub pddg_mtd: Option<Max2NumericText>,
    /// Serialized as `NcrptdDataFrmt`.
    pub ncrptd_data_frmt: Option<Max2NumericText>,
    /// Serialized as `NcrptdDataElmt`.
    pub ncrptd_data_elmt: Vec<EncryptedDataElement1>,
}

impl Validate for EncryptedData1 {
    open spec fn violations(&self, path: Seq<SegmentModel>) -> Seq<ReportModel> {
        Seq::empty()
            + optional_reports(self.ctrl, "Ctrl"@, path)
            + optional_reports(self.key_set_idr, "KeySetIdr"@, path)
            + optional_reports(self.drvd_inf, "DrvdInf"@, path)
            + optional_reports(self.algo, "Algo"@, path)
            + optional_reports(self.key_lngth, "KeyLngth"@, path)
            + optional_reports(self.key_prtcn, "KeyPrtcn"@, path)
            + optional_reports(self.key_indx, "KeyIndx"@, path)
            + optional_reports(self.pddg_mtd, "PddgMtd"@, path)
            + optional_reports(self.ncrptd_data_frmt, "NcrptdDataFrmt"@, path)
            + list_reports(self.ncrptd_data_elmt@, Some(1), None, "NcrptdDataElmt"@, path)
    }

    fn validate_into(
        &self,
        path: &Vec<PathSegment>,
        patterns: &IdentifierPatterns,
        out: &mut Vec<ValidationViolation>,
    ) {
        let ghost before = reports_model(out@);
        let ghost here = path_model(path@);
        let ghost mut expected = Seq::<ReportModel>::empty();
        proof {
            lemma_nothing_added(before);
        }
        validate_optional(&self.ctrl, "Ctrl", path, patterns, out);
        proof {
            let added = optional_reports(self.ctrl, "Ctrl"@, here);
            lemma_more_added(before, expected, added);
            expected = expected + added;
        }
        validate_optional(&self.key_set_idr, "KeySetIdr", path, patterns, out);
        proof {
            let added = optional_reports(self.key_set_idr, "KeySetIdr"@, here);
            lemma_more_added(before, expected, added);
            expected = expected + added;
        }
        validate_optional(&self.drvd_inf, "DrvdInf", path, patterns, out);
        proof {
            let added = optional_reports(self.drvd_inf, "DrvdInf"@, here);
            lemma_more_added(before, expected, added);
            expected = expected + added;
        }
        validate_optional(&self.algo, "Algo", path, patterns, out);
        proof {
            let added = optional_reports(self.algo, "Algo"@, here);
            lemma_more_added(before, expected, added);
            expected = expected + added;
        }
        validate_optional(&self.key_lngth, "KeyLngth", path, patterns, out);
        proof {
            let added = optional_reports(self.key_lngth, "KeyLngth"@, here);
            lemma_more_added(before, expected, added);
            expected = expected + added;
        }
        validate_optional(&self.key_prtcn, "KeyPrtcn", path, patterns, out);
        proof {
            let added = optional_reports(self.key_prtcn, "KeyPrtcn"@, here);
            lemma_more_added(before, expected, added);
            expected = expected + added;
        }
        validate_optional(&self.key_indx, "KeyIndx", path, patterns, out);
        proof {
            let added = optional_reports(self.key_indx, "KeyIndx"@, here);
            lemma_more_added(before, expected, added);
            expected = expected + added;
        }
        validate_optional(&self.pddg_mtd, "PddgMtd", path, patterns, out);
        proof {
            let added = optional_reports(self.pddg_mtd, "PddgMtd"@, here);
            lemma_more_added(before, expected, added);
            expected = expected + added;
        }
        validate_optional(&self.ncrptd_data_frmt, "NcrptdDataFrmt", path, patterns, out);
        proof {
            let added = optional_reports(self.ncrptd_data_frmt, "NcrptdDataFrmt"@, here);
            lemma_more_added(before, expected, added);
            expected = expected + added;
        }
        validate_list(&self.ncrptd_data_elmt, Some(1), None, "NcrptdDataElmt", path, patterns, out);
        proof {
            let added = list_reports(self.ncrptd_data_elmt@, Some(1), None, "NcrptdDataElmt"@, here);
            lemma_more_added(before, expected, added);
            expected = expected + added;
        }
    }
}

#[derive(Debug, Default, Clone, PartialEq)]
pub enum ActionType11Code {
    /// Serialized as `CNTI`.
    Cnti,
    /// Serialized as `CNIS`.
    Cnis,
    /// Serialized as `CNTA`.
    Cnta,
    /// Serialized as `CNAS`.
    Cnas,
    /// Serialized as `CPTR`.
    Cptr,
    /// Serialized as `CHDV`.
    Chdv,
    /// Serialized as `VIPM`.
    Vipm,
    /// Serialized as `TRCK`.
    Trck,
    /// Serialized as `TRXR`.
    Trxr,
    /// Serialized as `OTHN`.
    Othn,
    /// Serialized as `OTHP`.
    Othp,
    /// Serialized as `SIGN`.
    Sign,
    #[default]
    Unknown,
}

impl Validate for ActionType11Code {
    open spec fn violations(&self, path: Seq<SegmentModel>) -> Seq<ReportModel> {
        Seq::empty()
    }

    fn validate_into(
        &self,
        path: &Vec<PathSegment>,
        patterns: &IdentifierPatterns,
        out: &mut Vec<ValidationViolation>,
    ) {
        proof {
            lemma_nothing_added(reports_model(out@));
        }
    }
}

/// Text that matches `[0-9]{1,2}`.
#[derive(Debug, Default, Clone, PartialEq)]
pub struct Max2NumericText {
    /// The text of the element.
    pub value: String,
}

impl Validate for Max2NumericText {
    open spec fn violations(&self, path: Seq<SegmentModel>) -> Seq<ReportModel> {
        Seq::empty()
            + pattern_reports(self.value@, "[0-9]{1,2}"@, path)
    }

    fn validate_into(
        &self,
        path: &Vec<PathSegment>,
        patterns: &IdentifierPatterns,
        out: &mut Vec<ValidationViolation>,
    ) {
        let ghost before = reports_model(out@);
        let ghost here = path_model(path@);
        let ghost mut expected = Seq::<ReportModel>::empty();
        proof {
            lemma_nothing_added(before);
        }
        report_pattern(self.value.as_str(), patterns.max_2_numeric_text(), path, out);
        proof {
            let added = pattern_reports(self.value@, "[0-9]{1,2}"@, here);
            lemma_more_added(before, expected, added);
            expected = expected + added;
        }
    }
}

#[derive(Debug, Default, Clone, PartialEq)]
pub enum Algorithm23Code {
    /// Serialized as `EA2C`.
    Ea2C,
    /// Serialized as `E3DC`.
    E3Dc,
    /// Serialized as `EA9C`.
    Ea9C,
    /// Serialized as `EA5C`.
    Ea5C,
    /// Serialized as `EA2R`.
    Ea2R,
    /// Serialized as `EA9R`.
    Ea9R,
    /// Serialized as `EA5R`.
    Ea5R,
    /// Serialized as `E3DR`.
    E3Dr,
    /// Serialized as `E36C`.
    E36C,
    /// Serialized as `E36R`.
    E36R,
    /// Serialized as `SD5C`.
    Sd5C,
    #[default]
    Unknown,
}

impl Validate for Algorithm23Code {
    open spec fn violations(&self, path: Seq<SegmentModel>) -> Seq<ReportModel> {
        Seq::empty()
    }

    fn validate_into(
        &self,
        path: &Vec<PathSegment>,
        patterns: &IdentifierPatterns,
        out: &mut Vec<ValidationViolation>,
    ) {
        proof {
            lemma_nothing_added(reports_model(out@));
        }
    }
}

#[derive(Debug, Default, Clone, PartialEq)]
pub struct EnvelopedData6 {
    /// Serialized as `Vrsn`.
    pub vrsn: Option<Number>,
    /// Serialized as `Rcpt`.
    pub rcpt: Vec<Recipient7Choice>,
    /// Serialized as `NcrptdCntt`.
    pub ncrptd_cntt: Option<EncryptedContent5>,
}

impl Validate for EnvelopedData6 {
    open spec fn violations(&self, path: Seq<SegmentModel>) -> Seq<ReportModel> {
        Seq::empty()
            + optional_reports(self.vrsn, "Vrsn"@, path)
            + list_reports(self.rcpt@, Some(1), None, "Rcpt"@, path)
            + optional_reports(self.ncrptd_cntt, "NcrptdCntt"@, path)
    }

    fn validate_into(
        &self,
        path: &Vec<PathSegment>,
        patterns: &IdentifierPatterns,
        out: &mut Vec<ValidationViolation>,
    ) {
        let ghost before = reports_model(out@);
        let ghost here = path_model(path@);
        let ghost mut expected = Seq::<ReportModel>::empty();
        proof {
            lemma_nothing_added(before);
        }
        validate_optional(&self.vrsn, "Vrsn", path, patterns, out);
        proof {
            let added = optional_reports(self.vrsn, "Vrsn"@, here);
            lemma_more_added(before, expected, added);
            expected = expected + added;
        }
        validate_list(&self.rcpt, Some(1), None, "Rcpt", path, patterns, out);
        proof {
            let added = list_reports(self.rcpt@, Some(1), None, "Rcpt"@, here);
            lemma_more_added(before, expected, added);
            expected = expected + added;
        }
        validate_optional(&self.ncrptd_cntt, "NcrptdCntt", path, patterns, out);
        proof {
            let added = optional_reports(self.ncrptd_cntt, "NcrptdCntt"@, here);
            lemma_more_added(before, expected, added);
            expected = expected + added;
        }
    }
}

#[derive(Debug, Default, Clone, PartialEq)]
pub enum PartyType18Code {
    /// Serialized as `ACQR`.
    Acqr,
    /// Serialized as `CISS`.
    Ciss,
    /// Serialized as `CSCH`.
    Csch,
    /// Serialized as `AGNT`.
    Agnt,
    #[default]
    Unknown,
}

impl Validate for PartyType18Code {
    open spec fn violations(&self, path: Seq<SegmentModel>) -> Seq<ReportModel> {
        Seq::empty()
    }

    fn validate_into(
        &self,
        path: &Vec<PathSegment>,
        patterns: &IdentifierPatterns,
        out: &mut Vec<ValidationViolation>,
    ) {
        proof {
            lemma_nothing_added(reports_model(out@));
        }
    }
}

/// The alternatives of a choice: exactly one of them is populated.
#[derive(Debug, Default, Clone, PartialEq)]
pub struct Recipient5ChoiceEnum {
    /// Serialized as `IssrAndSrlNb`.
    pub issr_and_srl_nb: Option<IssuerAndSerialNumber1>,
    /// Serialized as `KeyIdr`.
    pub key_idr: Option<KekIdentifier2>,
}

impl Validate for Recipient5ChoiceEnum {
    open spec fn violations(&self, path: Seq<SegmentModel>) -> Seq<ReportModel> {
        Seq::empty()
            + choice_reports(
                Seq::empty()
                    + name_if(self.issr_and_srl_nb.is_some(), "IssrAndSrlNb"@)
                    + name_if(self.key_idr.is_some(), "KeyIdr"@),
                path,
            )
            + optional_reports(self.issr_and_srl_nb, "IssrAndSrlNb"@, path)
            + optional_reports(self.key_idr, "KeyIdr"@, path)
    }

    fn validate_into(
        &self,
        path: &Vec<PathSegment>,
        patterns: &IdentifierPatterns,
        out: &mut Vec<ValidationViolation>,
    ) {
        let ghost before = reports_model(out@);
        let ghost here = path_model(path@);
        let ghost mut expected = Seq::<ReportModel>::empty();
        proof {
            lemma_nothing_added(before);
        }
        let mut present: Vec<String> = Vec::new();
        let ghost mut names = Seq::<Seq<char>>::empty();
        proof {
            assert(names_model(present@) =~= names);
        }
        note_present(self.issr_and_srl_nb.is_some(), "IssrAndSrlNb", &mut present);
        proof {
            names = names + name_if(self.issr_and_srl_nb.is_some(), "IssrAndSrlNb"@);
        }
        note_present(self.key_idr.is_some(), "KeyIdr", &mut present);
        proof {
            names = names + name_if(self.key_idr.is_some(), "KeyIdr"@);
        }
        report_choice(present, path, out);
        proof {
            let added = choice_reports(names, here);
            lemma_more_added(before, expected, added);
            expected = expected + added;
        }
        validate_optional(&self.issr_and_srl_nb, "IssrAndSrlNb", path, patterns, out);
        proof {
            let added = optional_reports(self.issr_and_srl_nb, "IssrAndSrlNb"@, here);
            lemma_more_added(before, expected, added);
            expected = expected + added;
        }
        validate_optional(&self.key_idr, "KeyIdr", path, patterns, out);
        proof {
            let added = optional_reports(self.key_idr, "KeyIdr"@, here);
            lemma_more_added(before, expected, added);
            expected = expected + added;
        }
    }
}

/// A choice, serialized as its populated alternative.
#[derive(Debug, Default, Clone, PartialEq)]
pub struct Recipient5Choice {
    /// Serialized in place, without an element of its own.
    pub value: Recipient5ChoiceEnum,
}

impl Validate for Recipient5Choice {
    open spec fn violations(&self, path: Seq<SegmentModel>) -> Seq<ReportModel> {
        Seq::empty()
            + self.value.violations(path)
    }

    fn validate_into(
        &self,
        path: &Vec<PathSegment>,
        patterns: &IdentifierPatterns,
        out: &mut Vec<ValidationViolation>,
    ) {
        let ghost before = reports_model(out@);
        let ghost here = path_model(path@);
        let ghost mut expected = Seq::<ReportModel>::empty();
        proof {
            lemma_nothing_added(before);
        }
        self.value.validate_into(path, patterns, out);
        proof {
            let added = self.value.violations(here);
            lemma_more_added(before, expected, added);
            expected = expected + added;
        }
    }
}

#[derive(Debug, Default, Clone, PartialEq)]
pub struct TerminalIdentification3 {
    /// Serialized as `Id`.
    pub id: Max16Text,
    /// Serialized as `Assgnr`.
    pub assgnr: Option<Max35Text>,
    /// Serialized as `Ctry`.
    pub ctry: Option<IsoMax3ACountryCode>,
    /// Serialized as `ShrtNm`.
    pub shrt_nm: Option<Max35Text>,
}

impl Validate for TerminalIdentification3 {
    open spec fn violations(&self, path: Seq<SegmentModel>) -> Seq<ReportModel> {
        Seq::empty()
            + field_reports(self.id, "Id"@, path)
            + optional_reports(self.assgnr, "Assgnr"@, path)
            + optional_reports(self.ctry, "Ctry"@, path)
            + optional_reports(self.shrt_nm, "ShrtNm"@, path)
    }

    fn validate_into(
        &self,
        path: &Vec<PathSegment>,
        patterns: &IdentifierPatterns,
        out: &mut Vec<ValidationViolation>,
    ) {
        let ghost before = reports_model(out@);
        let ghost here = path_model(path@);
        let ghost mut expected = Seq::<ReportModel>::empty();
        proof {
            lemma_nothing_added(before);
        }
        validate_field(&self.id, "Id", path, patterns, out);
        proof {
            let added = field_reports(self.id, "Id"@, here);
            lemma_more_added(before, expected, added);
            expected = expected + added;
        }
        validate_optional(&self.assgnr, "Assgnr", path, patterns, out);
        proof {
            let added = optional_reports(self.assgnr, "Assgnr"@, here);
            lemma_more_added(before, expected, added);
            expected = expected + added;
        }
        validate_optional(&self.ctry, "Ctry", path, patterns, out);
        proof {
            let added = optional_reports(self.ctry, "Ctry"@, here);
            lemma_more_added(before, expected, added);
            expected = expected + added;
        }
        validate_optional(&self.shrt_nm, "ShrtNm", path, patterns, out);
        proof {
            let added = optional_reports(self.shrt_nm, "ShrtNm"@, here);
            lemma_more_added(before, expected, added);
            expected = expected + added;
        }
    }
}

#[derive(Debug, Default, Clone, PartialEq)]
pub struct Jurisdiction2 {
    /// Serialized as `DmstInd`.
    pub dmst_ind: Option<TrueFalseIndicator>,
    /// Serialized as `DmstQlfctn`.
    pub dmst_qlfctn: Option<Max35Text>,
}

impl Validate for Jurisdiction2 {
    open spec fn violations(&self, path: Seq<SegmentModel>) -> Seq<ReportModel> {
        Seq::empty()
            + optional_reports(self.dmst_ind, "DmstInd"@, path)
            + optional_reports(self.dmst_qlfctn, "DmstQlfctn"@, path)
    }

    fn validate_into(
        &self,
        path: &Vec<PathSegment>,
        patterns: &IdentifierPatterns,
        out: &mut Vec<ValidationViolation>,
    ) {
        let ghost before = reports_model(out@);
        let ghost here = path_model(path@);
        let ghost mut expected = Seq::<ReportModel>::empty();
        proof {
            lemma_nothing_added(before);
        }
        validate_optional(&self.dmst_ind, "DmstInd", path, patterns, out);
        proof {
            let added = optional_reports(self.dmst_ind, "DmstInd"@, here);
            lemma_more_added(before, expected, added);
            expected = expected + added;
        }
        validate_optional(&self.dmst_qlfctn, "DmstQlfctn", path, patterns, out);
        proof {
            let added = optional_reports(self.dmst_qlfctn, "DmstQlfctn"@, here);
            lemma_more_added(before, expected, added);
            expected = expected + added;
        }
    }
}

#[derive(Debug, Default, Clone, PartialEq)]
pub struct TransactionAmount1 {
    /// Serialized as `Amt`.
    pub amt: ImpliedCurrencyAndAmount,
    /// Serialized as `Ccy`.
    pub ccy: Iso3NumericCurrencyCode,
}

impl Validate for TransactionAmount1 {
    open spec fn violations(&self, path: Seq<SegmentModel>) -> Seq<ReportModel> {
        Seq::empty()
            + field_reports(self.amt, "Amt"@, path)
            + field_reports(self.ccy, "Ccy"@, path)
    }

    fn validate_into(
        &self,
        path: &Vec<PathSegment>,
        patterns: &IdentifierPatterns,
        out: &mut Vec<ValidationViolation>,
    ) {
        let ghost before = reports_model(out@);
        let ghost here = path_model(path@);
        let ghost mut expected = Seq::<ReportModel>::empty();
        proof {
            lemma_nothing_added(before);
        }
        validate_field(&self.amt, "Amt", path, patterns, out);
        proof {
            let added = field_reports(self.amt, "Amt"@, here);
            lemma_more_added(before, expected, added);
            expected = expected + added;
        }
        validate_field(&self.ccy, "Ccy", path, patterns, out);
        proof {
            let added = field_reports(self.ccy, "Ccy"@, here);
            lemma_more_added(before, expected, added);
            expected = expected + added;
        }
    }
}

#[derive(Debug, Default, Clone, PartialEq)]
pub struct Parameter7 {
    /// Serialized as `InitlstnVctr`.
    pub initlstn_vctr: Option<Max500Binary>,
    /// Serialized as `BPddg`.
    pub b_pddg: Option<BytePadding1Code>,
}

impl Validate for Parameter7 {
    open spec fn violations(&self, path: Seq<SegmentModel>) -> Seq<ReportModel> {
        Seq::empty()
            + optional_reports(self.initlstn_vctr, "InitlstnVctr"@, path)
            + optional_reports(self.b_pddg, "BPddg"@, path)
    }

    fn validate_into(
        &self,
        path: &Vec<PathSegment>,
        patterns: &IdentifierPatterns,
        out: &mut Vec<ValidationViolation>,
    ) {
        let ghost before = reports_model(out@);
        let ghost here = path_model(path@);
        let ghost mut expected = Seq::<ReportModel>::empty();
        proof {
            lemma_nothing_added(before);
        }
        validate_optional(&self.initlstn_vctr, "InitlstnVctr", path, patterns, out);
        proof {
            let added = optional_reports(self.initlstn_vctr, "InitlstnVctr"@, here);
            lemma_more_added(before, expected, added);
            expected = expected + added;
        }
        validate_optional(&self.b_pddg, "BPddg", path, patterns, out);
        proof {
            let added = optional_reports(self.b_pddg, "BPddg"@, here);
            lemma_more_added(before, expected, added);
            expected = expected + added;
        }
    }
}

#[derive(Debug, Default, Clone, PartialEq)]
pub struct ResultData7 {
    /// Serialized as `Rslt`.
    pub rslt: Option<Response8Code>,
    /// Serialized as `OthrRslt`.
    pub othr_rslt: Option<Max35Text>,
    /// Serialized as `RsltDtls`.
    pub rslt_dtls: Iso8583ResponseCode,
    /// Serialized as `OthrRsltDtls`.
    pub othr_rslt_dtls: Option<Max35Text>,
    /// Serialized as `TempScrCardDataReusePrtd`.
    pub temp_scr_card_data_reuse_prtd: Option<TrueFalseIndicator>,
    /// Serialized as `AddtlRsltInf`.
    pub addtl_rslt_inf: Vec<AdditionalData1>,
}

impl Validate for ResultData7 {
    open spec fn violations(&self, path: Seq<SegmentModel>) -> Seq<ReportModel> {
        Seq::empty()
            + optional_reports(self.rslt, "Rslt"@, path)
            + optional_reports(self.othr_rslt, "OthrRslt"@, path)
            + field_reports(self.rslt_dtls, "RsltDtls"@, path)
            + optional_reports(self.othr_rslt_dtls, "OthrRsltDtls"@, path)
            + optional_reports(self.temp_scr_card_data_reuse_prtd, "TempScrCardDataReusePrtd"@, path)
            + list_reports(self.addtl_rslt_inf@, Some(0), None, "AddtlRsltInf"@, path)
    }

    fn validate_into(
        &self,
        path: &Vec<PathSegment>,
        patterns: &IdentifierPatterns,
        out: &mut Vec<ValidationViolation>,
    ) {
        let ghost before = reports_model(out@);
        let ghost here = path_model(path@);
        let ghost mut expected = Seq::<ReportModel>::empty();
        proof {
            lemma_nothing_added(before);
        }
        validate_optional(&self.rslt, "Rslt", path, patterns, out);
        proof {
            let added = optional_reports(self.rslt, "Rslt"@, here);
            lemma_more_added(before, expected, added);
            expected = expected + added;
        }
        validate_optional(&self.othr_rslt, "OthrRslt", path, patterns, out);
        proof {
            let added = optional_reports(self.othr_rslt, "OthrRslt"@, here);
            lemma_more_added(before, expected, added);
            expected = expected + added;
        }
        validate_field(&self.rslt_dtls, "RsltDtls", path, patterns, out);
        proof {
            let added = field_reports(self.rslt_dtls, "RsltDtls"@, here);
            lemma_more_added(before, expected, added);
            expected = expected + added;
        }
        validate_optional(&self.othr_rslt_dtls, "OthrRsltDtls", path, patterns, out);
        proof {
            let added = optional_reports(self.othr_rslt_dtls, "OthrRsltDtls"@, here);
            lemma_more_added(before, expected, added);
            expected = expected + added;
        }
        validate_optional(&self.temp_scr_card_data_reuse_prtd, "TempScrCardDataReusePrtd", path, patterns, out);
        proof {
            let added = optional_reports(self.temp_scr_card_data_reuse_prtd, "TempScrCardDataReusePrtd"@, here);
            lemma_more_added(before, expected, added);
            expected = expected + added;
        }
        validate_list(&self.addtl_rslt_inf, Some(0), None, "AddtlRsltInf", path, patterns, out);
        proof {
            let added = list_reports(self.addtl_rslt_inf@, Some(0), None, "AddtlRsltInf"@, here);
            lemma_more_added(before, expected, added);
            expected = expected + added;
        }
    }
}

/// Text that matches `([0-9A-F][0-9A-F]){1,3}`.
#[derive(Debug, Default, Clone, PartialEq)]
pub struct ExternalEncryptedElementIdentification1Code {
    /// The text of the element.
    pub value: String,
}

impl Validate for ExternalEncryptedElementIdentification1Code {
    open spec fn violations(&self, path: Seq<SegmentModel>) -> Seq<ReportModel> {
        Seq::empty()
            + pattern_reports(self.value@, "([0-9A-F][0-9A-F]){1,3}"@, path)
    }

    fn validate_into(
        &self,
        path: &Vec<PathSegment>,
        patterns: &IdentifierPatterns,
        out: &mut Vec<ValidationViolation>,
    ) {
        let ghost before = reports_model(out@);
        let ghost here = path_model(path@);
        let ghost mut expected = Seq::<ReportModel>::empty();
        proof {
            lemma_nothing_added(before);
        }
        report_pattern(self.value.as_str(), patterns.external_encrypted_element_identification_1_code(), path, out);
        proof {
            let added = pattern_reports(self.value@, "([0-9A-F][0-9A-F]){1,3}"@, here);
            lemma_more_added(before, expected, added);
            expected = expected + added;
        }
    }
}

#[derive(Debug, Default, Clone, PartialEq)]
pub struct LocalData1 {
    /// Serialized as `Lang`.
    pub lang: IsoMax3ALanguageCode,
    /// Serialized as `ShrtNm`.
    pub shrt_nm: Option<Max70Text>,
    /// Serialized as `LglCorpNm`.
    pub lgl_corp_nm: Option<Max210Text>,
    /// Serialized as `AddtlData`.
    pub addtl_data: Vec<AdditionalData1>,
}

impl Validate for LocalData1 {
    open spec fn violations(&self, path: Seq<SegmentModel>) -> Seq<ReportModel> {
        Seq::empty()
            + field_reports(self.lang, "Lang"@, path)
            + optional_reports(self.shrt_nm, "ShrtNm"@, path)
            + optional_reports(self.lgl_corp_nm, "LglCorpNm"@, path)
            + list_reports(self.addtl_data@, Some(0), None, "AddtlData"@, path)
    }

    fn validate_into(
        &self,
        path: &Vec<PathSegment>,
        patterns: &IdentifierPatterns,
        out: &mut Vec<ValidationViolation>,
    ) {
        let ghost before = reports_model(out@);
        let ghost here = path_model(path@);
        let ghost mut expected = Seq::<ReportModel>::empty();
        proof {
            lemma_nothing_added(before);
        }
        validate_field(&self.lang, "Lang", path, patterns, out);
        proof {
            let added = field_reports(self.lang, "Lang"@, here);
            lemma_more_added(before, expected, added);
            expected = expected + added;
        }
        validate_optional(&self.shrt_nm, "ShrtNm", path, patterns, out);
        proof {
            let added = optional_reports(self.shrt_nm, "ShrtNm"@, here);
            lemma_more_added(before, expected, added);
            expected = expected + added;
        }
        validate_optional(&self.lgl_corp_nm, "LglCorpNm", path, patterns, out);
        proof {
            let added = optional_reports(self.lgl_corp_nm, "LglCorpNm"@, here);
            lemma_more_added(before, expected, added);
            expected = expected + added;
        }
        validate_list(&self.addtl_data, Some(0), None, "AddtlData", path, patterns, out);
        proof {
            let added = list_reports(self.addtl_data@, Some(0), None, "AddtlData"@, here);
            lemma_more_added(before, expected, added);
            expected = expected + added;
        }
    }
}

/// Text that matches `[0-9]{1,12}`.
#[derive(Debug, Default, Clone, PartialEq)]
pub struct Max12NumericText {
    /// The text of the element.
    pub value: String,
}

impl Validate for Max12NumericText {
    open spec fn violations(&self, path: Seq<SegmentModel>) -> Seq<ReportModel> {
        Seq::empty()
            + pattern_reports(self.value@, "[0-9]{1,12}"@, path)
    }

    fn validate_into(
        &self,
        path: &Vec<PathSegment>,
        patterns: &IdentifierPatterns,
        out: &mut Vec<ValidationViolation>,
    ) {
        let ghost before = reports_model(out@);
        let ghost here = path_model(path@);
        let ghost mut expected = Seq::<ReportModel>::empty();
        proof {
            lemma_nothing_added(before);
        }
        report_pattern(self.value.as_str(), patterns.max_12_numeric_text(), path, out);
        proof {
            let added = pattern_reports(self.value@, "[0-9]{1,12}"@, here);
            lemma_more_added(before, expected, added);
            expected = expected + added;
        }
    }
}

/// Text of 1 to 102400 characters that matches `[A-Za-z0-9+/]{4}*(?:[A-Za-z0-9+/]{2}==|[A-Za-z0-9+/]{3}=)?`.
#[derive(Debug, Default, Clone, PartialEq)]
pub struct Max100KBinary {
    pub value: String,
}

impl Validate for Max100KBinary {
    open spec fn violations(&self, path: Seq<SegmentModel>) -> Seq<ReportModel> {
        Seq::empty()
            + length_reports(self.value@, Some(1), Some(102400), path)
            + pattern_reports(self.value@, "[A-Za-z0-9+/]{4}*(?:[A-Za-z0-9+/]{2}==|[A-Za-z0-9+/]{3}=)?"@, path)
    }

    fn validate_into(
        &self,
        path: &Vec<PathSegment>,
        patterns: &IdentifierPatterns,
        out: &mut Vec<ValidationViolation>,
    ) {
        let ghost before = reports_model(out@);
        let ghost here = path_model(path@);
        let ghost mut expected = Seq::<ReportModel>::empty();
        proof {
            lemma_nothing_added(before);
        }
        report_length(self.value.as_str(), Some(1), Some(102400), path, out);
        proof {
            let added = length_reports(self.value@, Some(1), Some(102400), here);
            lemma_more_added(before, expected, added);
            expected = expected + added;
        }
        report_pattern(self.value.as_str(), patterns.max_100_k_binary(), path, out);
        proof {
            let added = pattern_reports(self.value@, "[A-Za-z0-9+/]{4}*(?:[A-Za-z0-9+/]{2}==|[A-Za-z0-9+/]{3}=)?"@, here);
            lemma_more_added(before, expected, added);
            expected = expected + added;
        }
    }
}

#[derive(Debug, Default, Clone, PartialEq)]
pub struct AlgorithmIdentification25 {
    /// Serialized as `Algo`.
    pub algo: Algorithm23Code,
    /// Serialized as `Param`.
    pub param: Option<Parameter7>,
}

impl Validate for AlgorithmIdentification25 {
    open spec fn violations(&self, path: Seq<SegmentModel>) -> Seq<ReportModel> {
        Seq::empty()
            + field_reports(self.algo, "Algo"@, path)
            + optional_reports(self.param, "Param"@, path)
    }

    fn validate_into(
        &self,
        path: &Vec<PathSegment>,
        patterns: &IdentifierPatterns,
        out: &mut Vec<ValidationViolation>,
    ) {
        let ghost before = reports_model(out@);
        let ghost here = path_model(path@);
        let ghost mut expected = Seq::<ReportModel>::empty();
        proof {
            lemma_nothing_added(before);
        }
        validate_field(&self.algo, "Algo", path, patterns, out);
        proof {
            let added = field_reports(self.algo, "Algo"@, here);
            lemma_more_added(before, expected, added);
            expected = expected + added;
        }
        validate_optional(&self.param, "Param", path, patterns, out);
        proof {
            let added = optional_reports(self.param, "Param"@, here);
            lemma_more_added(before, expected, added);
            expected = expected + added;
        }
    }
}

#[derive(Debug, Default, Clone, PartialEq)]
pub struct Exact15Text {
    /// The text of the element.
    pub value: String,
}

impl Validate for Exact15Text {
    open spec fn violations(&self, path: Seq<SegmentModel>) -> Seq<ReportModel> {
        Seq::empty()
    }

    fn validate_into(
        &self,
        path: &Vec<PathSegment>,
        patterns: &IdentifierPatterns,
        out: &mut Vec<ValidationViolation>,
    ) {
        proof {
            lemma_nothing_added(reports_model(out@));
        }
    }
}

#[derive(Debug, Default, Clone, PartialEq)]
pub struct Parameter13 {
    /// Serialized as `DgstAlgo`.
    pub dgst_algo: Option<Algorithm20Code>,
    /// Serialized as `MskGnrtrAlgo`.
    pub msk_gnrtr_algo: Option<AlgorithmIdentification26>,
}

impl Validate for Parameter13 {
    open spec fn violations(&self, path: Seq<SegmentModel>) -> Seq<ReportModel> {
        Seq::empty()
            + optional_reports(self.dgst_algo, "DgstAlgo"@, path)
            + optional_reports(self.msk_gnrtr_algo, "MskGnrtrAlgo"@, path)
    }

    fn validate_into(
        &self,
        path: &Vec<PathSegment>,
        patterns: &IdentifierPatterns,
        out: &mut Vec<ValidationViolation>,
    ) {
        let ghost before = reports_model(out@);
        let ghost here = path_model(path@);
        let ghost mut expected = Seq::<ReportModel>::empty();
        proof {
            lemma_nothing_added(before);
        }
        validate_optional(&self.dgst_algo, "DgstAlgo", path, patterns, out);
        proof {
            let added = optional_reports(self.dgst_algo, "DgstAlgo"@, here);
            lemma_more_added(before, expected, added);
            expected = expected + added;
        }
        validate_optional(&self.msk_gnrtr_algo, "MskGnrtrAlgo", path, patterns, out);
        proof {
            let added = optional_reports(self.msk_gnrtr_algo, "MskGnrtrAlgo"@, here);
            lemma_more_added(before, expected, added);
            expected = expected + added;
        }
    }
}

#[derive(Debug, Default, Clone, PartialEq)]
pub struct ProtectedData1 {
    /// Serialized as `CnttTp`.
    pub cntt_tp: ContentType3Code,
    /// Serialized as `EnvlpdData`.
    pub envlpd_data: Option<EnvelopedData6>,
    /// Serialized as `NcrptdData`.
    pub ncrptd_data: Option<EncryptedData1>,
}

impl Validate for ProtectedData1 {
    open spec fn violations(&self, path: Seq<SegmentModel>) -> Seq<ReportModel> {
        Seq::empty()
            + field_reports(self.cntt_tp, "CnttTp"@, path)
            + optional_reports(self.envlpd_data, "EnvlpdData"@, path)
            + optional_reports(self.ncrptd_data, "NcrptdData"@, path)
    }

    fn validate_into(
        &self,
        path: &Vec<PathSegment>,
        patterns: &IdentifierPatterns,
        out: &mut Vec<ValidationViolation>,
    ) {
        let ghost before = reports_model(out@);
        let ghost here = path_model(path@);
        let ghost mut expected = Seq::<ReportModel>::empty();
        proof {
            lemma_nothing_added(before);
        }
        validate_field(&self.cntt_tp, "CnttTp", path, patterns, out);
        proof {
            let added = field_reports(self.cntt_tp, "CnttTp"@, here);
            lemma_more_added(before, expected, added);
            expected = expected + added;
        }
        validate_optional(&self.envlpd_data, "EnvlpdData", path, patterns, out);
        proof {
            let added = optional_reports(self.envlpd_data, "EnvlpdData"@, here);
            lemma_more_added(before, expected, added);
            expected = expected + added;
        }
        validate_optional(&self.ncrptd_data, "NcrptdData", path, patterns, out);
        proof {
            let added = optional_reports(self.ncrptd_data, "NcrptdData"@, here);
            lemma_more_added(before, expected, added);
            expected = expected + added;
        }
    }
}

#[derive(Debug, Default, Clone, PartialEq)]
pub enum LifeCycleSupport1Code {
    /// Serialized as `AUTH`.
    Auth,
    /// Serialized as `FINC`.
    Finc,
    #[default]
    Unknown,
}

impl Validate for LifeCycleSupport1Code {
    open spec fn violations(&self, path: Seq<SegmentModel>) -> Seq<ReportModel> {
        Seq::empty()
    }

    fn validate_into(
        &self,
        path: &Vec<PathSegment>,
        patterns: &IdentifierPatterns,
        out: &mut Vec<ValidationViolation>,
    ) {
        proof {
            lemma_nothing_added(reports_model(out@));
        }
    }
}

#[derive(Debug, Default, Clone, PartialEq)]
pub struct RelativeDistinguishedName1 {
    /// Serialized as `AttrTp`.
    pub attr_tp: AttributeType1Code,
    /// Serialized as `AttrVal`.
    pub attr_val: Max140Text,
}

impl Validate for RelativeDistinguishedName1 {
    open spec fn violations(&self, path: Seq<SegmentModel>) -> Seq<ReportModel> {
        Seq::empty()
            + field_reports(self.attr_tp, "AttrTp"@, path)
            + field_reports(self.attr_val, "AttrVal"@, path)
    }

    fn validate_into(
        &self,
        path: &Vec<PathSegment>,
        patterns: &IdentifierPatterns,
        out: &mut Vec<ValidationViolation>,
    ) {
        let ghost before = reports_model(out@);
        let ghost here = path_model(path@);
        let ghost mut expected = Seq::<ReportModel>::empty();
        proof {
            lemma_nothing_added(before);
        }
        validate_field(&self.attr_tp, "AttrTp", path, patterns, out);
        proof {
            let added = field_reports(self.attr_tp, "AttrTp"@, here);
            lemma_more_added(before, expected, added);
            expected = expected + added;
        }
        validate_field(&self.attr_val, "AttrVal", path, patterns, out);
        proof {
            let added = field_reports(self.attr_val, "AttrVal"@, here);
            lemma_more_added(before, expected, added);
            expected = expected + added;
        }
    }
}

#[derive(Debug, Default, Clone, PartialEq)]
pub struct ApprovalEntity2 {
    /// Serialized as `Id`.
    pub id: Option<Max35Text>,
    /// Serialized as `Tp`.
    pub tp: PartyType26Code,
    /// Serialized as `OthrTp`.
    pub othr_tp: Option<Max35Text>,
    /// Serialized as `Assgnr`.
    pub assgnr: Option<PartyType9Code>,
    /// Serialized as `Ctry`.
    pub ctry: Option<IsoMax3ACountryCode>,
    /// Serialized as `ShrtNm`.
    pub shrt_nm: Option<Max35Text>,
}

impl Validate for ApprovalEntity2 {
    open spec fn violations(&self, path: Seq<SegmentModel>) -> Seq<ReportModel> {
        Seq::empty()
            + optional_reports(self.id, "Id"@, path)
            + field_reports(self.tp, "Tp"@, path)
            + optional_reports(self.othr_tp, "OthrTp"@, path)
            + optional_reports(self.assgnr, "Assgnr"@, path)
            + optional_reports(self.ctry, "Ctry"@, path)
            + optional_reports(self.shrt_nm, "ShrtNm"@, path)
    }

    fn validate_into(
        &self,
        path: &Vec<PathSegment>,
        patterns: &IdentifierPatterns,
        out: &mut Vec<ValidationViolation>,
    ) {
        let ghost before = reports_model(out@);
        let ghost here = path_model(path@);
        let ghost mut expected = Seq::<ReportModel>::empty();
        proof {
            lemma_nothing_added(before);
        }
        validate_optional(&self.id, "Id", path, patterns, out);
        proof {
            let added = optional_reports(self.id, "Id"@, here);
            lemma_more_added(before, expected, added);
            expected = expected + added;
        }
        validate_field(&self.tp, "Tp", path, patterns, out);
        proof {
            let added = field_reports(self.tp, "Tp"@, here);
            lemma_more_added(before, expected, added);
            expected = expected + added;
        }
        validate_optional(&self.othr_tp, "OthrTp", path, patterns, out);
        proof {
            let added = optional_reports(self.othr_tp, "OthrTp"@, here);
            lemma_more_added(before, expected, added);
            expected = expected + added;
        }
        validate_optional(&self.assgnr, "Assgnr", path, patterns, out);
        proof {
            let added = optional_reports(self.assgnr, "Assgnr"@, here);
            lemma_more_added(before, expected, added);
            expected = expected + added;
        }
        validate_optional(&self.ctry, "Ctry", path, patterns, out);
        proof {
            let added = optional_reports(self.ctry, "Ctry"@, here);
            lemma_more_added(before, expected, added);
            expected = expected + added;
        }
        validate_optional(&self.shrt_nm, "ShrtNm", path, patterns, out);
        proof {
            let added = optional_reports(self.shrt_nm, "ShrtNm"@, here);
            lemma_more_added(before, expected, added);
            expected = expected + added;
        }
    }
}

/// Text that matches `([0-9A-F][0-9A-F]){1,10000}`.
#[derive(Debug, Default, Clone, PartialEq)]
pub struct Max10KHexBinaryText {
    /// The text of the element.
    pub value: String,
}

impl Validate for Max10KHexBinaryText {
    open spec fn violations(&self, path: Seq<SegmentModel>) -> Seq<ReportModel> {
        Seq::empty()
            + pattern_reports(self.value@, "([0-9A-F][0-9A-F]){1,10000}  "@, path)
    }

    fn validate_into(
        &self,
        path: &Vec<PathSegment>,
        patterns: &IdentifierPatterns,
        out: &mut Vec<ValidationViolation>,
    ) {
        let ghost before = reports_model(out@);
        let ghost here = path_model(path@);
        let ghost mut expected = Seq::<ReportModel>::empty();
        proof {
            lemma_nothing_added(before);
        }
        report_pattern(self.value.as_str(), patterns.max_10_k_hex_binary_text(), path, out);
        proof {
            let added = pattern_reports(self.value@, "([0-9A-F][0-9A-F]){1,10000}  "@, here);
            lemma_more_added(before, expected, added);
            expected = expected + added;
        }
    }
}

#[derive(Debug, Default, Clone, PartialEq)]
pub enum Algorithm8Code {
    /// Serialized as `MGF1`.
    Mgf1,
    #[default]
    Unknown,
}

impl Validate for Algorithm8Code {
    open spec fn violations(&self, path: Seq<SegmentModel>) -> Seq<ReportModel> {
        Seq::empty()
    }

    fn validate_into(
        &self,
        path: &Vec<PathSegment>,
        patterns: &IdentifierPatterns,
        out: &mut Vec<ValidationViolation>,
    ) {
        proof {
            lemma_nothing_added(reports_model(out@));
        }
    }
}

#[derive(Debug, Default, Clone, PartialEq)]
pub struct Document<A> {
    /// Serialized as `RvslRspn`.
    pub rvsl_rspn: ReversalResponseV03<A>,
    /// Serialized as the attribute `xmlns`.
    pub xmlns: String,
}

impl<A: Validate> Validate for Document<A> {
    open spec fn violations(&self, path: Seq<SegmentModel>) -> Seq<ReportModel> {
        Seq::empty()
            + field_reports(self.rvsl_rspn, "RvslRspn"@, path)
    }

    fn validate_into(
        &self,
        path: &Vec<PathSegment>,
        patterns: &IdentifierPatterns,
        out: &mut Vec<ValidationViolation>,
    ) {
        let ghost before = reports_model(out@);
        let ghost here = path_model(path@);
        let ghost mut expected = Seq::<ReportModel>::empty();
        proof {
            lemma_nothing_added(before);
        }
        validate_field(&self.rvsl_rspn, "RvslRspn", path, patterns, out);
        proof {
            let added = field_reports(self.rvsl_rspn, "RvslRspn"@, here);
            lemma_more_added(before, expected, added);
            expected = expected + added;
        }
    }
}

/// A number.
#[derive(Debug, Default, Clone, PartialEq)]
pub struct BaseOne25Rate {
    /// The text of the element.
    pub value: Decimal,
}

impl Validate for BaseOne25Rate {
    open spec fn violations(&self, path: Seq<SegmentModel>) -> Seq<ReportModel> {
        Seq::empty()
    }

    fn validate_into(
        &self,
        path: &Vec<PathSegment>,
        patterns: &IdentifierPatterns,
        out: &mut Vec<ValidationViolation>,
    ) {
        proof {
            lemma_nothing_added(reports_model(out@));
        }
    }
}

#[derive(Debug, Default, Clone, PartialEq)]
pub struct DetailedAmount22 {
    /// Serialized as `Tp`.
    pub tp: Iso8583AmountTypeCode,
    /// Serialized as `OthrTp`.
    pub othr_tp: Option<Max35Text>,
    /// Serialized as `CdtDbt`.
    pub cdt_dbt: Option<CreditDebit3Code>,
    /// Serialized as `Amt`.
    pub amt: ImpliedCurrencyAndAmount,
    /// Serialized as `CrdhldrBllgAmt`.
    pub crdhldr_bllg_amt: Option<ImpliedCurrencyAndAmount>,
    /// Serialized as `RcncltnAmt`.
    pub rcncltn_amt: Option<ImpliedCurrencyAndAmount>,
    /// Serialized as `Desc`.
    pub desc: Option<Max70Text>,
}

impl Validate for DetailedAmount22 {
    open spec fn violations(&self, path: Seq<SegmentModel>) -> Seq<ReportModel> {
        Seq::empty()
            + field_reports(self.tp, "Tp"@, path)
            + optional_reports(self.othr_tp, "OthrTp"@, path)
            + optional_reports(self.cdt_dbt, "CdtDbt"@, path)
            + field_reports(self.amt, "Amt"@, path)
            + optional_reports(self.crdhldr_bllg_amt, "CrdhldrBllgAmt"@, path)
            + optional_reports(self.rcncltn_amt, "RcncltnAmt"@, path)
            + optional_reports(self.desc, "Desc"@, path)
    }

    fn validate_into(
        &self,
        path: &Vec<PathSegment>,
        patterns: &IdentifierPatterns,
        out: &mut Vec<ValidationViolation>,
    ) {
        let ghost before = reports_model(out@);
        let ghost here = path_model(path@);
        let ghost mut expected = Seq::<ReportModel>::empty();
        proof {
            lemma_nothing_added(before);
        }
        validate_field(&self.tp, "Tp", path, patterns, out);
        proof {
            let added = field_reports(self.tp, "Tp"@, here);
            lemma_more_added(before, expected, added);
            expected = expected + added;
        }
        validate_optional(&self.othr_tp, "OthrTp", path, patterns, out);
        proof {
            let added = optional_reports(self.othr_tp, "OthrTp"@, here);
            lemma_more_added(before, expected, added);
            expected = expected + added;
        }
        validate_optional(&self.cdt_dbt, "CdtDbt", path, patterns, out);
        proof {
            let added = optional_reports(self.cdt_dbt, "CdtDbt"@, here);
            lemma_more_added(before, expected, added);
            expected = expected + added;
        }
        validate_field(&self.amt, "Amt", path, patterns, out);
        proof {
            let added = field_reports(self.amt, "Amt"@, here);
            lemma_more_added(before, expected, added);
            expected = expected + added;
        }
        validate_optional(&self.crdhldr_bllg_amt, "CrdhldrBllgAmt", path, patterns, out);
        proof {
            let added = optional_reports(self.crdhldr_bllg_amt, "CrdhldrBllgAmt"@, here);
            lemma_more_added(before, expected, added);
            expected = expected + added;
        }
        validate_optional(&self.rcncltn_amt, "RcncltnAmt", path, patterns, out);
        proof {
            let added = optional_reports(self.rcncltn_amt, "RcncltnAmt"@, here);
            lemma_more_added(before, expected, added);
            expected = expected + added;
        }
        validate_optional(&self.desc, "Desc", path, patterns, out);
        proof {
            let added = optional_reports(self.desc, "Desc"@, here);
            lemma_more_added(before, expected, added);
            expected = expected + added;
        }
    }
}

/// Text that matches `([0-9A-F][0-9A-F]){1}`.
#[derive(Debug, Default, Clone, PartialEq)]
pub struct Exact1HexBinaryText {
    /// The text of the element.
    pub value: String,
}

impl Validate for Exact1HexBinaryText {
    open spec fn violations(&self, path: Seq<SegmentModel>) -> Seq<ReportModel> {
        Seq::empty()
            + pattern_reports(self.value@, "([0-9A-F][0-9A-F]){1}"@, path)
    }

    fn validate_into(
        &self,
        path: &Vec<PathSegment>,
        patterns: &IdentifierPatterns,
        out: &mut Vec<ValidationViolation>,
    ) {
        let ghost before = reports_model(out@);
        let ghost here = path_model(path@);
        let ghost mut expected = Seq::<ReportModel>::empty();
        proof {
            lemma_nothing_added(before);
        }
        report_pattern(self.value.as_str(), patterns.exact_1_hex_binary_text(), path, out);
        proof {
            let added = pattern_reports(self.value@, "([0-9A-F][0-9A-F]){1}"@, here);
            lemma_more_added(before, expected, added);
            expected = expected + added;
        }
    }
}

/// Text of 1 to 350 characters.
#[derive(Debug, Default, Clone, PartialEq)]
pub struct Max350Text {
    /// The text of the element.
    pub value: String,
}

impl Validate for Max350Text {
    open spec fn violations(&self, path: Seq<SegmentModel>) -> Seq<ReportModel> {
        Seq::empty()
            + length_reports(self.value@, Some(1), Some(350), path)
    }

    fn validate_into(
        &self,
        path: &Vec<PathSegment>,
        patterns: &IdentifierPatterns,
        out: &mut Vec<ValidationViolation>,
    ) {
        let ghost before = reports_model(out@);
        let ghost here = path_model(path@);
        let ghost mut expected = Seq::<ReportModel>::empty();
        proof {
            lemma_nothing_added(before);
        }
        report_length(self.value.as_str(), Some(1), Some(350), path, out);
        proof {
            let added = length_reports(self.value@, Some(1), Some(350), here);
            lemma_more_added(before, expected, added);
            expected = expected + added;
        }
    }
}

#[derive(Debug, Default, Clone, PartialEq)]
pub struct AdditionalAmounts3 {
    /// Serialized as `Tp`.
    pub tp: Iso8583AmountTypeCode,
    /// Serialized as `OthrTp`.
    pub othr_tp: Option<Max35Text>,
    /// Serialized as `Amt`.
    pub amt: Amount17,
    /// Serialized as `Desc`.
    pub desc: Option<Max70Text>,
    /// Serialized as `AddtlData`.
    pub addtl_data: Vec<AdditionalData1>,
}

impl Validate for AdditionalAmounts3 {
    open spec fn violations(&self, path: Seq<SegmentModel>) -> Seq<ReportModel> {
        Seq::empty()
            + field_reports(self.tp, "Tp"@, path)
            + optional_reports(self.othr_tp, "OthrTp"@, path)
            + field_reports(self.amt, "Amt"@, path)
            + optional_reports(self.desc, "Desc"@, path)
            + list_reports(self.addtl_data@, Some(0), None, "AddtlData"@, path)
    }

    fn validate_into(
        &self,
        path: &Vec<PathSegment>,
        patterns: &IdentifierPatterns,
        out: &mut Vec<ValidationViolation>,
    ) {
        let ghost before = reports_model(out@);
        let ghost here = path_model(path@);
        let ghost mut expected = Seq::<ReportModel>::empty();
        proof {
            lemma_nothing_added(before);
        }
        validate_field(&self.tp, "Tp", path, patterns, out);
        proof {
            let added = field_reports(self.tp, "Tp"@, here);
            lemma_more_added(before, expected, added);
            expected = expected + added;
        }
        validate_optional(&self.othr_tp, "OthrTp", path, patterns, out);
        proof {
            let added = optional_reports(self.othr_tp, "OthrTp"@, here);
            lemma_more_added(before, expected, added);
            expected = expected + added;
        }
        validate_field(&self.amt, "Amt", path, patterns, out);
        proof {
            let added = field_reports(self.amt, "Amt"@, here);
            lemma_more_added(before, expected, added);
            expected = expected + added;
        }
        validate_optional(&self.desc, "Desc", path, patterns, out);
        proof {
            let added = optional_reports(self.desc, "Desc"@, here);
            lemma_more_added(before, expected, added);
            expected = expected + added;
        }
        validate_list(&self.addtl_data, Some(0), None, "AddtlData", path, patterns, out);
        proof {
            let added = list_reports(self.addtl_data@, Some(0), None, "AddtlData"@, here);
            lemma_more_added(before, expected, added);
            expected = expected + added;
        }
    }
}

/// Text that matches `[0-9]{1,3}`.
#[derive(Debug, Default, Clone, PartialEq)]
pub struct Max3NumericText {
    /// The text of the element.
    pub value: String,
}

impl Validate for Max3NumericText {
    open spec fn violations(&self, path: Seq<SegmentModel>) -> Seq<ReportModel> {
        Seq::empty()
            + pattern_reports(self.value@, "[0-9]{1,3}"@, path)
    }

    fn validate_into(
        &self,
        path: &Vec<PathSegment>,
        patterns: &IdentifierPatterns,
        out: &mut Vec<ValidationViolation>,
    ) {
        let ghost before = reports_model(out@);
        let ghost here = path_model(path@);
        let ghost mut expected = Seq::<ReportModel>::empty();
        proof {
            lemma_nothing_added(before);
        }
        report_pattern(self.value.as_str(), patterns.max_3_numeric_text(), path, out);
        proof {
            let added = pattern_reports(self.value@, "[0-9]{1,3}"@, here);
            lemma_more_added(before, expected, added);
            expected = expected + added;
        }
    }
}

#[derive(Debug, Default, Clone, PartialEq)]
pub struct AdditionalFee2 {
    /// Serialized as `Tp`.
    pub tp: TypeOfAmount21Code,
    /// Serialized as `OthrTp`.
    pub othr_tp: Option<Max35Text>,
    /// Serialized as `FeePrgm`.
    pub fee_prgm: Option<Max35Text>,
    /// Serialized as `FeeDscrptr`.
    pub fee_dscrptr: Option<Max35Text>,
    /// Serialized as `FeeAmt`.
    pub fee_amt: FeeAmount3,
    /// Serialized as `FeeRcncltnAmt`.
    pub fee_rcncltn_amt: Option<FeeAmount3>,
    /// Serialized as `Desc`.
    pub desc: Option<Max140Text>,
    /// Serialized as `AddtlData`.
    pub addtl_data: Vec<AdditionalData1>,
}

impl Validate for AdditionalFee2 {
    open spec fn violations(&self, path: Seq<SegmentModel>) -> Seq<ReportModel> {
        Seq::empty()
            + field_reports(self.tp, "Tp"@, path)
            + optional_reports(self.othr_tp, "OthrTp"@, path)
            + optional_reports(self.fee_prgm, "FeePrgm"@, path)
            + optional_reports(self.fee_dscrptr, "FeeDscrptr"@, path)
            + field_reports(self.fee_amt, "FeeAmt"@, path)
            + optional_reports(self.fee_rcncltn_amt, "FeeRcncltnAmt"@, path)
            + optional_reports(self.desc, "Desc"@, path)
            + list_reports(self.addtl_data@, Some(0), None, "AddtlData"@, path)
    }

    fn validate_into(
        &self,
        path: &Vec<PathSegment>,
        patterns: &IdentifierPatterns,
        out: &mut Vec<ValidationViolation>,
    ) {
        let ghost before = reports_model(out@);
        let ghost here = path_model(path@);
        let ghost mut expected = Seq::<ReportModel>::empty();
        proof {
            lemma_nothing_added(before);
        }
        validate_field(&self.tp, "Tp", path, patterns, out);
        proof {
            let added = field_reports(self.tp, "Tp"@, here);
            lemma_more_added(before, expected, added);
            expected = expected + added;
        }
        validate_optional(&self.othr_tp, "OthrTp", path, patterns, out);
        proof {
            let added = optional_reports(self.othr_tp, "OthrTp"@, here);
            lemma_more_added(before, expected, added);
            expected = expected + added;
        }
        validate_optional(&self.fee_prgm, "FeePrgm", path, patterns, out);
        proof {
            let added = optional_reports(self.fee_prgm, "FeePrgm"@, here);
            lemma_more_added(before, expected, added);
            expected = expected + added;
        }
        validate_optional(&self.fee_dscrptr, "FeeDscrptr", path, patterns, out);
        proof {
            let added = optional_reports(self.fee_dscrptr, "FeeDscrptr"@, here);
            lemma_more_added(before, expected, added);
            expected = expected + added;
        }
        validate_field(&self.fee_amt, "FeeAmt", path, patterns, out);
        proof {
            let added = field_reports(self.fee_amt, "FeeAmt"@, here);
            lemma_more_added(before, expected, added);
            expected = expected + added;
        }
        validate_optional(&self.fee_rcncltn_amt, "FeeRcncltnAmt", path, patterns, out);
        proof {
            let added = optional_reports(self.fee_rcncltn_amt, "FeeRcncltnAmt"@, here);
            lemma_more_added(before, expected, added);
            expected = expected + added;
        }
        validate_optional(&self.desc, "Desc", path, patterns, out);
        proof {
            let added = optional_reports(self.desc, "Desc"@, here);
            lemma_more_added(before, expected, added);
            expected = expected + added;
        }
        validate_list(&self.addtl_data, Some(0), None, "AddtlData", path, patterns, out);
        proof {
            let added = list_reports(self.addtl_data@, Some(0), None, "AddtlData"@, here);
            lemma_more_added(before, expected, added);
            expected = expected + added;
        }
    }
}

#[derive(Debug, Default, Clone, PartialEq)]
pub struct GenericIdentification183 {
    /// Serialized as `Id`.
    pub id: Max35Text,
    /// Serialized as `Tp`.
    pub tp: Option<PartyType17Code>,
    /// Serialized as `OthrTp`.
    pub othr_tp: Option<Max35Text>,
    /// Serialized as `Assgnr`.
    pub assgnr: Option<PartyType18Code>,
    /// Serialized as `Ctry`.
    pub ctry: Option<IsoMax3ACountryCode>,
    /// Serialized as `ShrtNm`.
    pub shrt_nm: Option<Max35Text>,
}

impl Validate for GenericIdentification183 {
    open spec fn violations(&self, path: Seq<SegmentModel>) -> Seq<ReportModel> {
        Seq::empty()
            + field_reports(self.id, "Id"@, path)
            + optional_reports(self.tp, "Tp"@, path)
            + optional_reports(self.othr_tp, "OthrTp"@, path)
            + optional_reports(self.assgnr, "Assgnr"@, path)
            + optional_reports(self.ctry, "Ctry"@, path)
            + optional_reports(self.shrt_nm, "ShrtNm"@, path)
    }

    fn validate_into(
        &self,
        path: &Vec<PathSegment>,
        patterns: &IdentifierPatterns,
        out: &mut Vec<ValidationViolation>,
    ) {
        let ghost before = reports_model(out@);
        let ghost here = path_model(path@);
        let ghost mut expected = Seq::<ReportModel>::empty();
        proof {
            lemma_nothing_added(before);
        }
        validate_field(&self.id, "Id", path, patterns, out);
        proof {
            let added = field_reports(self.id, "Id"@, here);
            lemma_more_added(before, expected, added);
            expected = expected + added;
        }
        validate_optional(&self.tp, "Tp", path, patterns, out);
        proof {
            let added = optional_reports(self.tp, "Tp"@, here);
            lemma_more_added(before, expected, added);
            expected = expected + added;
        }
        validate_optional(&self.othr_tp, "OthrTp", path, patterns, out);
        proof {
            let added = optional_reports(self.othr_tp, "OthrTp"@, here);
            lemma_more_added(before, expected, added);
            expected = expected + added;
        }
        validate_optional(&self.assgnr, "Assgnr", path, patterns, out);
        proof {
            let added = optional_reports(self.assgnr, "Assgnr"@, here);
            lemma_more_added(before, expected, added);
            expected = expected + added;
        }
        validate_optional(&self.ctry, "Ctry", path, patterns, out);
        proof {
            let added = optional_reports(self.ctry, "Ctry"@, here);
            lemma_more_added(before, expected, added);
            expected = expected + added;
        }
        validate_optional(&self.shrt_nm, "ShrtNm", path, patterns, out);
        proof {
            let added = optional_reports(self.shrt_nm, "ShrtNm"@, here);
            lemma_more_added(before, expected, added);
            expected = expected + added;
        }
    }
}

/// Text of 1 to 210 characters.
#[derive(Debug, Default, Clone, PartialEq)]
pub struct Max210Text {
    /// The text of the element.
    pub value: String,
}

impl Validate for Max210Text {
    open spec fn violations(&self, path: Seq<SegmentModel>) -> Seq<ReportModel> {
        Seq::empty()
            + length_reports(self.value@, Some(1), Some(210), path)
    }

    fn validate_into(
        &self,
        path: &Vec<PathSegment>,
        patterns: &IdentifierPatterns,
        out: &mut Vec<ValidationViolation>,
    ) {
        let ghost before = reports_model(out@);
        let ghost here = path_model(path@);
        let ghost mut expected = Seq::<ReportModel>::empty();
        proof {
            lemma_nothing_added(before);
        }
        report_length(self.value.as_str(), Some(1), Some(210), path, out);
        proof {
            let added = length_reports(self.value@, Some(1), Some(210), here);
            lemma_more_added(before, expected, added);
            expected = expected + added;
        }
    }
}

/// Text of 1 to 4000 characters.
#[derive(Debug, Default, Clone, PartialEq)]
pub struct Max4000Text {
    /// The text of the element.
    pub value: String,
}

impl Validate for Max4000Text {
    open spec fn violations(&self, path: Seq<SegmentModel>) -> Seq<ReportModel> {
        Seq::empty()
            + length_reports(self.value@, Some(1), Some(4000), path)
    }

    fn validate_into(
        &self,
        path: &Vec<PathSegment>,
        patterns: &IdentifierPatterns,
        out: &mut Vec<ValidationViolation>,
    ) {
        let ghost before = reports_model(out@);
        let ghost here = path_model(path@);
        let ghost mut expected = Seq::<ReportModel>::empty();
        proof {
            lemma_nothing_added(before);
        }
        report_length(self.value.as_str(), Some(1), Some(4000), path, out);
        proof {
            let added = length_reports(self.value@, Some(1), Some(4000), here);
            lemma_more_added(before, expected, added);
            expected = expected + added;
        }
    }
}

#[derive(Debug, Default, Clone, PartialEq)]
pub struct EncryptedContent5 {
    /// Serialized as `CnttTp`.
    pub cntt_tp: ContentType2Code,
    /// Serialized as `CnttNcrptnAlgo`.
    pub cntt_ncrptn_algo: AlgorithmIdentification25,
    /// Serialized as `NcrptdDataElmt`.
    pub ncrptd_data_elmt: Vec<EncryptedDataElement1>,
}

impl Validate for EncryptedContent5 {
    open spec fn violations(&self, path: Seq<SegmentModel>) -> Seq<ReportModel> {
        Seq::empty()
            + field_reports(self.cntt_tp, "CnttTp"@, path)
            + field_reports(self.cntt_ncrptn_algo, "CnttNcrptnAlgo"@, path)
            + list_reports(self.ncrptd_data_elmt@, Some(1), None, "NcrptdDataElmt"@, path)
    }

    fn validate_into(
        &self,
        path: &Vec<PathSegment>,
        patterns: &IdentifierPatterns,
        out: &mut Vec<ValidationViolation>,
    ) {
        let ghost before = reports_model(out@);
        let ghost here = path_model(path@);
        let ghost mut expected = Seq::<ReportModel>::empty();
        proof {
            lemma_nothing_added(before);
        }
        validate_field(&self.cntt_tp, "CnttTp", path, patterns, out);
        proof {
            let added = field_reports(self.cntt_tp, "CnttTp"@, here);
            lemma_more_added(before, expected, added);
            expected = expected + added;
        }
        validate_field(&self.cntt_ncrptn_algo, "CnttNcrptnAlgo", path, patterns, out);
        proof {
            let added = field_reports(self.cntt_ncrptn_algo, "CnttNcrptnAlgo"@, here);
            lemma_more_added(before, expected, added);
            expected = expected + added;
        }
        validate_list(&self.ncrptd_data_elmt, Some(1), None, "NcrptdDataElmt", path, patterns, out);
        proof {
            let added = list_reports(self.ncrptd_data_elmt@, Some(1), None, "NcrptdDataElmt"@, here);
            lemma_more_added(before, expected, added);
            expected = expected + added;
        }
    }
}

/// Text that matches `([0-9A-F][0-9A-F]){1,9999}`.
#[derive(Debug, Default, Clone, PartialEq)]
pub struct Max9999HexBinaryText {
    /// The text of the element.
    pub value: String,
}

impl Validate for Max9999HexBinaryText {
    open spec fn violations(&self, path: Seq<SegmentModel>) -> Seq<ReportModel> {
        Seq::empty()
            + pattern_reports(self.value@, "([0-9A-F][0-9A-F]){1,9999}"@, path)
    }

    fn validate_into(
        &self,
        path: &Vec<PathSegment>,
        patterns: &IdentifierPatterns,
        out: &mut Vec<ValidationViolation>,
    ) {
        let ghost before = reports_model(out@);
        let ghost here = path_model(path@);
        let ghost mut expected = Seq::<ReportModel>::empty();
        proof {
            lemma_nothing_added(before);
        }
        report_pattern(self.value.as_str(), patterns.max_9999_hex_binary_text(), path, out);
        proof {
            let added = pattern_reports(self.value@, "([0-9A-F][0-9A-F]){1,9999}"@, here);
            lemma_more_added(before, expected, added);
            expected = expected + added;
        }
    }
}

#[derive(Debug, Default, Clone, PartialEq)]
pub struct SpecialProgrammeDetails1 {
    /// Serialized as `Nm`.
    pub nm: Option<Max35Text>,
    /// Serialized as `Val`.
    pub val: Option<Max35Text>,
}

impl Validate for SpecialProgrammeDetails1 {
    open spec fn violations(&self, path: Seq<SegmentModel>) -> Seq<ReportModel> {
        Seq::empty()
            + optional_reports(self.nm, "Nm"@, path)
            + optional_reports(self.val, "Val"@, path)
    }

    fn validate_into(
        &self,
        path: &Vec<PathSegment>,
        patterns: &IdentifierPatterns,
        out: &mut Vec<ValidationViolation>,
    ) {
        let ghost before = reports_model(out@);
        let ghost here = path_model(path@);
        let ghost mut expected = Seq::<ReportModel>::empty();
        proof {
            lemma_nothing_added(before);
        }
        validate_optional(&self.nm, "Nm", path, patterns, out);
        proof {
            let added = optional_reports(self.nm, "Nm"@, here);
            lemma_more_added(before, expected, added);
            expected = expected + added;
        }
        validate_optional(&self.val, "Val", path, patterns, out);
        proof {
            let added = optional_reports(self.val, "Val"@, here);
            lemma_more_added(before, expected, added);
            expected = expected + added;
        }
    }
}

#[derive(Debug, Default, Clone, PartialEq)]
pub enum StorageLocation1Code {
    /// Serialized as `CAWL`.
    Cawl,
    /// Serialized as `DVCE`.
    Dvce,
    /// Serialized as `ISWL`.
    Iswl,
    /// Serialized as `ONFL`.
    Onfl,
    /// Serialized as `OTHN`.
    Othn,
    /// Serialized as `OTHP`.
    Othp,
    /// Serialized as `TPWL`.
    Tpwl,
    #[default]
    Unknown,
}

impl Validate for StorageLocation1Code {
    open spec fn violations(&self, path: Seq<SegmentModel>) -> Seq<ReportModel> {
        Seq::empty()
    }

    fn validate_into(
        &self,
        path: &Vec<PathSegment>,
        patterns: &IdentifierPatterns,
        out: &mut Vec<ValidationViolation>,
    ) {
        proof {
            lemma_nothing_added(reports_model(out@));
        }
    }
}

#[derive(Debug, Default, Clone, PartialEq)]
pub struct BatchManagementInformation1 {
    /// Serialized as `ColltnId`.
    pub colltn_id: Option<Max35Text>,
    /// Serialized as `BtchId`.
    pub btch_id: Max35Text,
    /// Serialized as `MsgSeqNb`.
    pub msg_seq_nb: Option<Max15NumericText>,
    /// Serialized as `MsgChcksmInptVal`.
    pub msg_chcksm_inpt_val: Option<Max140Binary>,
}

impl Validate for BatchManagementInformation1 {
    open spec fn violations(&self, path: Seq<SegmentModel>) -> Seq<ReportModel> {
        Seq::empty()
            + optional_reports(self.colltn_id, "ColltnId"@, path)
            + field_reports(self.btch_id, "BtchId"@, path)
            + optional_reports(self.msg_seq_nb, "MsgSeqNb"@, path)
            + optional_reports(self.msg_chcksm_inpt_val, "MsgChcksmInptVal"@, path)
    }

    fn validate_into(
        &self,
        path: &Vec<PathSegment>,
        patterns: &IdentifierPatterns,
        out: &mut Vec<ValidationViolation>,
    ) {
        let ghost before = reports_model(out@);
        let ghost here = path_model(path@);
        let ghost mut expected = Seq::<ReportModel>::empty();
        proof {
            lemma_nothing_added(before);
        }
        validate_optional(&self.colltn_id, "ColltnId", path, patterns, out);
        proof {
            let added = optional_reports(self.colltn_id, "ColltnId"@, here);
            lemma_more_added(before, expected, added);
            expected = expected + added;
        }
        validate_field(&self.btch_id, "BtchId", path, patterns, out);
        proof {
            let added = field_reports(self.btch_id, "BtchId"@, here);
            lemma_more_added(before, expected, added);
            expected = expected + added;
        }
        validate_optional(&self.msg_seq_nb, "MsgSeqNb", path, patterns, out);
        proof {
            let added = optional_reports(self.msg_seq_nb, "MsgSeqNb"@, here);
            lemma_more_added(before, expected, added);
            expected = expected + added;
        }
        validate_optional(&self.msg_chcksm_inpt_val, "MsgChcksmInptVal", path, patterns, out);
        proof {
            let added = optional_reports(self.msg_chcksm_inpt_val, "MsgChcksmInptVal"@, here);
            lemma_more_added(before, expected, added);
            expected = expected + added;
        }
    }
}

#[derive(Debug, Default, Clone, PartialEq)]
pub struct TransactionIdentification51 {
    /// Serialized as `LclDt`.
    pub lcl_dt: Option<IsoDate>,
    /// Serialized as `LclTm`.
    pub lcl_tm: Option<IsoTime>,
    /// Serialized as `TmZone`.
    pub tm_zone: Option<Max70Text>,
    /// Serialized as `TxRef`.
    pub tx_ref: Option<Max35Text>,
    /// Serialized as `TrnsmssnDtTm`.
    pub trnsmssn_dt_tm: Option<IsoDateTime>,
    /// Serialized as `SysTracAudtNb`.
    pub sys_trac_audt_nb: Max12NumericText,
    /// Serialized as `RtrvlRefNb`.
    pub rtrvl_ref_nb: Exact12Text,
    /// Serialized as `LifeCyclSpprt`.
    pub life_cycl_spprt: Option<LifeCycleSupport1Code>,
    /// Serialized as `LifeCyclTracIdData`.
    pub life_cycl_trac_id_data: Option<TransactionLifeCycleIdentification1>,
    /// Serialized as `LifeCyclTracIdMssng`.
    pub life_cycl_trac_id_mssng: Option<Max70Text>,
    /// Serialized as `AcqrrRefData`.
    pub acqrr_ref_data: Option<Max140Text>,
    /// Serialized as `AcqrrRefNb`.
    pub acqrr_ref_nb: Option<Max23NumericText>,
    /// Serialized as `CardIssrRefData`.
    pub card_issr_ref_data: Option<Max1000Text>,
    /// Serialized as `OrgnlDataElmts`.
    pub orgnl_data_elmts: Option<OriginalDataElements2>,
}

impl Validate for TransactionIdentification51 {
    open spec fn violations(&self, path: Seq<SegmentModel>) -> Seq<ReportModel> {
        Seq::empty()
            + optional_reports(self.lcl_dt, "LclDt"@, path)
            + optional_reports(self.lcl_tm, "LclTm"@, path)
            + optional_reports(self.tm_zone, "TmZone"@, path)
            + optional_reports(self.tx_ref, "TxRef"@, path)
            + optional_reports(self.trnsmssn_dt_tm, "TrnsmssnDtTm"@, path)
            + field_reports(self.sys_trac_audt_nb, "SysTracAudtNb"@, path)
            + field_reports(self.rtrvl_ref_nb, "RtrvlRefNb"@, path)
            + optional_reports(self.life_cycl_spprt, "LifeCyclSpprt"@, path)
            + optional_reports(self.life_cycl_trac_id_data, "LifeCyclTracIdData"@, path)
            + optional_reports(self.life_cycl_trac_id_mssng, "LifeCyclTracIdMssng"@, path)
            + optional_reports(self.acqrr_ref_data, "AcqrrRefData"@, path)
            + optional_reports(self.acqrr_ref_nb, "AcqrrRefNb"@, path)
            + optional_reports(self.card_issr_ref_data, "CardIssrRefData"@, path)
            + optional_reports(self.orgnl_data_elmts, "OrgnlDataElmts"@, path)
    }

    fn validate_into(
        &self,
        path: &Vec<PathSegment>,
        patterns: &IdentifierPatterns,
        out: &mut Vec<ValidationViolation>,
    ) {
        let ghost before = reports_model(out@);
        let ghost here = path_model(path@);
        let ghost mut expected = Seq::<ReportModel>::empty();
        proof {
            lemma_nothing_added(before);
        }
        validate_optional(&self.lcl_dt, "LclDt", path, patterns, out);
        proof {
            let added = optional_reports(self.lcl_dt, "LclDt"@, here);
            lemma_more_added(before, expected, added);
            expected = expected + added;
        }
        validate_optional(&self.lcl_tm, "LclTm", path, patterns, out);
        proof {
            let added = optional_reports(self.lcl_tm, "LclTm"@, here);
            lemma_more_added(before, expected, added);
            expected = expected + added;
        }
        validate_optional(&self.tm_zone, "TmZone", path, patterns, out);
        proof {
            let added = optional_reports(self.tm_zone, "TmZone"@, here);
            lemma_more_added(before, expected, added);
            expected = expected + added;
        }
        validate_optional(&self.tx_ref, "TxRef", path, patterns, out);
        proof {
            let added = optional_reports(self.tx_ref, "TxRef"@, here);
            lemma_more_added(before, expected, added);
            expected = expected + added;
        }
        validate_optional(&self.trnsmssn_dt_tm, "TrnsmssnDtTm", path, patterns, out);
        proof {
            let added = optional_reports(self.trnsmssn_dt_tm, "TrnsmssnDtTm"@, here);
            lemma_more_added(before, expected, added);
            expected = expected + added;
        }
        validate_field(&self.sys_trac_audt_nb, "SysTracAudtNb", path, patterns, out);
        proof {
            let added = field_reports(self.sys_trac_audt_nb, "SysTracAudtNb"@, here);
            lemma_more_added(before, expected, added);
            expected = expected + added;
        }
        validate_field(&self.rtrvl_ref_nb, "RtrvlRefNb", path, patterns, out);
        proof {
            let added = field_reports(self.rtrvl_ref_nb, "RtrvlRefNb"@, here);
            lemma_more_added(before, expected, added);
            expected = expected + added;
        }
        validate_optional(&self.life_cycl_spprt, "LifeCyclSpprt", path, patterns, out);
        proof {
            let added = optional_reports(self.life_cycl_spprt, "LifeCyclSpprt"@, here);
            lemma_more_added(before, expected, added);
            expected = expected + added;
        }
        validate_optional(&self.life_cycl_trac_id_data, "LifeCyclTracIdData", path, patterns, out);
        proof {
            let added = optional_reports(self.life_cycl_trac_id_data, "LifeCyclTracIdData"@, here);
            lemma_more_added(before, expected, added);
            expected = expected + added;
        }
        validate_optional(&self.life_cycl_trac_id_mssng, "LifeCyclTracIdMssng", path, patterns, out);
        proof {
            let added = optional_reports(self.life_cycl_trac_id_mssng, "LifeCyclTracIdMssng"@, here);
            lemma_more_added(before, expected, added);
            expected = expected + added;
        }
        validate_optional(&self.acqrr_ref_data, "AcqrrRefData", path, patterns, out);
        proof {
            let added = optional_reports(self.acqrr_ref_data, "AcqrrRefData"@, here);
            lemma_more_added(before, expected, added);
            expected = expected + added;
        }
        validate_optional(&self.acqrr_ref_nb, "AcqrrRefNb", path, patterns, out);
        proof {
            let added = optional_reports(self.acqrr_ref_nb, "AcqrrRefNb"@, here);
            lemma_more_added(before, expected, added);
            expected = expected + added;
        }
        validate_optional(&self.card_issr_ref_data, "CardIssrRefData", path, patterns, out);
        proof {
            let added = optional_reports(self.card_issr_ref_data, "CardIssrRefData"@, here);
            lemma_more_added(before, expected, added);
            expected = expected + added;
        }
        validate_optional(&self.orgnl_data_elmts, "OrgnlDataElmts", path, patterns, out);
        proof {
            let added = optional_reports(self.orgnl_data_elmts, "OrgnlDataElmts"@, here);
            lemma_more_added(before, expected, added);
            expected = expected + added;
        }
    }
}

#[derive(Debug, Default, Clone, PartialEq)]
pub enum TransactionInitiator1Code {
    /// Serialized as `MERC`.
    Merc,
    /// Serialized as `CUST`.
    Cust,
    #[default]
    Unknown,
}

impl Validate for TransactionInitiator1Code {
    open spec fn violations(&self, path: Seq<SegmentModel>) -> Seq<ReportModel> {
        Seq::empty()
    }

    fn validate_into(
        &self,
        path: &Vec<PathSegment>,
        patterns: &IdentifierPatterns,
        out: &mut Vec<ValidationViolation>,
    ) {
        proof {
            lemma_nothing_added(reports_model(out@));
        }
    }
}

#[derive(Debug, Default, Clone, PartialEq)]
pub struct CardProgrammeMode3 {
    /// Serialized as `Tp`.
    pub tp: Option<Max35Text>,
    /// Serialized as `Id`.
    pub id: Max35Text,
    /// Serialized as `AddtlId`.
    pub addtl_id: Vec<AdditionalData1>,
}

impl Validate for CardProgrammeMode3 {
    open spec fn violations(&self, path: Seq<SegmentModel>) -> Seq<ReportModel> {
        Seq::empty()
            + optional_reports(self.tp, "Tp"@, path)
            + field_reports(self.id, "Id"@, path)
            + list_reports(self.addtl_id@, Some(0), None, "AddtlId"@, path)
    }

    fn validate_into(
        &self,
        path: &Vec<PathSegment>,
        patterns: &IdentifierPatterns,
        out: &mut Vec<ValidationViolation>,
    ) {
        let ghost before = reports_model(out@);
        let ghost here = path_model(path@);
        let ghost mut expected = Seq::<ReportModel>::empty();
        proof {
            lemma_nothing_added(before);
        }
        validate_optional(&self.tp, "Tp", path, patterns, out);
        proof {
            let added = optional_reports(self.tp, "Tp"@, here);
            lemma_more_added(before, expected, added);
            expected = expected + added;
        }
        validate_field(&self.id, "Id", path, patterns, out);
        proof {
            let added = field_reports(self.id, "Id"@, here);
            lemma_more_added(before, expected, added);
            expected = expected + added;
        }
        validate_list(&self.addtl_id, Some(0), None, "AddtlId", path, patterns, out);
        proof {
            let added = list_reports(self.addtl_id@, Some(0), None, "AddtlId"@, here);
            lemma_more_added(before, expected, added);
            expected = expected + added;
        }
    }
}

#[derive(Debug, Default, Clone, PartialEq)]
pub struct CardData10 {
    /// Serialized as `PAN`.
    pub pan: Option<Max19NumericText>,
    /// Serialized as `PrtctdPANInd`.
    pub prtctd_pan_ind: Option<TrueFalseIndicator>,
    /// Serialized as `CardSeqNb`.
    pub card_seq_nb: Option<Min2Max3NumericText>,
    /// Serialized as `PmtAcctRef`.
    pub pmt_acct_ref: Option<Max35Text>,
    /// Serialized as `PANAcctRg`.
    pub pan_acct_rg: Option<Max19NumericText>,
    /// Serialized as `CardPrtflIdr`.
    pub card_prtfl_idr: Option<Max35Text>,
    /// Serialized as `AddtlCardData`.
    pub addtl_card_data: Vec<AdditionalData1>,
}

impl Validate for CardData10 {
    open spec fn violations(&self, path: Seq<SegmentModel>) -> Seq<ReportModel> {
        Seq::empty()
            + optional_reports(self.pan, "PAN"@, path)
            + optional_reports(self.prtctd_pan_ind, "PrtctdPANInd"@, path)
            + optional_reports(self.card_seq_nb, "CardSeqNb"@, path)
            + optional_reports(self.pmt_acct_ref, "PmtAcctRef"@, path)
            + optional_reports(self.pan_acct_rg, "PANAcctRg"@, path)
            + optional_reports(self.card_prtfl_idr, "CardPrtflIdr"@, path)
            + list_reports(self.addtl_card_data@, Some(0), None, "AddtlCardData"@, path)
    }

    fn validate_into(
        &self,
        path: &Vec<PathSegment>,
        patterns: &IdentifierPatterns,
        out: &mut Vec<ValidationViolation>,
    ) {
        let ghost before = reports_model(out@);
        let ghost here = path_model(path@);
        let ghost mut expected = Seq::<ReportModel>::empty();
        proof {
            lemma_nothing_added(before);
        }
        validate_optional(&self.pan, "PAN", path, patterns, out);
        proof {
            let added = optional_reports(self.pan, "PAN"@, here);
            lemma_more_added(before, expected, added);
            expected = expected + added;
        }
        validate_optional(&self.prtctd_pan_ind, "PrtctdPANInd", path, patterns, out);
        proof {
            let added = optional_reports(self.prtctd_pan_ind, "PrtctdPANInd"@, here);
            lemma_more_added(before, expected, added);
            expected = expected + added;
        }
        validate_optional(&self.card_seq_nb, "CardSeqNb", path, patterns, out);
        proof {
            let added = optional_reports(self.card_seq_nb, "CardSeqNb"@, here);
            lemma_more_added(before, expected, added);
            expected = expected + added;
        }
        validate_optional(&self.pmt_acct_ref, "PmtAcctRef", path, patterns, out);
        proof {
            let added = optional_reports(self.pmt_acct_ref, "PmtAcctRef"@, here);
            lemma_more_added(before, expected, added);
            expected = expected + added;
        }
        validate_optional(&self.pan_acct_rg, "PANAcctRg", path, patterns, out);
        proof {
            let added = optional_reports(self.pan_acct_rg, "PANAcctRg"@, here);
            lemma_more_added(before, expected, added);
            expected = expected + added;
        }
        validate_optional(&self.card_prtfl_idr, "CardPrtflIdr", path, patterns, out);
        proof {
            let added = optional_reports(self.card_prtfl_idr, "CardPrtflIdr"@, here);
            lemma_more_added(before, expected, added);
            expected = expected + added;
        }
        validate_list(&self.addtl_card_data, Some(0), None, "AddtlCardData", path, patterns, out);
        proof {
            let added = list_reports(self.addtl_card_data@, Some(0), None, "AddtlCardData"@, here);
            lemma_more_added(before, expected, added);
            expected = expected + added;
        }
    }
}

/// Text that matches `[0-9A-Z]{2,2}`.
#[derive(Debug, Default, Clone, PartialEq)]
pub struct Iso8583TransactionTypeCode {
    /// The text of the element.
    pub value: String,
}

impl Validate for Iso8583TransactionTypeCode {
    open spec fn violations(&self, path: Seq<SegmentModel>) -> Seq<ReportModel> {
        Seq::empty()
            + pattern_reports(self.value@, "[0-9A-Z]{2,2}"@, path)
    }

    fn validate_into(
        &self,
        path: &Vec<PathSegment>,
        patterns: &IdentifierPatterns,
        out: &mut Vec<ValidationViolation>,
    ) {
        let ghost before = reports_model(out@);
        let ghost here = path_model(path@);
        let ghost mut expected = Seq::<ReportModel>::empty();
        proof {
            lemma_nothing_added(before);
        }
        report_pattern(self.value.as_str(), patterns.iso_8583_transaction_type_code(), path, out);
        proof {
            let added = pattern_reports(self.value@, "[0-9A-Z]{2,2}"@, here);
            lemma_more_added(before, expected, added);
            expected = expected + added;
        }
    }
}

#[derive(Debug, Default, Clone, PartialEq)]
pub struct MacData1 {
    /// Serialized as `Ctrl`.
    pub ctrl: Exact1HexBinaryText,
    /// Serialized as `KeySetIdr`.
    pub key_set_idr: Max8NumericText,
    /// Serialized as `DrvdInf`.
    pub drvd_inf: Option<Max32HexBinaryText>,
    /// Serialized as `Algo`.
    pub algo: Max2NumericText,
    /// Serialized as `KeyLngth`.
    pub key_lngth: Option<Max4NumericText>,
    /// Serialized as `KeyPrtcn`.
    pub key_prtcn: Option<Max2NumericText>,
    /// Serialized as `KeyIndx`.
    pub key_indx: Option<Max5NumericText>,
    /// Serialized as `PddgMtd`.
    pub pddg_mtd: Option<Max2NumericText>,
    /// Serialized as `InitlstnVctr`.
    pub initlstn_vctr: Option<Max32HexBinaryText>,
}

impl Validate for MacData1 {
    open spec fn violations(&self, path: Seq<SegmentModel>) -> Seq<ReportModel> {
        Seq::empty()
            + field_reports(self.ctrl, "Ctrl"@, path)
            + field_reports(self.key_set_idr, "KeySetIdr"@, path)
            + optional_reports(self.drvd_inf, "DrvdInf"@, path)
            + field_reports(self.algo, "Algo"@, path)
            + optional_reports(self.key_lngth, "KeyLngth"@, path)
            + optional_reports(self.key_prtcn, "KeyPrtcn"@, path)
            + optional_reports(self.key_indx, "KeyIndx"@, path)
            + optional_reports(self.pddg_mtd, "PddgMtd"@, path)
            + optional_reports(self.initlstn_vctr, "InitlstnVctr"@, path)
    }

    fn validate_into(
        &self,
        path: &Vec<PathSegment>,
        patterns: &IdentifierPatterns,
        out: &mut Vec<ValidationViolation>,
    ) {
        let ghost before = reports_model(out@);
        let ghost here = path_model(path@);
        let ghost mut expected = Seq::<ReportModel>::empty();
        proof {
            lemma_nothing_added(before);
        }
        validate_field(&self.ctrl, "Ctrl", path, patterns, out);
        proof {
            let added = field_reports(self.ctrl, "Ctrl"@, here);
            lemma_more_added(before, expected, added);
            expected = expected + added;
        }
        validate_field(&self.key_set_idr, "KeySetIdr", path, patterns, out);
        proof {
            let added = field_reports(self.key_set_idr, "KeySetIdr"@, here);
            lemma_more_added(before, expected, added);
            expected = expected + added;
        }
        validate_optional(&self.drvd_inf, "DrvdInf", path, patterns, out);
        proof {
            let added = optional_reports(self.drvd_inf, "DrvdInf"@, here);
            lemma_more_added(before, expected, added);
            expected = expected + added;
        }
        validate_field(&self.algo, "Algo", path, patterns, out);
        proof {
            let added = field_reports(self.algo, "Algo"@, here);
            lemma_more_added(before, expected, added);
            expected = expected + added;
        }
        validate_optional(&self.key_lngth, "KeyLngth", path, patterns, out);
        proof {
            let added = optional_reports(self.key_lngth, "KeyLngth"@, here);
            lemma_more_added(before, expected, added);
            expected = expected + added;
        }
        validate_optional(&self.key_prtcn, "KeyPrtcn", path, patterns, out);
        proof {
            let added = optional_reports(self.key_prtcn, "KeyPrtcn"@, here);
            lemma_more_added(before, expected, added);
            expected = expected + added;
        }
        validate_optional(&self.key_indx, "KeyIndx", path, patterns, out);
        proof {
            let added = optional_reports(self.key_indx, "KeyIndx"@, here);
            lemma_more_added(before, expected, added);
            expected = expected + added;
        }
        validate_optional(&self.pddg_mtd, "PddgMtd", path, patterns, out);
        proof {
            let added = optional_reports(self.pddg_mtd, "PddgMtd"@, here);
            lemma_more_added(before, expected, added);
            expected = expected + added;
        }
        validate_optional(&self.initlstn_vctr, "InitlstnVctr", path, patterns, out);
        proof {
            let added = optional_reports(self.initlstn_vctr, "InitlstnVctr"@, here);
            lemma_more_added(before, expected, added);
            expected = expected + added;
        }
    }
}

#[derive(Debug, Default, Clone, PartialEq)]
pub enum PartyType21Code {
    /// Serialized as `ACCP`.
    Accp,
    /// Serialized as `CRDH`.
    Crdh,
    /// Serialized as `OTHN`.
    Othn,
    /// Serialized as `OTHP`.
    Othp,
    #[default]
    Unknown,
}

impl Validate for PartyType21Code {
    open spec fn violations(&self, path: Seq<SegmentModel>) -> Seq<ReportModel> {
        Seq::empty()
    }

    fn validate_into(
        &self,
        path: &Vec<PathSegment>,
        patterns: &IdentifierPatterns,
        out: &mut Vec<ValidationViolation>,
    ) {
        proof {
            lemma_nothing_added(reports_model(out@));
        }
    }
}

#[derive(Debug, Default, Clone, PartialEq)]
pub enum ActionDestination1Code {
    /// Serialized as `FILE`.
    File,
    /// Serialized as `MOBL`.
    Mobl,
    /// Serialized as `OTHN`.
    Othn,
    /// Serialized as `OTHP`.
    Othp,
    /// Serialized as `PECR`.
    Pecr,
    /// Serialized as `POFS`.
    Pofs,
    #[default]
    Unknown,
}

impl Validate for ActionDestination1Code {
    open spec fn violations(&self, path: Seq<SegmentModel>) -> Seq<ReportModel> {
        Seq::empty()
    }

    fn validate_into(
        &self,
        path: &Vec<PathSegment>,
        patterns: &IdentifierPatterns,
        out: &mut Vec<ValidationViolation>,
    ) {
        proof {
            lemma_nothing_added(reports_model(out@));
        }
    }
}

/// Text of 1 to 2048 characters.
#[derive(Debug, Default, Clone, PartialEq)]
pub struct Max2048Text {
    /// The text of the element.
    pub value: String,
}

impl Validate for Max2048Text {
    open spec fn violations(&self, path: Seq<SegmentModel>) -> Seq<ReportModel> {
        Seq::empty()
            + length_reports(self.value@, Some(1), Some(2048), path)
    }

    fn validate_into(
        &self,
        path: &Vec<PathSegment>,
        patterns: &IdentifierPatterns,
        out: &mut Vec<ValidationViolation>,
    ) {
        let ghost before = reports_model(out@);
        let ghost here = path_model(path@);
        let ghost mut expected = Seq::<ReportModel>::empty();
        proof {
            lemma_nothing_added(before);
        }
        report_length(self.value.as_str(), Some(1), Some(2048), path, out);
        proof {
            let added = length_reports(self.value@, Some(1), Some(2048), here);
            lemma_more_added(before, expected, added);
            expected = expected + added;
        }
    }
}

/// A time of day.
#[derive(Debug, Default, Clone, PartialEq)]
pub struct IsoTime {
    /// Serialized as `$value`. A time of day in ISO 8601 form.
    pub value: String,
}

impl Validate for IsoTime {
    open spec fn violations(&self, path: Seq<SegmentModel>) -> Seq<ReportModel> {
        Seq::empty()
    }

    fn validate_into(
        &self,
        path: &Vec<PathSegment>,
        patterns: &IdentifierPatterns,
        out: &mut Vec<ValidationViolation>,
    ) {
        proof {
            lemma_nothing_added(reports_model(out@));
        }
    }
}

#[derive(Debug, Default, Clone, PartialEq)]
pub struct Kek6 {
    /// Serialized as `Vrsn`.
    pub vrsn: Option<Number>,
    /// Serialized as `KEKId`.
    pub kek_id: KekIdentifier6,
    /// Serialized as `KeyNcrptnAlgo`.
    pub key_ncrptn_algo: AlgorithmIdentification28,
    /// Serialized as `NcrptdKey`.
    pub ncrptd_key: Option<Max500Binary>,
}

impl Validate for Kek6 {
    open spec fn violations(&self, path: Seq<SegmentModel>) -> Seq<ReportModel> {
        Seq::empty()
            + optional_reports(self.vrsn, "Vrsn"@, path)
            + field_reports(self.kek_id, "KEKId"@, path)
            + field_reports(self.key_ncrptn_algo, "KeyNcrptnAlgo"@, path)
            + optional_reports(self.ncrptd_key, "NcrptdKey"@, path)
    }

    fn validate_into(
        &self,
        path: &Vec<PathSegment>,
        patterns: &IdentifierPatterns,
        out: &mut Vec<ValidationViolation>,
    ) {
        let ghost before = reports_model(out@);
        let ghost here = path_model(path@);
        let ghost mut expected = Seq::<ReportModel>::empty();
        proof {
            lemma_nothing_added(before);
        }
        validate_optional(&self.vrsn, "Vrsn", path, patterns, out);
        proof {
            let added = optional_reports(self.vrsn, "Vrsn"@, here);
            lemma_more_added(before, expected, added);
            expected = expected + added;
        }
        validate_field(&self.kek_id, "KEKId", path, patterns, out);
        proof {
            let added = field_reports(self.kek_id, "KEKId"@, here);
            lemma_more_added(before, expected, added);
            expected = expected + added;
        }
        validate_field(&self.key_ncrptn_algo, "KeyNcrptnAlgo", path, patterns, out);
        proof {
            let added = field_reports(self.key_ncrptn_algo, "KeyNcrptnAlgo"@, here);
            lemma_more_added(before, expected, added);
            expected = expected + added;
        }
        validate_optional(&self.ncrptd_key, "NcrptdKey", path, patterns, out);
        proof {
            let added = optional_reports(self.ncrptd_key, "NcrptdKey"@, here);
            lemma_more_added(before, expected, added);
            expected = expected + added;
        }
    }
}

#[derive(Debug, Default, Clone, PartialEq)]
pub struct PartyIdentification263 {
    /// Serialized as `Id`.
    pub id: Max11NumericText,
    /// Serialized as `Assgnr`.
    pub assgnr: Option<Max35Text>,
    /// Serialized as `Ctry`.
    pub ctry: Option<Iso3NumericCountryCode>,
    /// Serialized as `ShrtNm`.
    pub shrt_nm: Option<Max35Text>,
    /// Serialized as `LglCorpNm`.
    pub lgl_corp_nm: Option<Max99Text>,
    /// Serialized as `AddtlId`.
    pub addtl_id: Option<AdditionalData1>,
    /// Serialized as `LclData`.
    pub lcl_data: Option<LocalData1>,
}

impl Validate for PartyIdentification263 {
    open spec fn violations(&self, path: Seq<SegmentModel>) -> Seq<ReportModel> {
        Seq::empty()
            + field_reports(self.id, "Id"@, path)
            + optional_reports(self.assgnr, "Assgnr"@, path)
            + optional_reports(self.ctry, "Ctry"@, path)
            + optional_reports(self.shrt_nm, "ShrtNm"@, path)
            + optional_reports(self.lgl_corp_nm, "LglCorpNm"@, path)
            + optional_reports(self.addtl_id, "AddtlId"@, path)
            + optional_reports(self.lcl_data, "LclData"@, path)
    }

    fn validate_into(
        &self,
        path: &Vec<PathSegment>,
        patterns: &IdentifierPatterns,
        out: &mut Vec<ValidationViolation>,
    ) {
        let ghost before = reports_model(out@);
        let ghost here = path_model(path@);
        let ghost mut expected = Seq::<ReportModel>::empty();
        proof {
            lemma_nothing_added(before);
        }
        validate_field(&self.id, "Id", path, patterns, out);
        proof {
            let added = field_reports(self.id, "Id"@, here);
            lemma_more_added(before, expected, added);
            expected = expected + added;
        }
        validate_optional(&self.assgnr, "Assgnr", path, patterns, out);
        proof {
            let added = optional_reports(self.assgnr, "Assgnr"@, here);
            lemma_more_added(before, expected, added);
            expected = expected + added;
        }
        validate_optional(&self.ctry, "Ctry", path, patterns, out);
        proof {
            let added = optional_reports(self.ctry, "Ctry"@, here);
            lemma_more_added(before, expected, added);
            expected = expected + added;
        }
        validate_optional(&self.shrt_nm, "ShrtNm", path, patterns, out);
        proof {
            let added = optional_reports(self.shrt_nm, "ShrtNm"@, here);
            lemma_more_added(before, expected, added);
            expected = expected + added;
        }
        validate_optional(&self.lgl_corp_nm, "LglCorpNm", path, patterns, out);
        proof {
            let added = optional_reports(self.lgl_corp_nm, "LglCorpNm"@, here);
            lemma_more_added(before, expected, added);
            expected = expected + added;
        }
        validate_optional(&self.addtl_id, "AddtlId", path, patterns, out);
        proof {
            let added = optional_reports(self.addtl_id, "AddtlId"@, here);
            lemma_more_added(before, expected, added);
            expected = expected + added;
        }
        validate_optional(&self.lcl_data, "LclData", path, patterns, out);
        proof {
            let added = optional_reports(self.lcl_data, "LclData"@, here);
            lemma_more_added(before, expected, added);
            expected = expected + added;
        }
    }
}

#[derive(Debug, Default, Clone, PartialEq)]
pub enum TypeOfAmount21Code {
    /// Serialized as `INTC`.
    Intc,
    /// Serialized as `FEEP`.
    Feep,
    /// Serialized as `OTHN`.
    Othn,
    /// Serialized as `OTHP`.
    Othp,
    /// Serialized as `FEEA`.
    Feea,
    /// Serialized as `CSIF`.
    Csif,
    /// Serialized as `MXIF`.
    Mxif,
    /// Serialized as `MNIF`.
    Mnif,
    #[default]
    Unknown,
}

impl Validate for TypeOfAmount21Code {
    open spec fn violations(&self, path: Seq<SegmentModel>) -> Seq<ReportModel> {
        Seq::empty()
    }

    fn validate_into(
        &self,
        path: &Vec<PathSegment>,
        patterns: &IdentifierPatterns,
        out: &mut Vec<ValidationViolation>,
    ) {
        proof {
            lemma_nothing_added(reports_model(out@));
        }
    }
}

} // verus!
