//! Securities financing reporting transaction query (`auth.094.001.02`).

use vstd::prelude::*;
use vstd::string::StringExecFns;
use crate::decimal::Decimal;
use crate::identifiers::IdentifierPatterns;
use crate::validate::Validate;
use crate::validate::choice_reports;
use crate::validate::field_reports;
use crate::validate::lemma_more_added;
use crate::validate::lemma_nothing_added;
use crate::validate::length_reports;
use crate::validate::list_reports;
use crate::validate::name_if;
use crate::validate::note_present;
use crate::validate::optional_reports;
use crate::validate::pattern_reports;
use crate::validate::range_reports;
use crate::validate::report_choice;
use crate::validate::report_length;
use crate::validate::report_pattern;
use crate::validate::report_range;
use crate::validate::validate_field;
use crate::validate::validate_list;
use crate::validate::validate_optional;
use crate::violation::PathSegment;
use crate::violation::ReportModel;
use crate::violation::SegmentModel;
use crate::violation::ValidationViolation;
use crate::violation::names_model;
use crate::violation::path_model;
use crate::violation::reports_model;

verus! {

/// The namespace of the schema.
pub fn namespace() -> (name: String)
    ensures
        name@ == "urn:iso:std:iso:20022:tech:xsd:auth.094.001.02"@,
{
    String::from_str("urn:iso:std:iso:20022:tech:xsd:auth.094.001.02")
}

#[derive(Debug, Default, Clone, PartialEq)]
pub struct TradeRecurrentQuery5 {
    /// Serialized as `QryTp`.
    pub qry_tp: Max1000Text,
    /// Serialized as `Frqcy`.
    pub frqcy: TradeQueryExecutionFrequency3,
    /// Serialized as `VldUntil`.
    pub vld_until: IsoDate,
}

impl Validate for TradeRecurrentQuery5 {
    open spec fn violations(&self, path: Seq<SegmentModel>) -> Seq<ReportModel> {
        Seq::empty()
            + field_reports(self.qry_tp, "QryTp"@, path)
            + field_reports(self.frqcy, "Frqcy"@, path)
            + field_reports(self.vld_until, "VldUntil"@, path)
    }

    fn validate_into(
        &self,
        path: &Vec<PathSegment>,
        patterns: &IdentifierPatterns,
        out: &mut Vec<ValidationViolation>,
    ) {
        let ghost before = reports_model(out@);
        let ghost here = path_model(path@);
        let ghost mut expected = Seq::<ReportModel>::empty();
        proof {
            lemma_nothing_added(before);
        }
        validate_field(&self.qry_tp, "QryTp", path, patterns, out);
        proof {
            let added = field_reports(self.qry_tp, "QryTp"@, here);
            lemma_more_added(before, expected, added);
            expected = expected + added;
        }
        validate_field(&self.frqcy, "Frqcy", path, patterns, out);
        proof {
            let added = field_reports(self.frqcy, "Frqcy"@, here);
            lemma_more_added(before, expected, added);
            expected = expected + added;
        }
        validate_field(&self.vld_until, "VldUntil", path, patterns, out);
        proof {
            let added = field_reports(self.vld_until, "VldUntil"@, here);
            lemma_more_added(before, expected, added);
            expected = expected + added;
        }
    }
}

/// The alternatives of a choice: exactly one of them is populated.
#[derive(Debug, Default, Clone, PartialEq)]
pub struct TradeReportQuery13ChoiceEnum {
    /// Serialized as `AdHocQry`.
    pub ad_hoc_qry: Option<TradeQueryCriteria10>,
    /// Serialized as `RcrntQry`.
    pub rcrnt_qry: Option<TradeRecurrentQuery5>,
}

impl Validate for TradeReportQuery13ChoiceEnum {
    open spec fn violations(&self, path: Seq<SegmentModel>) -> Seq<ReportModel> {
        Seq::empty()
            + choice_reports(
                Seq::empty()
                    + name_if(self.ad_hoc_qry.is_some(), "AdHocQry"@)
                    + name_if(self.rcrnt_qry.is_some(), "RcrntQry"@),
                path,
            )
            + optional_reports(self.ad_hoc_qry, "AdHocQry"@, path)
            + optional_reports(self.rcrnt_qry, "RcrntQry"@, path)
    }

    fn validate_into(
        &self,
        path: &Vec<PathSegment>,
        patterns: &IdentifierPatterns,
        out: &mut Vec<ValidationViolation>,
    ) {
        let ghost before = reports_model(out@);
        let ghost here = path_model(path@);
        let ghost mut expected = Seq::<ReportModel>::empty();
        proof {
            lemma_nothing_added(before);
        }
        let mut present: Vec<String> = Vec::new();
        let ghost mut names = Seq::<Seq<char>>::empty();
        proof {
            assert(names_model(present@) =~= names);
        }
        note_present(self.ad_hoc_qry.is_some(), "AdHocQry", &mut present);
        proof {
            names = names + name_if(self.ad_hoc_qry.is_some(), "AdHocQry"@);
        }
        note_present(self.rcrnt_qry.is_some(), "RcrntQry", &mut present);
        proof {
            names = names + name_if(self.rcrnt_qry.is_some(), "RcrntQry"@);
        }
        report_choice(present, path, out);
        proof {
            let added = choice_reports(names, here);
            lemma_more_added(before, expected, added);
            expected = expected + added;
        }
        validate_optional(&self.ad_hoc_qry, "AdHocQry", path, patterns, out);
        proof {
            let added = optional_reports(self.ad_hoc_qry, "AdHocQry"@, here);
            lemma_more_added(before, expected, added);
            expected = expected + added;
        }
        validate_optional(&self.rcrnt_qry, "RcrntQry", path, patterns, out);
        proof {
            let added = optional_reports(self.rcrnt_qry, "RcrntQry"@, here);
            lemma_more_added(before, expected, added);
            expected = expected + added;
        }
    }
}

/// A choice, serialized as its populated alternative.
#[derive(Debug, Default, Clone, PartialEq)]
pub struct TradeReportQuery13Choice {
    /// Serialized in place, without an element of its own.
    pub value: TradeReportQuery13ChoiceEnum,
}

impl Validate for TradeReportQuery13Choice {
    open spec fn violations(&self, path: Seq<SegmentModel>) -> Seq<ReportModel> {
        Seq::empty()
            + self.value.violations(path)
    }

    fn validate_into(
        &self,
        path: &Vec<PathSegment>,
        patterns: &IdentifierPatterns,
        out: &mut Vec<ValidationViolation>,
    ) {
        let ghost before = reports_model(out@);
        let ghost here = path_model(path@);
        let ghost mut expected = Seq::<ReportModel>::empty();
        proof {
            lemma_nothing_added(before);
        }
        self.value.validate_into(path, patterns, out);
        proof {
            let added = self.value.violations(here);
            lemma_more_added(before, expected, added);
            expected = expected + added;
        }
    }
}

#[derive(Debug, Default, Clone, PartialEq)]
pub struct TradeTypeQueryCriteria2 {
    /// Serialized as `Oprtr`.
    pub oprtr: Operation3Code,
    /// Serialized as `SctiesFincgTxTp`.
    pub scties_fincg_tx_tp: Vec<ExposureType10Code>,
    /// Serialized as `CollCmpntTp`.
    pub coll_cmpnt_tp: Vec<CollateralType6Code>,
}

impl Validate for TradeTypeQueryCriteria2 {
    open spec fn violations(&self, path: Seq<SegmentModel>) -> Seq<ReportModel> {
        Seq::empty()
            + field_reports(self.oprtr, "Oprtr"@, path)
            + list_reports(self.scties_fincg_tx_tp@, Some(0), None, "SctiesFincgTxTp"@, path)
            + list_reports(self.coll_cmpnt_tp@, Some(0), None, "CollCmpntTp"@, path)
    }

    fn validate_into(
        &self,
        path: &Vec<PathSegment>,
        patterns: &IdentifierPatterns,
        out: &mut Vec<ValidationViolation>,
    ) {
        let ghost before = reports_model(out@);
        let ghost here = path_model(path@);
        let ghost mut expected = Seq::<ReportModel>::empty();
        proof {
            lemma_nothing_added(before);
        }
        validate_field(&self.oprtr, "Oprtr", path, patterns, out);
        proof {
            let added = field_reports(self.oprtr, "Oprtr"@, here);
            lemma_more_added(before, expected, added);
            expected = expected + added;
        }
        validate_list(&self.scties_fincg_tx_tp, Some(0), None, "SctiesFincgTxTp", path, patterns, out);
        proof {
            let added = list_reports(self.scties_fincg_tx_tp@, Some(0), None, "SctiesFincgTxTp"@, here);
            lemma_more_added(before, expected, added);
            expected = expected + added;
        }
        validate_list(&self.coll_cmpnt_tp, Some(0), None, "CollCmpntTp", path, patterns, out);
        proof {
            let added = list_reports(self.coll_cmpnt_tp@, Some(0), None, "CollCmpntTp"@, here);
            lemma_more_added(before, expected, added);
            expected = expected + added;
        }
    }
}

#[derive(Debug, Default, Clone, PartialEq)]
pub struct Document<A> {
    /// Serialized as `SctiesFincgRptgTxQry`.
    pub scties_fincg_rptg_tx_qry: SecuritiesFinancingReportingTransactionQueryV02<A>,
    /// Serialized as the attribute `xmlns`.
    pub xmlns: String,
}

impl<A: Validate> Validate for Document<A> {
    open spec fn violations(&self, path: Seq<SegmentModel>) -> Seq<ReportModel> {
        Seq::empty()
            + field_reports(self.scties_fincg_rptg_tx_qry, "SctiesFincgRptgTxQry"@, path)
    }

    fn validate_into(
        &self,
        path: &Vec<PathSegment>,
        patterns: &IdentifierPatterns,
        out: &mut Vec<ValidationViolation>,
    ) {
        let ghost before = reports_model(out@);
        let ghost here = path_model(path@);
        let ghost mut expected = Seq::<ReportModel>::empty();
        proof {
            lemma_nothing_added(before);
        }
        validate_field(&self.scties_fincg_rptg_tx_qry, "SctiesFincgRptgTxQry", path, patterns, out);
        proof {
            let added = field_reports(self.scties_fincg_rptg_tx_qry, "SctiesFincgRptgTxQry"@, here);
            lemma_more_added(before, expected, added);
            expected = expected + added;
        }
    }
}

/// Text that matches `[A-U]{1,1}`.
#[derive(Debug, Default, Clone, PartialEq)]
pub struct NaceDomainIdentifier {
    /// The text of the element.
    pub value: String,
}

impl Validate for NaceDomainIdentifier {
    open spec fn violations(&self, path: Seq<SegmentModel>) -> Seq<ReportModel> {
        Seq::empty()
            + pattern_reports(self.value@, "[A-U]{1,1}"@, path)
    }

    fn validate_into(
        &self,
        path: &Vec<PathSegment>,
        patterns: &IdentifierPatterns,
        out: &mut Vec<ValidationViolation>,
    ) {
        let ghost before = reports_model(out@);
        let ghost here = path_model(path@);
        let ghost mut expected = Seq::<ReportModel>::empty();
        proof {
            lemma_nothing_added(before);
        }
        report_pattern(self.value.as_str(), patterns.nace_domain_identifier(), path, out);
        proof {
            let added = pattern_reports(self.value@, "[A-U]{1,1}"@, here);
            lemma_more_added(before, expected, added);
            expected = expected + added;
        }
    }
}

#[derive(Debug, Default, Clone, PartialEq)]
pub enum Operation3Code {
    /// Serialized as `ANDD`.
    Andd,
    /// Serialized as `ORRR`.
    Orrr,
    #[default]
    Unknown,
}

impl Validate for Operation3Code {
    open spec fn violations(&self, path: Seq<SegmentModel>) -> Seq<ReportModel> {
        Seq::empty()
    }

    fn validate_into(
        &self,
        path: &Vec<PathSegment>,
        patterns: &IdentifierPatterns,
        out: &mut Vec<ValidationViolation>,
    ) {
        proof {
            lemma_nothing_added(reports_model(out@));
        }
    }
}

/// Text of 1 to 350 characters.
#[derive(Debug, Default, Clone, PartialEq)]
pub struct Max350Text {
    /// The text of the element.
    pub value: String,
}

impl Validate for Max350Text {
    open spec fn violations(&self, path: Seq<SegmentModel>) -> Seq<ReportModel> {
        Seq::empty()
            + length_reports(self.value@, Some(1), Some(350), path)
    }

    fn validate_into(
        &self,
        path: &Vec<PathSegment>,
        patterns: &IdentifierPatterns,
        out: &mut Vec<ValidationViolation>,
    ) {
        let ghost before = reports_model(out@);
        let ghost here = path_model(path@);
        let ghost mut expected = Seq::<ReportModel>::empty();
        proof {
            lemma_nothing_added(before);
        }
        report_length(self.value.as_str(), Some(1), Some(350), path, out);
        proof {
            let added = length_reports(self.value@, Some(1), Some(350), here);
            lemma_more_added(before, expected, added);
            expected = expected + added;
        }
    }
}

/// Text of 1 to 50 characters.
#[derive(Debug, Default, Clone, PartialEq)]
pub struct Max50Text {
    /// The text of the element.
    pub value: String,
}

impl Validate for Max50Text {
    open spec fn violations(&self, path: Seq<SegmentModel>) -> Seq<ReportModel> {
        Seq::empty()
            + length_reports(self.value@, Some(1), Some(50), path)
    }

    fn validate_into(
        &self,
        path: &Vec<PathSegment>,
        patterns: &IdentifierPatterns,
        out: &mut Vec<ValidationViolation>,
    ) {
        let ghost before = reports_model(out@);
        let ghost here = path_model(path@);
        let ghost mut expected = Seq::<ReportModel>::empty();
        proof {
            lemma_nothing_added(before);
        }
        report_length(self.value.as_str(), Some(1), Some(50), path, out);
        proof {
            let added = length_reports(self.value@, Some(1), Some(50), here);
            lemma_more_added(before, expected, added);
            expected = expected + added;
        }
    }
}

#[derive(Debug, Default, Clone, PartialEq)]
pub struct CorporateSectorCriteria5 {
    /// Serialized as `FISctr`.
    pub fi_sctr: Vec<FinancialPartySectorType2Code>,
    /// Serialized as `NFISctr`.
    pub nfi_sctr: Vec<NaceDomainIdentifier>,
    /// Serialized as `NotRptd`.
    pub not_rptd: Option<NotReported1Code>,
}

impl Validate for CorporateSectorCriteria5 {
    open spec fn violations(&self, path: Seq<SegmentModel>) -> Seq<ReportModel> {
        Seq::empty()
            + list_reports(self.fi_sctr@, Some(0), None, "FISctr"@, path)
            + list_reports(self.nfi_sctr@, Some(0), None, "NFISctr"@, path)
            + optional_reports(self.not_rptd, "NotRptd"@, path)
    }

    fn validate_into(
        &self,
        path: &Vec<PathSegment>,
        patterns: &IdentifierPatterns,
        out: &mut Vec<ValidationViolation>,
    ) {
        let ghost before = reports_model(out@);
        let ghost here = path_model(path@);
        let ghost mut expected = Seq::<ReportModel>::empty();
        proof {
            lemma_nothing_added(before);
        }
        validate_list(&self.fi_sctr, Some(0), None, "FISctr", path, patterns, out);
        proof {
            let added = list_reports(self.fi_sctr@, Some(0), None, "FISctr"@, here);
            lemma_more_added(before, expected, added);
            expected = expected + added;
        }
        validate_list(&self.nfi_sctr, Some(0), None, "NFISctr", path, patterns, out);
        proof {
            let added = list_reports(self.nfi_sctr@, Some(0), None, "NFISctr"@, here);
            lemma_more_added(before, expected, added);
            expected = expected + added;
        }
        validate_optional(&self.not_rptd, "NotRptd", path, patterns, out);
        proof {
            let added = optional_reports(self.not_rptd, "NotRptd"@, here);
            lemma_more_added(before, expected, added);
            expected = expected + added;
        }
    }
}

#[derive(Debug, Default, Clone, PartialEq)]
pub struct DateTimePeriod1 {
    /// Serialized as `FrDtTm`.
    pub fr_dt_tm: IsoDateTime,
    /// Serialized as `ToDtTm`.
    pub to_dt_tm: IsoDateTime,
}

impl Validate for DateTimePeriod1 {
    open spec fn violations(&self, path: Seq<SegmentModel>) -> Seq<ReportModel> {
        Seq::empty()
            + field_reports(self.fr_dt_tm, "FrDtTm"@, path)
            + field_reports(self.to_dt_tm, "ToDtTm"@, path)
    }

    fn validate_into(
        &self,
        path: &Vec<PathSegment>,
        patterns: &IdentifierPatterns,
        out: &mut Vec<ValidationViolation>,
    ) {
        let ghost before = reports_model(out@);
        let ghost here = path_model(path@);
        let ghost mut expected = Seq::<ReportModel>::empty();
        proof {
            lemma_nothing_added(before);
        }
        validate_field(&self.fr_dt_tm, "FrDtTm", path, patterns, out);
        proof {
            let added = field_reports(self.fr_dt_tm, "FrDtTm"@, here);
            lemma_more_added(before, expected, added);
            expected = expected + added;
        }
        validate_field(&self.to_dt_tm, "ToDtTm", path, patterns, out);
        proof {
            let added = field_reports(self.to_dt_tm, "ToDtTm"@, here);
            lemma_more_added(before, expected, added);
            expected = expected + added;
        }
    }
}

/// Text of 1 to 70 characters.
#[derive(Debug, Default, Clone, PartialEq)]
pub struct Max70Text {
    /// The text of the element.
    pub value: String,
}

impl Validate for Max70Text {
    open spec fn violations(&self, path: Seq<SegmentModel>) -> Seq<ReportModel> {
        Seq::empty()
            + length_reports(self.value@, Some(1), Some(70), path)
    }

    fn validate_into(
        &self,
        path: &Vec<PathSegment>,
        patterns: &IdentifierPatterns,
        out: &mut Vec<ValidationViolation>,
    ) {
        let ghost before = reports_model(out@);
        let ghost here = path_model(path@);
        let ghost mut expected = Seq::<ReportModel>::empty();
        proof {
            lemma_nothing_added(before);
        }
        report_length(self.value.as_str(), Some(1), Some(70), path, out);
        proof {
            let added = length_reports(self.value@, Some(1), Some(70), here);
            lemma_more_added(before, expected, added);
            expected = expected + added;
        }
    }
}

#[derive(Debug, Default, Clone, PartialEq)]
pub struct TradePartyQueryCriteria5 {
    /// Serialized as `Oprtr`.
    pub oprtr: Operation3Code,
    /// Serialized as `RptgCtrPty`.
    pub rptg_ctr_pty: Option<TradePartyIdentificationQuery8>,
    /// Serialized as `RptgCtrPtyBrnch`.
    pub rptg_ctr_pty_brnch: Option<TradePartyIdentificationQuery9>,
    /// Serialized as `OthrCtrPty`.
    pub othr_ctr_pty: Option<TradePartyIdentificationQuery8>,
    /// Serialized as `OthrCtrPtyBrnch`.
    pub othr_ctr_pty_brnch: Option<TradePartyIdentificationQuery9>,
    /// Serialized as `Bnfcry`.
    pub bnfcry: Option<TradePartyIdentificationQuery8>,
    /// Serialized as `SubmitgAgt`.
    pub submitg_agt: Option<TradePartyIdentificationQuery8>,
    /// Serialized as `Brkr`.
    pub brkr: Option<TradePartyIdentificationQuery8>,
    /// Serialized as `CCP`.
    pub ccp: Option<TradePartyIdentificationQuery8>,
    /// Serialized as `AgtLndr`.
    pub agt_lndr: Option<TradePartyIdentificationQuery8>,
    /// Serialized as `TrptyAgt`.
    pub trpty_agt: Option<TradePartyIdentificationQuery8>,
}

impl Validate for TradePartyQueryCriteria5 {
    open spec fn violations(&self, path: Seq<SegmentModel>) -> Seq<ReportModel> {
        Seq::empty()
            + field_reports(self.oprtr, "Oprtr"@, path)
            + optional_reports(self.rptg_ctr_pty, "RptgCtrPty"@, path)
            + optional_reports(self.rptg_ctr_pty_brnch, "RptgCtrPtyBrnch"@, path)
            + optional_reports(self.othr_ctr_pty, "OthrCtrPty"@, path)
            + optional_reports(self.othr_ctr_pty_brnch, "OthrCtrPtyBrnch"@, path)
            + optional_reports(self.bnfcry, "Bnfcry"@, path)
            + optional_reports(self.submitg_agt, "SubmitgAgt"@, path)
            + optional_reports(self.brkr, "Brkr"@, path)
            + optional_reports(self.ccp, "CCP"@, path)
            + optional_reports(self.agt_lndr, "AgtLndr"@, path)
            + optional_reports(self.trpty_agt, "TrptyAgt"@, path)
    }

    fn validate_into(
        &self,
        path: &Vec<PathSegment>,
        patterns: &IdentifierPatterns,
        out: &mut Vec<ValidationViolation>,
    ) {
        let ghost before = reports_model(out@);
        let ghost here = path_model(path@);
        let ghost mut expected = Seq::<ReportModel>::empty();
        proof {
            lemma_nothing_added(before);
        }
        validate_field(&self.oprtr, "Oprtr", path, patterns, out);
        proof {
            let added = field_reports(self.oprtr, "Oprtr"@, here);
            lemma_more_added(before, expected, added);
            expected = expected + added;
        }
        validate_optional(&self.rptg_ctr_pty, "RptgCtrPty", path, patterns, out);
        proof {
            let added = optional_reports(self.rptg_ctr_pty, "RptgCtrPty"@, here);
            lemma_more_added(before, expected, added);
            expected = expected + added;
        }
        validate_optional(&self.rptg_ctr_pty_brnch, "RptgCtrPtyBrnch", path, patterns, out);
        proof {
            let added = optional_reports(self.rptg_ctr_pty_brnch, "RptgCtrPtyBrnch"@, here);
            lemma_more_added(before, expected, added);
            expected = expected + added;
        }
        validate_optional(&self.othr_ctr_pty, "OthrCtrPty", path, patterns, out);
        proof {
            let added = optional_reports(self.othr_ctr_pty, "OthrCtrPty"@, here);
            lemma_more_added(before, expected, added);
            expected = expected + added;
        }
        validate_optional(&self.othr_ctr_pty_brnch, "OthrCtrPtyBrnch", path, patterns, out);
        proof {
            let added = optional_reports(self.othr_ctr_pty_brnch, "OthrCtrPtyBrnch"@, here);
            lemma_more_added(before, expected, added);
            expected = expected + added;
        }
        validate_optional(&self.bnfcry, "Bnfcry", path, patterns, out);
        proof {
            let added = optional_reports(self.bnfcry, "Bnfcry"@, here);
            lemma_more_added(before, expected, added);
            expected = expected + added;
        }
        validate_optional(&self.submitg_agt, "SubmitgAgt", path, patterns, out);
        proof {
            let added = optional_reports(self.submitg_agt, "SubmitgAgt"@, here);
            lemma_more_added(before, expected, added);
            expected = expected + added;
        }
        validate_optional(&self.brkr, "Brkr", path, patterns, out);
        proof {
            let added = optional_reports(self.brkr, "Brkr"@, here);
            lemma_more_added(before, expected, added);
            expected = expected + added;
        }
        validate_optional(&self.ccp, "CCP", path, patterns, out);
        proof {
            let added = optional_reports(self.ccp, "CCP"@, here);
            lemma_more_added(before, expected, added);
            expected = expected + added;
        }
        validate_optional(&self.agt_lndr, "AgtLndr", path, patterns, out);
        proof {
            let added = optional_reports(self.agt_lndr, "AgtLndr"@, here);
            lemma_more_added(before, expected, added);
            expected = expected + added;
        }
        validate_optional(&self.trpty_agt, "TrptyAgt", path, patterns, out);
        proof {
            let added = optional_reports(self.trpty_agt, "TrptyAgt"@, here);
            lemma_more_added(before, expected, added);
            expected = expected + added;
        }
    }
}

/// Text that matches `[A-Z0-9]{4,4}`.
#[derive(Debug, Default, Clone, PartialEq)]
pub struct MicIdentifier {
    /// The text of the element.
    pub value: String,
}

impl Validate for MicIdentifier {
    open spec fn violations(&self, path: Seq<SegmentModel>) -> Seq<ReportModel> {
        Seq::empty()
            + pattern_reports(self.value@, "[A-Z0-9]{4,4}"@, path)
    }

    fn validate_into(
        &self,
        path: &Vec<PathSegment>,
        patterns: &IdentifierPatterns,
        out: &mut Vec<ValidationViolation>,
    ) {
        let ghost before = reports_model(out@);
        let ghost here = path_model(path@);
        let ghost mut expected = Seq::<ReportModel>::empty();
        proof {
            lemma_nothing_added(before);
        }
        report_pattern(self.value.as_str(), patterns.mic_identifier(), path, out);
        proof {
            let added = pattern_reports(self.value@, "[A-Z0-9]{4,4}"@, here);
            lemma_more_added(before, expected, added);
            expected = expected + added;
        }
    }
}

/// Text that matches `[A-Z0-9]{4,4}[A-Z]{2,2}[A-Z0-9]{2,2}([A-Z0-9]{3,3}){0,1}`.
#[derive(Debug, Default, Clone, PartialEq)]
pub struct AnyBicDec2014Identifier {
    /// The text of the element.
    pub value: String,
}

impl Validate for AnyBicDec2014Identifier {
    open spec fn violations(&self, path: Seq<SegmentModel>) -> Seq<ReportModel> {
        Seq::empty()
            + pattern_reports(self.value@, "[A-Z0-9]{4,4}[A-Z]{2,2}[A-Z0-9]{2,2}([A-Z0-9]{3,3}){0,1}"@, path)
    }

    fn validate_into(
        &self,
        path: &Vec<PathSegment>,
        patterns: &IdentifierPatterns,
        out: &mut Vec<ValidationViolation>,
    ) {
        let ghost before = reports_model(out@);
        let ghost here = path_model(path@);
        let ghost mut expected = Seq::<ReportModel>::empty();
        proof {
            lemma_nothing_added(before);
        }
        report_pattern(self.value.as_str(), patterns.any_bic_dec_2014_identifier(), path, out);
        proof {
            let added = pattern_reports(self.value@, "[A-Z0-9]{4,4}[A-Z]{2,2}[A-Z0-9]{2,2}([A-Z0-9]{3,3}){0,1}"@, here);
            lemma_more_added(before, expected, added);
            expected = expected + added;
        }
    }
}

#[derive(Debug, Default, Clone, PartialEq)]
pub struct DatePeriod1 {
    /// Serialized as `FrDt`.
    pub fr_dt: Option<IsoDate>,
    /// Serialized as `ToDt`.
    pub to_dt: IsoDate,
}

impl Validate for DatePeriod1 {
    open spec fn violations(&self, path: Seq<SegmentModel>) -> Seq<ReportModel> {
        Seq::empty()
            + optional_reports(self.fr_dt, "FrDt"@, path)
            + field_reports(self.to_dt, "ToDt"@, path)
    }

    fn validate_into(
        &self,
        path: &Vec<PathSegment>,
        patterns: &IdentifierPatterns,
        out: &mut Vec<ValidationViolation>,
    ) {
        let ghost before = reports_model(out@);
        let ghost here = path_model(path@);
        let ghost mut expected = Seq::<ReportModel>::empty();
        proof {
            lemma_nothing_added(before);
        }
        validate_optional(&self.fr_dt, "FrDt", path, patterns, out);
        proof {
            let added = optional_reports(self.fr_dt, "FrDt"@, here);
            lemma_more_added(before, expected, added);
            expected = expected + added;
        }
        validate_field(&self.to_dt, "ToDt", path, patterns, out);
        proof {
            let added = field_reports(self.to_dt, "ToDt"@, here);
            lemma_more_added(before, expected, added);
            expected = expected + added;
        }
    }
}

#[derive(Debug, Default, Clone, PartialEq)]
pub struct SecuritiesFinancingReportingTransactionQueryV02<A> {
    /// Serialized as `RqstngAuthrty`.
    pub rqstng_authrty: PartyIdentification121Choice,
    /// Serialized as `TradQryData`.
    pub trad_qry_data: TradeReportQuery13Choice,
    /// Serialized as `SplmtryData`.
    pub splmtry_data: Vec<SupplementaryData1<A>>,
}

impl<A: Validate> Validate for SecuritiesFinancingReportingTransactionQueryV02<A> {
    open spec fn violations(&self, path: Seq<SegmentModel>) -> Seq<ReportModel> {
        Seq::empty()
            + field_reports(self.rqstng_authrty, "RqstngAuthrty"@, path)
            + field_reports(self.trad_qry_data, "TradQryData"@, path)
            + list_reports(self.splmtry_data@, Some(0), None, "SplmtryData"@, path)
    }

    fn validate_into(
        &self,
        path: &Vec<PathSegment>,
        patterns: &IdentifierPatterns,
        out: &mut Vec<ValidationViolation>,
    ) {
        let ghost before = reports_model(out@);
        let ghost here = path_model(path@);
        let ghost mut expected = Seq::<ReportModel>::empty();
        proof {
            lemma_nothing_added(before);
        }
        validate_field(&self.rqstng_authrty, "RqstngAuthrty", path, patterns, out);
        proof {
            let added = field_reports(self.rqstng_authrty, "RqstngAuthrty"@, here);
            lemma_more_added(before, expected, added);
            expected = expected + added;
        }
        validate_field(&self.trad_qry_data, "TradQryData", path, patterns, out);
        proof {
            let added = field_reports(self.trad_qry_data, "TradQryData"@, here);
            lemma_more_added(before, expected, added);
            expected = expected + added;
        }
        validate_list(&self.splmtry_data, Some(0), None, "SplmtryData", path, patterns, out);
        proof {
            let added = list_reports(self.splmtry_data@, Some(0), None, "SplmtryData"@, here);
            lemma_more_added(before, expected, added);
            expected = expected + added;
        }
    }
}

#[derive(Debug, Default, Clone, PartialEq)]
pub struct TrueFalseIndicator {
    /// The text of the element.
    pub value: bool,
}

impl Validate for TrueFalseIndicator {
    open spec fn violations(&self, path: Seq<SegmentModel>) -> Seq<ReportModel> {
        Seq::empty()
    }

    fn validate_into(
        &self,
        path: &Vec<PathSegment>,
        patterns: &IdentifierPatterns,
        out: &mut Vec<ValidationViolation>,
    ) {
        proof {
            lemma_nothing_added(reports_model(out@));
        }
    }
}

#[derive(Debug, Default, Clone, PartialEq)]
pub enum WeekDay3Code {
    /// Serialized as `ALLD`.
    Alld,
    /// Serialized as `XBHL`.
    Xbhl,
    /// Serialized as `IBHL`.
    Ibhl,
    /// Serialized as `FRID`.
    Frid,
    /// Serialized as `MOND`.
    Mond,
    /// Serialized as `SATD`.
    Satd,
    /// Serialized as `SUND`.
    Sund,
    /// Serialized as `THUD`.
    Thud,
    /// Serialized as `TUED`.
    Tued,
    /// Serialized as `WEDD`.
    Wedd,
    /// Serialized as `WDAY`.
    Wday,
    /// Serialized as `WEND`.
    Wend,
    #[default]
    Unknown,
}

impl Validate for WeekDay3Code {
    open spec fn violations(&self, path: Seq<SegmentModel>) -> Seq<ReportModel> {
        Seq::empty()
    }

    fn validate_into(
        &self,
        path: &Vec<PathSegment>,
        patterns: &IdentifierPatterns,
        out: &mut Vec<ValidationViolation>,
    ) {
        proof {
            lemma_nothing_added(reports_model(out@));
        }
    }
}

#[derive(Debug, Default, Clone, PartialEq)]
pub struct TradePartyIdentificationQuery9 {
    /// Serialized as `LEI`.
    pub lei: Vec<LeiIdentifier>,
    /// Serialized as `CtryCd`.
    pub ctry_cd: Vec<CountryCode>,
    /// Serialized as `AnyBIC`.
    pub any_bic: Vec<AnyBicDec2014Identifier>,
    /// Serialized as `ClntId`.
    pub clnt_id: Vec<Max50Text>,
    /// Serialized as `NotRptd`.
    pub not_rptd: Option<NotReported1Code>,
}

impl Validate for TradePartyIdentificationQuery9 {
    open spec fn violations(&self, path: Seq<SegmentModel>) -> Seq<ReportModel> {
        Seq::empty()
            + list_reports(self.lei@, Some(0), None, "LEI"@, path)
            + list_reports(self.ctry_cd@, Some(0), None, "CtryCd"@, path)
            + list_reports(self.any_bic@, Some(0), None, "AnyBIC"@, path)
            + list_reports(self.clnt_id@, Some(0), None, "ClntId"@, path)
            + optional_reports(self.not_rptd, "NotRptd"@, path)
    }

    fn validate_into(
        &self,
        path: &Vec<PathSegment>,
        patterns: &IdentifierPatterns,
        out: &mut Vec<ValidationViolation>,
    ) {
        let ghost before = reports_model(out@);
        let ghost here = path_model(path@);
        let ghost mut expected = Seq::<ReportModel>::empty();
        proof {
            lemma_nothing_added(before);
        }
        validate_list(&self.lei, Some(0), None, "LEI", path, patterns, out);
        proof {
            let added = list_reports(self.lei@, Some(0), None, "LEI"@, here);
            lemma_more_added(before, expected, added);
            expected = expected + added;
        }
        validate_list(&self.ctry_cd, Some(0), None, "CtryCd", path, patterns, out);
        proof {
            let added = list_reports(self.ctry_cd@, Some(0), None, "CtryCd"@, here);
            lemma_more_added(before, expected, added);
            expected = expected + added;
        }
        validate_list(&self.any_bic, Some(0), None, "AnyBIC", path, patterns, out);
        proof {
            let added = list_reports(self.any_bic@, Some(0), None, "AnyBIC"@, here);
            lemma_more_added(before, expected, added);
            expected = expected + added;
        }
        validate_list(&self.clnt_id, Some(0), None, "ClntId", path, patterns, out);
        proof {
            let added = list_reports(self.clnt_id@, Some(0), None, "ClntId"@, here);
            lemma_more_added(before, expected, added);
            expected = expected + added;
        }
        validate_optional(&self.not_rptd, "NotRptd", path, patterns, out);
        proof {
            let added = optional_reports(self.not_rptd, "NotRptd"@, here);
            lemma_more_added(before, expected, added);
            expected = expected + added;
        }
    }
}

/// Text of 1 to 1000 characters.
#[derive(Debug, Default, Clone, PartialEq)]
pub struct Max1000Text {
    /// The text of the element.
    pub value: String,
}

impl Validate for Max1000Text {
    open spec fn violations(&self, path: Seq<SegmentModel>) -> Seq<ReportModel> {
        Seq::empty()
            + length_reports(self.value@, Some(1), Some(1000), path)
    }

    fn validate_into(
        &self,
        path: &Vec<PathSegment>,
        patterns: &IdentifierPatterns,
        out: &mut Vec<ValidationViolation>,
    ) {
        let ghost before = reports_model(out@);
        let ghost here = path_model(path@);
        let ghost mut expected = Seq::<ReportModel>::empty();
        proof {
            lemma_nothing_added(before);
        }
        report_length(self.value.as_str(), Some(1), Some(1000), path, out);
        proof {
            let added = length_reports(self.value@, Some(1), Some(1000), here);
            lemma_more_added(before, expected, added);
            expected = expected + added;
        }
    }
}

#[derive(Debug, Default, Clone, PartialEq)]
pub enum CollateralType6Code {
    /// Serialized as `GBBK`.
    Gbbk,
    /// Serialized as `BOND`.
    Bond,
    /// Serialized as `CASH`.
    Cash,
    /// Serialized as `COMM`.
    Comm,
    /// Serialized as `INSU`.
    Insu,
    /// Serialized as `LCRE`.
    Lcre,
    /// Serialized as `OTHR`.
    Othr,
    /// Serialized as `PHYS`.
    Phys,
    /// Serialized as `SECU`.
    Secu,
    /// Serialized as `STCF`.
    Stcf,
    #[default]
    Unknown,
}

impl Validate for CollateralType6Code {
    open spec fn violations(&self, path: Seq<SegmentModel>) -> Seq<ReportModel> {
        Seq::empty()
    }

    fn validate_into(
        &self,
        path: &Vec<PathSegment>,
        patterns: &IdentifierPatterns,
        out: &mut Vec<ValidationViolation>,
    ) {
        proof {
            lemma_nothing_added(reports_model(out@));
        }
    }
}

#[derive(Debug, Default, Clone, PartialEq)]
pub struct GenericIdentification1 {
    /// Serialized as `Id`.
    pub id: Max35Text,
    /// Serialized as `SchmeNm`.
    pub schme_nm: Option<Max35Text>,
    /// Serialized as `Issr`.
    pub issr: Option<Max35Text>,
}

impl Validate for GenericIdentification1 {
    open spec fn violations(&self, path: Seq<SegmentModel>) -> Seq<ReportModel> {
        Seq::empty()
            + field_reports(self.id, "Id"@, path)
            + optional_reports(self.schme_nm, "SchmeNm"@, path)
            + optional_reports(self.issr, "Issr"@, path)
    }

    fn validate_into(
        &self,
        path: &Vec<PathSegment>,
        patterns: &IdentifierPatterns,
        out: &mut Vec<ValidationViolation>,
    ) {
        let ghost before = reports_model(out@);
        let ghost here = path_model(path@);
        let ghost mut expected = Seq::<ReportModel>::empty();
        proof {
            lemma_nothing_added(before);
        }
        validate_field(&self.id, "Id", path, patterns, out);
        proof {
            let added = field_reports(self.id, "Id"@, here);
            lemma_more_added(before, expected, added);
            expected = expected + added;
        }
        validate_optional(&self.schme_nm, "SchmeNm", path, patterns, out);
        proof {
            let added = optional_reports(self.schme_nm, "SchmeNm"@, here);
            lemma_more_added(before, expected, added);
            expected = expected + added;
        }
        validate_optional(&self.issr, "Issr", path, patterns, out);
        proof {
            let added = optional_reports(self.issr, "Issr"@, here);
            lemma_more_added(before, expected, added);
            expected = expected + added;
        }
    }
}

#[derive(Debug, Default, Clone, PartialEq)]
pub struct TradeQueryExecutionFrequency3 {
    /// Serialized as `FrqcyTp`.
    pub frqcy_tp: Frequency14Code,
    /// Serialized as `DlvryDay`.
    pub dlvry_day: Vec<WeekDay3Code>,
    /// Serialized as `DayOfMnth`.
    pub day_of_mnth: Vec<DayOfMonthNumber>,
}

impl Validate for TradeQueryExecutionFrequency3 {
    open spec fn violations(&self, path: Seq<SegmentModel>) -> Seq<ReportModel> {
        Seq::empty()
            + field_reports(self.frqcy_tp, "FrqcyTp"@, path)
            + list_reports(self.dlvry_day@, Some(0), None, "DlvryDay"@, path)
            + list_reports(self.day_of_mnth@, Some(0), None, "DayOfMnth"@, path)
    }

    fn validate_into(
        &self,
        path: &Vec<PathSegment>,
        patterns: &IdentifierPatterns,
        out: &mut Vec<ValidationViolation>,
    ) {
        let ghost before = reports_model(out@);
        let ghost here = path_model(path@);
        let ghost mut expected = Seq::<ReportModel>::empty();
        proof {
            lemma_nothing_added(before);
        }
        validate_field(&self.frqcy_tp, "FrqcyTp", path, patterns, out);
        proof {
            let added = field_reports(self.frqcy_tp, "FrqcyTp"@, here);
            lemma_more_added(before, expected, added);
            expected = expected + added;
        }
        validate_list(&self.dlvry_day, Some(0), None, "DlvryDay", path, patterns, out);
        proof {
            let added = list_reports(self.dlvry_day@, Some(0), None, "DlvryDay"@, here);
            lemma_more_added(before, expected, added);
            expected = expected + added;
        }
        validate_list(&self.day_of_mnth, Some(0), None, "DayOfMnth", path, patterns, out);
        proof {
            let added = list_reports(self.day_of_mnth@, Some(0), None, "DayOfMnth"@, here);
            lemma_more_added(before, expected, added);
            expected = expected + added;
        }
    }
}

#[derive(Debug, Default, Clone, PartialEq)]
pub enum Frequency14Code {
    /// Serialized as `DAIL`.
    Dail,
    /// Serialized as `WEEK`.
    Week,
    /// Serialized as `MNTH`.
    Mnth,
    /// Serialized as `ADHO`.
    Adho,
    #[default]
    Unknown,
}

impl Validate for Frequency14Code {
    open spec fn violations(&self, path: Seq<SegmentModel>) -> Seq<ReportModel> {
        Seq::empty()
    }

    fn validate_into(
        &self,
        path: &Vec<PathSegment>,
        patterns: &IdentifierPatterns,
        out: &mut Vec<ValidationViolation>,
    ) {
        proof {
            lemma_nothing_added(reports_model(out@));
        }
    }
}

#[derive(Debug, Default, Clone, PartialEq)]
pub struct NameAndAddress5 {
    /// Serialized as `Nm`.
    pub nm: Max350Text,
    /// Serialized as `Adr`.
    pub adr: Option<PostalAddress1>,
}

impl Validate for NameAndAddress5 {
    open spec fn violations(&self, path: Seq<SegmentModel>) -> Seq<ReportModel> {
        Seq::empty()
            + field_reports(self.nm, "Nm"@, path)
            + optional_reports(self.adr, "Adr"@, path)
    }

    fn validate_into(
        &self,
        path: &Vec<PathSegment>,
        patterns: &IdentifierPatterns,
        out: &mut Vec<ValidationViolation>,
    ) {
        let ghost before = reports_model(out@);
        let ghost here = path_model(path@);
        let ghost mut expected = Seq::<ReportModel>::empty();
        proof {
            lemma_nothing_added(before);
        }
        validate_field(&self.nm, "Nm", path, patterns, out);
        proof {
            let added = field_reports(self.nm, "Nm"@, here);
            lemma_more_added(before, expected, added);
            expected = expected + added;
        }
        validate_optional(&self.adr, "Adr", path, patterns, out);
        proof {
            let added = optional_reports(self.adr, "Adr"@, here);
            lemma_more_added(before, expected, added);
            expected = expected + added;
        }
    }
}

#[derive(Debug, Default, Clone, PartialEq)]
pub struct TradeAdditionalQueryCriteria7 {
    /// Serialized as `ActnTp`.
    pub actn_tp: Vec<TransactionOperationType6Code>,
    /// Serialized as `ExctnVn`.
    pub exctn_vn: Option<SecuritiesTradeVenueCriteria1Choice>,
    /// Serialized as `NtrOfCtrPty`.
    pub ntr_of_ctr_pty: Vec<PartyNatureType1Code>,
    /// Serialized as `CorpSctr`.
    pub corp_sctr: Vec<CorporateSectorCriteria5>,
}

impl Validate for TradeAdditionalQueryCriteria7 {
    open spec fn violations(&self, path: Seq<SegmentModel>) -> Seq<ReportModel> {
        Seq::empty()
            + list_reports(self.actn_tp@, Some(0), None, "ActnTp"@, path)
            + optional_reports(self.exctn_vn, "ExctnVn"@, path)
            + list_reports(self.ntr_of_ctr_pty@, Some(0), None, "NtrOfCtrPty"@, path)
            + list_reports(self.corp_sctr@, Some(0), None, "CorpSctr"@, path)
    }

    fn validate_into(
        &self,
        path: &Vec<PathSegment>,
        patterns: &IdentifierPatterns,
        out: &mut Vec<ValidationViolation>,
    ) {
        let ghost before = reports_model(out@);
        let ghost here = path_model(path@);
        let ghost mut expected = Seq::<ReportModel>::empty();
        proof {
            lemma_nothing_added(before);
        }
        validate_list(&self.actn_tp, Some(0), None, "ActnTp", path, patterns, out);
        proof {
            let added = list_reports(self.actn_tp@, Some(0), None, "ActnTp"@, here);
            lemma_more_added(before, expected, added);
            expected = expected + added;
        }
        validate_optional(&self.exctn_vn, "ExctnVn", path, patterns, out);
        proof {
            let added = optional_reports(self.exctn_vn, "ExctnVn"@, here);
            lemma_more_added(before, expected, added);
            expected = expected + added;
        }
        validate_list(&self.ntr_of_ctr_pty, Some(0), None, "NtrOfCtrPty", path, patterns, out);
        proof {
            let added = list_reports(self.ntr_of_ctr_pty@, Some(0), None, "NtrOfCtrPty"@, here);
            lemma_more_added(before, expected, added);
            expected = expected + added;
        }
        validate_list(&self.corp_sctr, Some(0), None, "CorpSctr", path, patterns, out);
        proof {
            let added = list_reports(self.corp_sctr@, Some(0), None, "CorpSctr"@, here);
            lemma_more_added(before, expected, added);
            expected = expected + added;
        }
    }
}

#[derive(Debug, Default, Clone, PartialEq)]
pub struct TradeQueryCriteria10 {
    /// Serialized as `TradLifeCyclHstry`.
    pub trad_life_cycl_hstry: TrueFalseIndicator,
    /// Serialized as `OutsdngTradInd`.
    pub outsdng_trad_ind: TrueFalseIndicator,
    /// Serialized as `TradPtyCrit`.
    pub trad_pty_crit: Option<TradePartyQueryCriteria5>,
    /// Serialized as `TradTpCrit`.
    pub trad_tp_crit: Option<TradeTypeQueryCriteria2>,
    /// Serialized as `TmCrit`.
    pub tm_crit: Option<TradeDateTimeQueryCriteria2>,
    /// Serialized as `OthrCrit`.
    pub othr_crit: Option<TradeAdditionalQueryCriteria7>,
}

impl Validate for TradeQueryCriteria10 {
    open spec fn violations(&self, path: Seq<SegmentModel>) -> Seq<ReportModel> {
        Seq::empty()
            + field_reports(self.trad_life_cycl_hstry, "TradLifeCyclHstry"@, path)
            + field_reports(self.outsdng_trad_ind, "OutsdngTradInd"@, path)
            + optional_reports(self.trad_pty_crit, "TradPtyCrit"@, path)
            + optional_reports(self.trad_tp_crit, "TradTpCrit"@, path)
            + optional_reports(self.tm_crit, "TmCrit"@, path)
            + optional_reports(self.othr_crit, "OthrCrit"@, path)
    }

    fn validate_into(
        &self,
        path: &Vec<PathSegment>,
        patterns: &IdentifierPatterns,
        out: &mut Vec<ValidationViolation>,
    ) {
        let ghost before = reports_model(out@);
        let ghost here = path_model(path@);
        let ghost mut expected = Seq::<ReportModel>::empty();
        proof {
            lemma_nothing_added(before);
        }
        validate_field(&self.trad_life_cycl_hstry, "TradLifeCyclHstry", path, patterns, out);
        proof {
            let added = field_reports(self.trad_life_cycl_hstry, "TradLifeCyclHstry"@, here);
            lemma_more_added(before, expected, added);
            expected = expected + added;
        }
        validate_field(&self.outsdng_trad_ind, "OutsdngTradInd", path, patterns, out);
        proof {
            let added = field_reports(self.outsdng_trad_ind, "OutsdngTradInd"@, here);
            lemma_more_added(before, expected, added);
            expected = expected + added;
        }
        validate_optional(&self.trad_pty_crit, "TradPtyCrit", path, patterns, out);
        proof {
            let added = optional_reports(self.trad_pty_crit, "TradPtyCrit"@, here);
            lemma_more_added(before, expected, added);
            expected = expected + added;
        }
        validate_optional(&self.trad_tp_crit, "TradTpCrit", path, patterns, out);
        proof {
            let added = optional_reports(self.trad_tp_crit, "TradTpCrit"@, here);
            lemma_more_added(before, expected, added);
            expected = expected + added;
        }
        validate_optional(&self.tm_crit, "TmCrit", path, patterns, out);
        proof {
            let added = optional_reports(self.tm_crit, "TmCrit"@, here);
            lemma_more_added(before, expected, added);
            expected = expected + added;
        }
        validate_optional(&self.othr_crit, "OthrCrit", path, patterns, out);
        proof {
            let added = optional_reports(self.othr_crit, "OthrCrit"@, here);
            lemma_more_added(before, expected, added);
            expected = expected + added;
        }
    }
}

#[derive(Debug, Default, Clone, PartialEq)]
pub enum AddressType2Code {
    /// Serialized as `ADDR`.
    Addr,
    /// Serialized as `PBOX`.
    Pbox,
    /// Serialized as `HOME`.
    Home,
    /// Serialized as `BIZZ`.
    Bizz,
    /// Serialized as `MLTO`.
    Mlto,
    /// Serialized as `DLVY`.
    Dlvy,
    #[default]
    Unknown,
}

impl Validate for AddressType2Code {
    open spec fn violations(&self, path: Seq<SegmentModel>) -> Seq<ReportModel> {
        Seq::empty()
    }

    fn validate_into(
        &self,
        path: &Vec<PathSegment>,
        patterns: &IdentifierPatterns,
        out: &mut Vec<ValidationViolation>,
    ) {
        proof {
            lemma_nothing_added(reports_model(out@));
        }
    }
}

/// Text that matches `[A-Z0-9]{18,18}[0-9]{2,2}`.
#[derive(Debug, Default, Clone, PartialEq)]
pub struct LeiIdentifier {
    /// The text of the element.
    pub value: String,
}

impl Validate for LeiIdentifier {
    open spec fn violations(&self, path: Seq<SegmentModel>) -> Seq<ReportModel> {
        Seq::empty()
            + pattern_reports(self.value@, "[A-Z0-9]{18,18}[0-9]{2,2}"@, path)
    }

    fn validate_into(
        &self,
        path: &Vec<PathSegment>,
        patterns: &IdentifierPatterns,
        out: &mut Vec<ValidationViolation>,
    ) {
        let ghost before = reports_model(out@);
        let ghost here = path_model(path@);
        let ghost mut expected = Seq::<ReportModel>::empty();
        proof {
            lemma_nothing_added(before);
        }
        report_pattern(self.value.as_str(), patterns.lei_identifier(), path, out);
        proof {
            let added = pattern_reports(self.value@, "[A-Z0-9]{18,18}[0-9]{2,2}"@, here);
            lemma_more_added(before, expected, added);
            expected = expected + added;
        }
    }
}

/// The alternatives of a choice: exactly one of them is populated.
#[derive(Debug, Default, Clone, PartialEq)]
pub struct PartyIdentification121ChoiceEnum {
    /// Serialized as `LglNttyIdr`.
    pub lgl_ntty_idr: Option<LeiIdentifier>,
    /// Serialized as `NmAndAdr`.
    pub nm_and_adr: Option<NameAndAddress5>,
    /// Serialized as `PrtryId`.
    pub prtry_id: Option<GenericIdentification1>,
    /// Serialized as `AnyBIC`.
    pub any_bic: Option<AnyBicDec2014Identifier>,
}

impl Validate for PartyIdentification121ChoiceEnum {
    open spec fn violations(&self, path: Seq<SegmentModel>) -> Seq<ReportModel> {
        Seq::empty()
            + choice_reports(
                Seq::empty()
                    + name_if(self.lgl_ntty_idr.is_some(), "LglNttyIdr"@)
                    + name_if(self.nm_and_adr.is_some(), "NmAndAdr"@)
                    + name_if(self.prtry_id.is_some(), "PrtryId"@)
                    + name_if(self.any_bic.is_some(), "AnyBIC"@),
                path,
            )
            + optional_reports(self.lgl_ntty_idr, "LglNttyIdr"@, path)
            + optional_reports(self.nm_and_adr, "NmAndAdr"@, path)
            + optional_reports(self.prtry_id, "PrtryId"@, path)
            + optional_reports(self.any_bic, "AnyBIC"@, path)
    }

    fn validate_into(
        &self,
        path: &Vec<PathSegment>,
        patterns: &IdentifierPatterns,
        out: &mut Vec<ValidationViolation>,
    ) {
        let ghost before = reports_model(out@);
        let ghost here = path_model(path@);
        let ghost mut expected = Seq::<ReportModel>::empty();
        proof {
            lemma_nothing_added(before);
        }
        let mut present: Vec<String> = Vec::new();
        let ghost mut names = Seq::<Seq<char>>::empty();
        proof {
            assert(names_model(present@) =~= names);
        }
        note_present(self.lgl_ntty_idr.is_some(), "LglNttyIdr", &mut present);
        proof {
            names = names + name_if(self.lgl_ntty_idr.is_some(), "LglNttyIdr"@);
        }
        note_present(self.nm_and_adr.is_some(), "NmAndAdr", &mut present);
        proof {
            names = names + name_if(self.nm_and_adr.is_some(), "NmAndAdr"@);
        }
        note_present(self.prtry_id.is_some(), "PrtryId", &mut present);
        proof {
            names = names + name_if(self.prtry_id.is_some(), "PrtryId"@);
        }
        note_present(self.any_bic.is_some(), "AnyBIC", &mut present);
        proof {
            names = names + name_if(self.any_bic.is_some(), "AnyBIC"@);
        }
        report_choice(present, path, out);
        proof {
            let added = choice_reports(names, here);
            lemma_more_added(before, expected, added);
            expected = expected + added;
        }
        validate_optional(&self.lgl_ntty_idr, "LglNttyIdr", path, patterns, out);
        proof {
            let added = optional_reports(self.lgl_ntty_idr, "LglNttyIdr"@, here);
            lemma_more_added(before, expected, added);
            expected = expected + added;
        }
        validate_optional(&self.nm_and_adr, "NmAndAdr", path, patterns, out);
        proof {
            let added = optional_reports(self.nm_and_adr, "NmAndAdr"@, here);
            lemma_more_added(before, expected, added);
            expected = expected + added;
        }
        validate_optional(&self.prtry_id, "PrtryId", path, patterns, out);
        proof {
            let added = optional_reports(self.prtry_id, "PrtryId"@, here);
            lemma_more_added(before, expected, added);
            expected = expected + added;
        }
        validate_optional(&self.any_bic, "AnyBIC", path, patterns, out);
        proof {
            let added = optional_reports(self.any_bic, "AnyBIC"@, here);
            lemma_more_added(before, expected, added);
            expected = expected + added;
        }
    }
}

/// A choice, serialized as its populated alternative.
#[derive(Debug, Default, Clone, PartialEq)]
pub struct PartyIdentification121Choice {
    /// Serialized in place, without an element of its own.
    pub value: PartyIdentification121ChoiceEnum,
}

impl Validate for PartyIdentification121Choice {
    open spec fn violations(&self, path: Seq<SegmentModel>) -> Seq<ReportModel> {
        Seq::empty()
            + self.value.violations(path)
    }

    fn validate_into(
        &self,
        path: &Vec<PathSegment>,
        patterns: &IdentifierPatterns,
        out: &mut Vec<ValidationViolation>,
    ) {
        let ghost before = reports_model(out@);
        let ghost here = path_model(path@);
        let ghost mut expected = Seq::<ReportModel>::empty();
        proof {
            lemma_nothing_added(before);
        }
        self.value.validate_into(path, patterns, out);
        proof {
            let added = self.value.violations(here);
            lemma_more_added(before, expected, added);
            expected = expected + added;
        }
    }
}

#[derive(Debug, Default, Clone, PartialEq)]
pub struct TradeDateTimeQueryCriteria2 {
    /// Serialized as `RptgDtTm`.
    pub rptg_dt_tm: Option<DateTimePeriod1>,
    /// Serialized as `ExctnDtTm`.
    pub exctn_dt_tm: Option<DateTimePeriod1>,
    /// Serialized as `MtrtyDt`.
    pub mtrty_dt: Option<DateOrBlankQuery2Choice>,
    /// Serialized as `TermntnDt`.
    pub termntn_dt: Option<DateOrBlankQuery2Choice>,
}

impl Validate for TradeDateTimeQueryCriteria2 {
    open spec fn violations(&self, path: Seq<SegmentModel>) -> Seq<ReportModel> {
        Seq::empty()
            + optional_reports(self.rptg_dt_tm, "RptgDtTm"@, path)
            + optional_reports(self.exctn_dt_tm, "ExctnDtTm"@, path)
            + optional_reports(self.mtrty_dt, "MtrtyDt"@, path)
            + optional_reports(self.termntn_dt, "TermntnDt"@, path)
    }

    fn validate_into(
        &self,
        path: &Vec<PathSegment>,
        patterns: &IdentifierPatterns,
        out: &mut Vec<ValidationViolation>,
    ) {
        let ghost before = reports_model(out@);
        let ghost here = path_model(path@);
        let ghost mut expected = Seq::<ReportModel>::empty();
        proof {
            lemma_nothing_added(before);
        }
        validate_optional(&self.rptg_dt_tm, "RptgDtTm", path, patterns, out);
        proof {
            let added = optional_reports(self.rptg_dt_tm, "RptgDtTm"@, here);
            lemma_more_added(before, expected, added);
            expected = expected + added;
        }
        validate_optional(&self.exctn_dt_tm, "ExctnDtTm", path, patterns, out);
        proof {
            let added = optional_reports(self.exctn_dt_tm, "ExctnDtTm"@, here);
            lemma_more_added(before, expected, added);
            expected = expected + added;
        }
        validate_optional(&self.mtrty_dt, "MtrtyDt", path, patterns, out);
        proof {
            let added = optional_reports(self.mtrty_dt, "MtrtyDt"@, here);
            lemma_more_added(before, expected, added);
            expected = expected + added;
        }
        validate_optional(&self.termntn_dt, "TermntnDt", path, patterns, out);
        proof {
            let added = optional_reports(self.termntn_dt, "TermntnDt"@, here);
            lemma_more_added(before, expected, added);
            expected = expected + added;
        }
    }
}

/// The alternatives of a choice: exactly one of them is populated.
#[derive(Debug, Default, Clone, PartialEq)]
pub struct SecuritiesTradeVenueCriteria1ChoiceEnum {
    /// Serialized as `MIC`.
    pub mic: Option<MicIdentifier>,
    /// Serialized as `AnyMIC`.
    pub any_mic: Option<AnyMic1Code>,
}

impl Validate for SecuritiesTradeVenueCriteria1ChoiceEnum {
    open spec fn violations(&self, path: Seq<SegmentModel>) -> Seq<ReportModel> {
        Seq::empty()
            + choice_reports(
                Seq::empty()
                    + name_if(self.mic.is_some(), "MIC"@)
                    + name_if(self.any_mic.is_some(), "AnyMIC"@),
                path,
            )
            + optional_reports(self.mic, "MIC"@, path)
            + optional_reports(self.any_mic, "AnyMIC"@, path)
    }

    fn validate_into(
        &self,
        path: &Vec<PathSegment>,
        patterns: &IdentifierPatterns,
        out: &mut Vec<ValidationViolation>,
    ) {
        let ghost before = reports_model(out@);
        let ghost here = path_model(path@);
        let ghost mut expected = Seq::<ReportModel>::empty();
        proof {
            lemma_nothing_added(before);
        }
        let mut present: Vec<String> = Vec::new();
        let ghost mut names = Seq::<Seq<char>>::empty();
        proof {
            assert(names_model(present@) =~= names);
        }
        note_present(self.mic.is_some(), "MIC", &mut present);
        proof {
            names = names + name_if(self.mic.is_some(), "MIC"@);
        }
        note_present(self.any_mic.is_some(), "AnyMIC", &mut present);
        proof {
            names = names + name_if(self.any_mic.is_some(), "AnyMIC"@);
        }
        report_choice(present, path, out);
        proof {
            let added = choice_reports(names, here);
            lemma_more_added(before, expected, added);
            expected = expected + added;
        }
        validate_optional(&self.mic, "MIC", path, patterns, out);
        proof {
            let added = optional_reports(self.mic, "MIC"@, here);
            lemma_more_added(before, expected, added);
            expected = expected + added;
        }
        validate_optional(&self.any_mic, "AnyMIC", path, patterns, out);
        proof {
            let added = optional_reports(self.any_mic, "AnyMIC"@, here);
            lemma_more_added(before, expected, added);
            expected = expected + added;
        }
    }
}

/// A choice, serialized as its populated alternative.
#[derive(Debug, Default, Clone, PartialEq)]
pub struct SecuritiesTradeVenueCriteria1Choice {
    /// Serialized in place, without an element of its own.
    pub value: SecuritiesTradeVenueCriteria1ChoiceEnum,
}

impl Validate for SecuritiesTradeVenueCriteria1Choice {
    open spec fn violations(&self, path: Seq<SegmentModel>) -> Seq<ReportModel> {
        Seq::empty()
            + self.value.violations(path)
    }

    fn validate_into(
        &self,
        path: &Vec<PathSegment>,
        patterns: &IdentifierPatterns,
        out: &mut Vec<ValidationViolation>,
    ) {
        let ghost before = reports_model(out@);
        let ghost here = path_model(path@);
        let ghost mut expected = Seq::<ReportModel>::empty();
        proof {
            lemma_nothing_added(before);
        }
        self.value.validate_into(path, patterns, out);
        proof {
            let added = self.value.violations(here);
            lemma_more_added(before, expected, added);
            expected = expected + added;
        }
    }
}

#[derive(Debug, Default, Clone, PartialEq)]
pub enum TransactionOperationType6Code {
    /// Serialized as `REUU`.
    Reuu,
    /// Serialized as `COLU`.
    Colu,
    /// Serialized as `CORR`.
    Corr,
    /// Serialized as `ETRM`.
    Etrm,
    /// Serialized as `VALU`.
    Valu,
    /// Serialized as `POSC`.
    Posc,
    /// Serialized as `NEWT`.
    Newt,
    /// Serialized as `MODI`.
    Modi,
    /// Serialized as `MARU`.
    Maru,
    /// Serialized as `EROR`.
    Eror,
    #[default]
    Unknown,
}

impl Validate for TransactionOperationType6Code {
    open spec fn violations(&self, path: Seq<SegmentModel>) -> Seq<ReportModel> {
        Seq::empty()
    }

    fn validate_into(
        &self,
        path: &Vec<PathSegment>,
        patterns: &IdentifierPatterns,
        out: &mut Vec<ValidationViolation>,
    ) {
        proof {
            lemma_nothing_added(reports_model(out@));
        }
    }
}

/// An instant.
#[derive(Debug, Default, Clone, PartialEq)]
pub struct IsoDateTime {
    /// The text of the element. An instant in ISO 8601 form.
    pub value: String,
}

impl Validate for IsoDateTime {
    open spec fn violations(&self, path: Seq<SegmentModel>) -> Seq<ReportModel> {
        Seq::empty()
    }

    fn validate_into(
        &self,
        path: &Vec<PathSegment>,
        patterns: &IdentifierPatterns,
        out: &mut Vec<ValidationViolation>,
    ) {
        proof {
            lemma_nothing_added(reports_model(out@));
        }
    }
}

#[derive(Debug, Default, Clone, PartialEq)]
pub enum AnyMic1Code {
    /// Serialized as `ANYM`.
    Anym,
    #[default]
    Unknown,
}

impl Validate for AnyMic1Code {
    open spec fn violations(&self, path: Seq<SegmentModel>) -> Seq<ReportModel> {
        Seq::empty()
    }

    fn validate_into(
        &self,
        path: &Vec<PathSegment>,
        patterns: &IdentifierPatterns,
        out: &mut Vec<ValidationViolation>,
    ) {
        proof {
            lemma_nothing_added(reports_model(out@));
        }
    }
}

#[derive(Debug, Default, Clone, PartialEq)]
pub enum PartyNatureType1Code {
    /// Serialized as `OTHR`.
    Othr,
    /// Serialized as `NFIN`.
    Nfin,
    /// Serialized as `FIIN`.
    Fiin,
    /// Serialized as `CCPS`.
    Ccps,
    #[default]
    Unknown,
}

impl Validate for PartyNatureType1Code {
    open spec fn violations(&self, path: Seq<SegmentModel>) -> Seq<ReportModel> {
        Seq::empty()
    }

    fn validate_into(
        &self,
        path: &Vec<PathSegment>,
        patterns: &IdentifierPatterns,
        out: &mut Vec<ValidationViolation>,
    ) {
        proof {
            lemma_nothing_added(reports_model(out@));
        }
    }
}

#[derive(Debug, Default, Clone, PartialEq)]
pub struct PostalAddress1 {
    /// Serialized as `AdrTp`.
    pub adr_tp: Option<AddressType2Code>,
    /// Serialized as `AdrLine`.
    pub adr_line: Vec<Max70Text>,
    /// Serialized as `StrtNm`.
    pub strt_nm: Option<Max70Text>,
    /// Serialized as `BldgNb`.
    pub bldg_nb: Option<Max16Text>,
    /// Serialized as `PstCd`.
    pub pst_cd: Option<Max16Text>,
    /// Serialized as `TwnNm`.
    pub twn_nm: Option<Max35Text>,
    /// Serialized as `CtrySubDvsn`.
    pub ctry_sub_dvsn: Option<Max35Text>,
    /// Serialized as `Ctry`.
    pub ctry: CountryCode,
}

impl Validate for PostalAddress1 {
    open spec fn violations(&self, path: Seq<SegmentModel>) -> Seq<ReportModel> {
        Seq::empty()
            + optional_reports(self.adr_tp, "AdrTp"@, path)
            + list_reports(self.adr_line@, Some(0), Some(5), "AdrLine"@, path)
            + optional_reports(self.strt_nm, "StrtNm"@, path)
            + optional_reports(self.bldg_nb, "BldgNb"@, path)
            + optional_reports(self.pst_cd, "PstCd"@, path)
            + optional_reports(self.twn_nm, "TwnNm"@, path)
            + optional_reports(self.ctry_sub_dvsn, "CtrySubDvsn"@, path)
            + field_reports(self.ctry, "Ctry"@, path)
    }

    fn validate_into(
        &self,
        path: &Vec<PathSegment>,
        patterns: &IdentifierPatterns,
        out: &mut Vec<ValidationViolation>,
    ) {
        let ghost before = reports_model(out@);
        let ghost here = path_model(path@);
        let ghost mut expected = Seq::<ReportModel>::empty();
        proof {
            lemma_nothing_added(before);
        }
        validate_optional(&self.adr_tp, "AdrTp", path, patterns, out);
        proof {
            let added = optional_reports(self.adr_tp, "AdrTp"@, here);
            lemma_more_added(before, expected, added);
            expected = expected + added;
        }
        validate_list(&self.adr_line, Some(0), Some(5), "AdrLine", path, patterns, out);
        proof {
            let added = list_reports(self.adr_line@, Some(0), Some(5), "AdrLine"@, here);
            lemma_more_added(before, expected, added);
            expected = expected + added;
        }
        validate_optional(&self.strt_nm, "StrtNm", path, patterns, out);
        proof {
            let added = optional_reports(self.strt_nm, "StrtNm"@, here);
            lemma_more_added(before, expected, added);
            expected = expected + added;
        }
        validate_optional(&self.bldg_nb, "BldgNb", path, patterns, out);
        proof {
            let added = optional_reports(self.bldg_nb, "BldgNb"@, here);
            lemma_more_added(before, expected, added);
            expected = expected + added;
        }
        validate_optional(&self.pst_cd, "PstCd", path, patterns, out);
        proof {
            let added = optional_reports(self.pst_cd, "PstCd"@, here);
            lemma_more_added(before, expected, added);
            expected = expected + added;
        }
        validate_optional(&self.twn_nm, "TwnNm", path, patterns, out);
        proof {
            let added = optional_reports(self.twn_nm, "TwnNm"@, here);
            lemma_more_added(before, expected, added);
            expected = expected + added;
        }
        validate_optional(&self.ctry_sub_dvsn, "CtrySubDvsn", path, patterns, out);
        proof {
            let added = optional_reports(self.ctry_sub_dvsn, "CtrySubDvsn"@, here);
            lemma_more_added(before, expected, added);
            expected = expected + added;
        }
        validate_field(&self.ctry, "Ctry", path, patterns, out);
        proof {
            let added = field_reports(self.ctry, "Ctry"@, here);
            lemma_more_added(before, expected, added);
            expected = expected + added;
        }
    }
}

/// A number from 1 to 31.
#[derive(Debug, Default, Clone, PartialEq)]
pub struct DayOfMonthNumber {
    /// The text of the element.
    pub value: Decimal,
}

impl Validate for DayOfMonthNumber {
    open spec fn violations(&self, path: Seq<SegmentModel>) -> Seq<ReportModel> {
        Seq::empty()
            + range_reports(self.value, Some(Decimal::whole_spec(1)), Some(Decimal::whole_spec(31)), path)
    }

    fn validate_into(
        &self,
        path: &Vec<PathSegment>,
        patterns: &IdentifierPatterns,
        out: &mut Vec<ValidationViolation>,
    ) {
        let ghost before = reports_model(out@);
        let ghost here = path_model(path@);
        let ghost mut expected = Seq::<ReportModel>::empty();
        proof {
            lemma_nothing_added(before);
        }
        report_range(self.value, Some(Decimal::whole(1)), Some(Decimal::whole(31)), path, out);
        proof {
            let added = range_reports(self.value, Some(Decimal::whole_spec(1)), Some(Decimal::whole_spec(31)), here);
            lemma_more_added(before, expected, added);
            expected = expected + added;
        }
    }
}

#[derive(Debug, Default, Clone, PartialEq)]
pub enum NotReported1Code {
    /// Serialized as `NORP`.
    Norp,
    #[default]
    Unknown,
}

impl Validate for NotReported1Code {
    open spec fn violations(&self, path: Seq<SegmentModel>) -> Seq<ReportModel> {
        Seq::empty()
    }

    fn validate_into(
        &self,
        path: &Vec<PathSegment>,
        patterns: &IdentifierPatterns,
        out: &mut Vec<ValidationViolation>,
    ) {
        proof {
            lemma_nothing_added(reports_model(out@));
        }
    }
}

/// Text of 1 to 16 characters.
#[derive(Debug, Default, Clone, PartialEq)]
pub struct Max16Text {
    /// The text of the element.
    pub value: String,
}

impl Validate for Max16Text {
    open spec fn violations(&self, path: Seq<SegmentModel>) -> Seq<ReportModel> {
        Seq::empty()
            + length_reports(self.value@, Some(1), Some(16), path)
    }

    fn validate_into(
        &self,
        path: &Vec<PathSegment>,
        patterns: &IdentifierPatterns,
        out: &mut Vec<ValidationViolation>,
    ) {
        let ghost before = reports_model(out@);
        let ghost here = path_model(path@);
        let ghost mut expected = Seq::<ReportModel>::empty();
        proof {
            lemma_nothing_added(before);
        }
        report_length(self.value.as_str(), Some(1), Some(16), path, out);
        proof {
            let added = length_reports(self.value@, Some(1), Some(16), here);
            lemma_more_added(before, expected, added);
            expected = expected + added;
        }
    }
}

/// Text of 1 to 35 characters.
#[derive(Debug, Default, Clone, PartialEq)]
pub struct Max35Text {
    /// The text of the element.
    pub value: String,
}

impl Validate for Max35Text {
    open spec fn violations(&self, path: Seq<SegmentModel>) -> Seq<ReportModel> {
        Seq::empty()
            + length_reports(self.value@, Some(1), Some(35), path)
    }

    fn validate_into(
        &self,
        path: &Vec<PathSegment>,
        patterns: &IdentifierPatterns,
        out: &mut Vec<ValidationViolation>,
    ) {
        let ghost before = reports_model(out@);
        let ghost here = path_model(path@);
        let ghost mut expected = Seq::<ReportModel>::empty();
        proof {
            lemma_nothing_added(before);
        }
        report_length(self.value.as_str(), Some(1), Some(35), path, out);
        proof {
            let added = length_reports(self.value@, Some(1), Some(35), here);
            lemma_more_added(before, expected, added);
            expected = expected + added;
        }
    }
}

#[derive(Debug, Default, Clone, PartialEq)]
pub struct SupplementaryDataEnvelope1<A> {
    /// Serialized in place, without an element of its own.
    pub value: A,
}

impl<A: Validate> Validate for SupplementaryDataEnvelope1<A> {
    open spec fn violations(&self, path: Seq<SegmentModel>) -> Seq<ReportModel> {
        Seq::empty()
            + self.value.violations(path)
    }

    fn validate_into(
        &self,
        path: &Vec<PathSegment>,
        patterns: &IdentifierPatterns,
        out: &mut Vec<ValidationViolation>,
    ) {
        let ghost before = reports_model(out@);
        let ghost here = path_model(path@);
        let ghost mut expected = Seq::<ReportModel>::empty();
        proof {
            lemma_nothing_added(before);
        }
        self.value.validate_into(path, patterns, out);
        proof {
            let added = self.value.violations(here);
            lemma_more_added(before, expected, added);
            expected = expected + added;
        }
    }
}

#[derive(Debug, Default, Clone, PartialEq)]
pub struct TradePartyIdentificationQuery8 {
    /// Serialized as `LEI`.
    pub lei: Vec<LeiIdentifier>,
    /// Serialized as `AnyBIC`.
    pub any_bic: Vec<AnyBicDec2014Identifier>,
    /// Serialized as `ClntId`.
    pub clnt_id: Vec<Max50Text>,
    /// Serialized as `NotRptd`.
    pub not_rptd: Option<NotReported1Code>,
}

impl Validate for TradePartyIdentificationQuery8 {
    open spec fn violations(&self, path: Seq<SegmentModel>) -> Seq<ReportModel> {
        Seq::empty()
            + list_reports(self.lei@, Some(0), None, "LEI"@, path)
            + list_reports(self.any_bic@, Some(0), None, "AnyBIC"@, path)
            + list_reports(self.clnt_id@, Some(0), None, "ClntId"@, path)
            + optional_reports(self.not_rptd, "NotRptd"@, path)
    }

    fn validate_into(
        &self,
        path: &Vec<PathSegment>,
        patterns: &IdentifierPatterns,
        out: &mut Vec<ValidationViolation>,
    ) {
        let ghost before = reports_model(out@);
        let ghost here = path_model(path@);
        let ghost mut expected = Seq::<ReportModel>::empty();
        proof {
            lemma_nothing_added(before);
        }
        validate_list(&self.lei, Some(0), None, "LEI", path, patterns, out);
        proof {
            let added = list_reports(self.lei@, Some(0), None, "LEI"@, here);
            lemma_more_added(before, expected, added);
            expected = expected + added;
        }
        validate_list(&self.any_bic, Some(0), None, "AnyBIC", path, patterns, out);
        proof {
            let added = list_reports(self.any_bic@, Some(0), None, "AnyBIC"@, here);
            lemma_more_added(before, expected, added);
            expected = expected + added;
        }
        validate_list(&self.clnt_id, Some(0), None, "ClntId", path, patterns, out);
        proof {
            let added = list_reports(self.clnt_id@, Some(0), None, "ClntId"@, here);
            lemma_more_added(before, expected, added);
            expected = expected + added;
        }
        validate_optional(&self.not_rptd, "NotRptd", path, patterns, out);
        proof {
            let added = optional_reports(self.not_rptd, "NotRptd"@, here);
            lemma_more_added(before, expected, added);
            expected = expected + added;
        }
    }
}

/// The alternatives of a choice: exactly one of them is populated.
#[derive(Debug, Default, Clone, PartialEq)]
pub struct DateOrBlankQuery2ChoiceEnum {
    /// Serialized as `NotRptd`.
    pub not_rptd: Option<NotReported1Code>,
    /// Serialized as `Rg`.
    pub rg: Option<DatePeriod1>,
}

impl Validate for DateOrBlankQuery2ChoiceEnum {
    open spec fn violations(&self, path: Seq<SegmentModel>) -> Seq<ReportModel> {
        Seq::empty()
            + choice_reports(
                Seq::empty()
                    + name_if(self.not_rptd.is_some(), "NotRptd"@)
                    + name_if(self.rg.is_some(), "Rg"@),
                path,
            )
            + optional_reports(self.not_rptd, "NotRptd"@, path)
            + optional_reports(self.rg, "Rg"@, path)
    }

    fn validate_into(
        &self,
        path: &Vec<PathSegment>,
        patterns: &IdentifierPatterns,
        out: &mut Vec<ValidationViolation>,
    ) {
        let ghost before = reports_model(out@);
        let ghost here = path_model(path@);
        let ghost mut expected = Seq::<ReportModel>::empty();
        proof {
            lemma_nothing_added(before);
        }
        let mut present: Vec<String> = Vec::new();
        let ghost mut names = Seq::<Seq<char>>::empty();
        proof {
            assert(names_model(present@) =~= names);
        }
        note_present(self.not_rptd.is_some(), "NotRptd", &mut present);
        proof {
            names = names + name_if(self.not_rptd.is_some(), "NotRptd"@);
        }
        note_present(self.rg.is_some(), "Rg", &mut present);
        proof {
            names = names + name_if(self.rg.is_some(), "Rg"@);
        }
        report_choice(present, path, out);
        proof {
            let added = choice_reports(names, here);
            lemma_more_added(before, expected, added);
            expected = expected + added;
        }
        validate_optional(&self.not_rptd, "NotRptd", path, patterns, out);
        proof {
            let added = optional_reports(self.not_rptd, "NotRptd"@, here);
            lemma_more_added(before, expected, added);
            expected = expected + added;
        }
        validate_optional(&self.rg, "Rg", path, patterns, out);
        proof {
            let added = optional_reports(self.rg, "Rg"@, here);
            lemma_more_added(before, expected, added);
            expected = expected + added;
        }
    }
}

/// A choice, serialized as its populated alternative.
#[derive(Debug, Default, Clone, PartialEq)]
pub struct DateOrBlankQuery2Choice {
    /// Serialized in place, without an element of its own.
    pub value: DateOrBlankQuery2ChoiceEnum,
}

impl Validate for DateOrBlankQuery2Choice {
    open spec fn violations(&self, path: Seq<SegmentModel>) -> Seq<ReportModel> {
        Seq::empty()
            + self.value.violations(path)
    }

    fn validate_into(
        &self,
        path: &Vec<PathSegment>,
        patterns: &IdentifierPatterns,
        out: &mut Vec<ValidationViolation>,
    ) {
        let ghost before = reports_model(out@);
        let ghost here = path_model(path@);
        let ghost mut expected = Seq::<ReportModel>::empty();
        proof {
            lemma_nothing_added(before);
        }
        self.value.validate_into(path, patterns, out);
        proof {
            let added = self.value.violations(here);
            lemma_more_added(before, expected, added);
            expected = expected + added;
        }
    }
}

#[derive(Debug, Default, Clone, PartialEq)]
pub enum ExposureType10Code {
    /// Serialized as `SBSC`.
    Sbsc,
    /// Serialized as `MGLD`.
    Mgld,
    /// Serialized as `SLEB`.
    Sleb,
    /// Serialized as `REPO`.
    Repo,
    #[default]
    Unknown,
}

impl Validate for ExposureType10Code {
    open spec fn violations(&self, path: Seq<SegmentModel>) -> Seq<ReportModel> {
        Seq::empty()
    }

    fn validate_into(
        &self,
        path: &Vec<PathSegment>,
        patterns: &IdentifierPatterns,
        out: &mut Vec<ValidationViolation>,
    ) {
        proof {
            lemma_nothing_added(reports_model(out@));
        }
    }
}

#[derive(Debug, Default, Clone, PartialEq)]
pub struct SupplementaryData1<A> {
    /// Serialized as `PlcAndNm`.
    pub plc_and_nm: Option<Max350Text>,
    /// Serialized as `Envlp`.
    pub envlp: SupplementaryDataEnvelope1<A>,
}

impl<A: Validate> Validate for SupplementaryData1<A> {
    open spec fn violations(&self, path: Seq<SegmentModel>) -> Seq<ReportModel> {
        Seq::empty()
            + optional_reports(self.plc_and_nm, "PlcAndNm"@, path)
            + field_reports(self.envlp, "Envlp"@, path)
    }

    fn validate_into(
        &self,
        path: &Vec<PathSegment>,
        patterns: &IdentifierPatterns,
        out: &mut Vec<ValidationViolation>,
    ) {
        let ghost before = reports_model(out@);
        let ghost here = path_model(path@);
        let ghost mut expected = Seq::<ReportModel>::empty();
        proof {
            lemma_nothing_added(before);
        }
        validate_optional(&self.plc_and_nm, "PlcAndNm", path, patterns, out);
        proof {
            let added = optional_reports(self.plc_and_nm, "PlcAndNm"@, here);
            lemma_more_added(before, expected, added);
            expected = expected + added;
        }
        validate_field(&self.envlp, "Envlp", path, patterns, out);
        proof {
            let added = field_reports(self.envlp, "Envlp"@, here);
            lemma_more_added(before, expected, added);
            expected = expected + added;
        }
    }
}

/// A calendar date.
#[derive(Debug, Default, Clone, PartialEq)]
pub struct IsoDate {
    /// The text of the element. A calendar date in ISO 8601 form.
    pub value: String,
}

impl Validate for IsoDate {
    open spec fn violations(&self, path: Seq<SegmentModel>) -> Seq<ReportModel> {
        Seq::empty()
    }

    fn validate_into(
        &self,
        path: &Vec<PathSegment>,
        patterns: &IdentifierPatterns,
        out: &mut Vec<ValidationViolation>,
    ) {
        proof {
            lemma_nothing_added(reports_model(out@));
        }
    }
}

#[derive(Debug, Default, Clone, PartialEq)]
pub enum FinancialPartySectorType2Code {
    /// Serialized as `AIFD`.
    Aifd,
    /// Serialized as `CSDS`.
    Csds,
    /// Serialized as `CCPS`.
    Ccps,
    /// Serialized as `CDTI`.
    Cdti,
    /// Serialized as `INUN`.
    Inun,
    /// Serialized as `ORPI`.
    Orpi,
    /// Serialized as `INVF`.
    Invf,
    /// Serialized as `REIN`.
    Rein,
    /// Serialized as `UCIT`.
    Ucit,
    #[default]
    Unknown,
}

impl Validate for FinancialPartySectorType2Code {
    open spec fn violations(&self, path: Seq<SegmentModel>) -> Seq<ReportModel> {
        Seq::empty()
    }

    fn validate_into(
        &self,
        path: &Vec<PathSegment>,
        patterns: &IdentifierPatterns,
        out: &mut Vec<ValidationViolation>,
    ) {
        proof {
            lemma_nothing_added(reports_model(out@));
        }
    }
}

/// Text that matches `[A-Z]{2,2}`.
#[derive(Debug, Default, Clone, PartialEq)]
pub struct CountryCode {
    /// The text of the element.
    pub value: String,
}

impl Validate for CountryCode {
    open spec fn violations(&self, path: Seq<SegmentModel>) -> Seq<ReportModel> {
        Seq::empty()
            + pattern_reports(self.value@, "[A-Z]{2,2}"@, path)
    }

    fn validate_into(
        &self,
        path: &Vec<PathSegment>,
        patterns: &IdentifierPatterns,
        out: &mut Vec<ValidationViolation>,
    ) {
        let ghost before = reports_model(out@);
        let ghost here = path_model(path@);
        let ghost mut expected = Seq::<ReportModel>::empty();
        proof {
            lemma_nothing_added(before);
        }
        report_pattern(self.value.as_str(), patterns.country_code(), path, out);
        proof {
            let added = pattern_reports(self.value@, "[A-Z]{2,2}"@, here);
            lemma_more_added(before, expected, added);
            expected = expected + added;
        }
    }
}

} // verus!
