//! Return transaction (`camt.006.001.09`).

use vstd::prelude::*;
use vstd::string::StringExecFns;
use crate::decimal::Decimal;
use crate::identifiers::IdentifierPatterns;
use crate::validate::Validate;
use crate::validate::choice_reports;
use crate::validate::field_reports;
use crate::validate::lemma_more_added;
use crate::validate::lemma_nothing_added;
use crate::validate::length_reports;
use crate::validate::list_reports;
use crate::validate::name_if;
use crate::validate::note_present;
use crate::validate::optional_reports;
use crate::validate::pattern_reports;
use crate::validate::range_reports;
use crate::validate::report_choice;
use crate::validate::report_length;
use crate::validate::report_pattern;
use crate::validate::report_range;
use crate::validate::validate_field;
use crate::validate::validate_list;
use crate::validate::validate_optional;
use crate::violation::PathSegment;
use crate::violation::ReportModel;
use crate::violation::SegmentModel;
use crate::violation::ValidationViolation;
use crate::violation::names_model;
use crate::violation::path_model;
use crate::violation::reports_model;

verus! {

/// The namespace of the schema.
pub fn namespace() -> (name: String)
    ensures
        name@ == "urn:iso:std:iso:20022:tech:xsd:camt.006.001.09"@,
{
    String::from_str("urn:iso:std:iso:20022:tech:xsd:camt.006.001.09")
}

/// The alternatives of a choice: exactly one of them is populated.
#[derive(Debug, Default, Clone, PartialEq)]
pub struct PaymentType4ChoiceEnum {
    /// Serialized as `Prtry`.
    pub prtry: Option<Max35Text>,
    /// Serialized as `Cd`.
    pub cd: Option<PaymentType3Code>,
}

impl Validate for PaymentType4ChoiceEnum {
    open spec fn violations(&self, path: Seq<SegmentModel>) -> Seq<ReportModel> {
        Seq::empty()
            + choice_reports(
                Seq::empty()
                    + name_if(self.prtry.is_some(), "Prtry"@)
                    + name_if(self.cd.is_some(), "Cd"@),
                path,
            )
            + optional_reports(self.prtry, "Prtry"@, path)
            + optional_reports(self.cd, "Cd"@, path)
    }

    fn validate_into(
        &self,
        path: &Vec<PathSegment>,
        patterns: &IdentifierPatterns,
        out: &mut Vec<ValidationViolation>,
    ) {
        let ghost before = reports_model(out@);
        let ghost here = path_model(path@);
        let ghost mut expected = Seq::<ReportModel>::empty();
        proof {
            lemma_nothing_added(before);
        }
        let mut present: Vec<String> = Vec::new();
        let ghost mut names = Seq::<Seq<char>>::empty();
        proof {
            assert(names_model(present@) =~= names);
        }
        note_present(self.prtry.is_some(), "Prtry", &mut present);
        proof {
            names = names + name_if(self.prtry.is_some(), "Prtry"@);
        }
        note_present(self.cd.is_some(), "Cd", &mut present);
        proof {
            names = names + name_if(self.cd.is_some(), "Cd"@);
        }
        report_choice(present, path, out);
        proof {
            let added = choice_reports(names, here);
            lemma_more_added(before, expected, added);
            expected = expected + added;
        }
        validate_optional(&self.prtry, "Prtry", path, patterns, out);
        proof {
            let added = optional_reports(self.prtry, "Prtry"@, here);
            lemma_more_added(before, expected, added);
            expected = expected + added;
        }
        validate_optional(&self.cd, "Cd", path, patterns, out);
        proof {
            let added = optional_reports(self.cd, "Cd"@, here);
            lemma_more_added(before, expected, added);
            expected = expected + added;
        }
    }
}

/// A choice, serialized as its populated alternative.
#[derive(Debug, Default, Clone, PartialEq)]
pub struct PaymentType4Choice {
    /// Serialized in place, without an element of its own.
    pub value: PaymentType4ChoiceEnum,
}

impl Validate for PaymentType4Choice {
    open spec fn violations(&self, path: Seq<SegmentModel>) -> Seq<ReportModel> {
        Seq::empty()
            + self.value.violations(path)
    }

    fn validate_into(
        &self,
        path: &Vec<PathSegment>,
        patterns: &IdentifierPatterns,
        out: &mut Vec<ValidationViolation>,
    ) {
        let ghost before = reports_model(out@);
        let ghost here = path_model(path@);
        let ghost mut expected = Seq::<ReportModel>::empty();
        proof {
            lemma_nothing_added(before);
        }
        self.value.validate_into(path, patterns, out);
        proof {
            let added = self.value.violations(here);
            lemma_more_added(before, expected, added);
            expected = expected + added;
        }
    }
}

/// The alternatives of a choice: exactly one of them is populated.
#[derive(Debug, Default, Clone, PartialEq)]
pub struct FinancialIdentificationSchemeName1ChoiceEnum {
    /// Serialized as `Prtry`.
    pub prtry: Option<Max35Text>,
    /// Serialized as `Cd`.
    pub cd: Option<ExternalFinancialInstitutionIdentification1Code>,
}

impl Validate for FinancialIdentificationSchemeName1ChoiceEnum {
    open spec fn violations(&self, path: Seq<SegmentModel>) -> Seq<ReportModel> {
        Seq::empty()
            + choice_reports(
                Seq::empty()
                    + name_if(self.prtry.is_some(), "Prtry"@)
                    + name_if(self.cd.is_some(), "Cd"@),
                path,
            )
            + optional_reports(self.prtry, "Prtry"@, path)
            + optional_reports(self.cd, "Cd"@, path)
    }

    fn validate_into(
        &self,
        path: &Vec<PathSegment>,
        patterns: &IdentifierPatterns,
        out: &mut Vec<ValidationViolation>,
    ) {
        let ghost before = reports_model(out@);
        let ghost here = path_model(path@);
        let ghost mut expected = Seq::<ReportModel>::empty();
        proof {
            lemma_nothing_added(before);
        }
        let mut present: Vec<String> = Vec::new();
        let ghost mut names = Seq::<Seq<char>>::empty();
        proof {
            assert(names_model(present@) =~= names);
        }
        note_present(self.prtry.is_some(), "Prtry", &mut present);
        proof {
            names = names + name_if(self.prtry.is_some(), "Prtry"@);
        }
        note_present(self.cd.is_some(), "Cd", &mut present);
        proof {
            names = names + name_if(self.cd.is_some(), "Cd"@);
        }
        report_choice(present, path, out);
        proof {
            let added = choice_reports(names, here);
            lemma_more_added(before, expected, added);
            expected = expected + added;
        }
        validate_optional(&self.prtry, "Prtry", path, patterns, out);
        proof {
            let added = optional_reports(self.prtry, "Prtry"@, here);
            lemma_more_added(before, expected, added);
            expected = expected + added;
        }
        validate_optional(&self.cd, "Cd", path, patterns, out);
        proof {
            let added = optional_reports(self.cd, "Cd"@, here);
            lemma_more_added(before, expected, added);
            expected = expected + added;
        }
    }
}

/// A choice, serialized as its populated alternative.
#[derive(Debug, Default, Clone, PartialEq)]
pub struct FinancialIdentificationSchemeName1Choice {
    /// Serialized in place, without an element of its own.
    pub value: FinancialIdentificationSchemeName1ChoiceEnum,
}

impl Validate for FinancialIdentificationSchemeName1Choice {
    open spec fn violations(&self, path: Seq<SegmentModel>) -> Seq<ReportModel> {
        Seq::empty()
            + self.value.violations(path)
    }

    fn validate_into(
        &self,
        path: &Vec<PathSegment>,
        patterns: &IdentifierPatterns,
        out: &mut Vec<ValidationViolation>,
    ) {
        let ghost before = reports_model(out@);
        let ghost here = path_model(path@);
        let ghost mut expected = Seq::<ReportModel>::empty();
        proof {
            lemma_nothing_added(before);
        }
        self.value.validate_into(path, patterns, out);
        proof {
            let added = self.value.violations(here);
            lemma_more_added(before, expected, added);
            expected = expected + added;
        }
    }
}

#[derive(Debug, Default, Clone, PartialEq)]
pub struct System2 {
    /// Serialized as `SysId`.
    pub sys_id: Option<MarketInfrastructureIdentification1Choice>,
    /// Serialized as `MmbId`.
    pub mmb_id: Option<BranchAndFinancialInstitutionIdentification6>,
    /// Serialized as `Ctry`.
    pub ctry: Option<CountryCode>,
    /// Serialized as `AcctId`.
    pub acct_id: Option<AccountIdentification4Choice>,
}

impl Validate for System2 {
    open spec fn violations(&self, path: Seq<SegmentModel>) -> Seq<ReportModel> {
        Seq::empty()
            + optional_reports(self.sys_id, "SysId"@, path)
            + optional_reports(self.mmb_id, "MmbId"@, path)
            + optional_reports(self.ctry, "Ctry"@, path)
            + optional_reports(self.acct_id, "AcctId"@, path)
    }

    fn validate_into(
        &self,
        path: &Vec<PathSegment>,
        patterns: &IdentifierPatterns,
        out: &mut Vec<ValidationViolation>,
    ) {
        let ghost before = reports_model(out@);
        let ghost here = path_model(path@);
        let ghost mut expected = Seq::<ReportModel>::empty();
        proof {
            lemma_nothing_added(before);
        }
        validate_optional(&self.sys_id, "SysId", path, patterns, out);
        proof {
            let added = optional_reports(self.sys_id, "SysId"@, here);
            lemma_more_added(before, expected, added);
            expected = expected + added;
        }
        validate_optional(&self.mmb_id, "MmbId", path, patterns, out);
        proof {
            let added = optional_reports(self.mmb_id, "MmbId"@, here);
            lemma_more_added(before, expected, added);
            expected = expected + added;
        }
        validate_optional(&self.ctry, "Ctry", path, patterns, out);
        proof {
            let added = optional_reports(self.ctry, "Ctry"@, here);
            lemma_more_added(before, expected, added);
            expected = expected + added;
        }
        validate_optional(&self.acct_id, "AcctId", path, patterns, out);
        proof {
            let added = optional_reports(self.acct_id, "AcctId"@, here);
            lemma_more_added(before, expected, added);
            expected = expected + added;
        }
    }
}

/// Text of 1 to 4 characters that matches `[a-zA-Z0-9]{1,4}`.
#[derive(Debug, Default, Clone, PartialEq)]
pub struct Max4AlphaNumericText {
    /// The text of the element.
    pub value: String,
}

impl Validate for Max4AlphaNumericText {
    open spec fn violations(&self, path: Seq<SegmentModel>) -> Seq<ReportModel> {
        Seq::empty()
            + length_reports(self.value@, Some(1), Some(4), path)
            + pattern_reports(self.value@, "[a-zA-Z0-9]{1,4}"@, path)
    }

    fn validate_into(
        &self,
        path: &Vec<PathSegment>,
        patterns: &IdentifierPatterns,
        out: &mut Vec<ValidationViolation>,
    ) {
        let ghost before = reports_model(out@);
        let ghost here = path_model(path@);
        let ghost mut expected = Seq::<ReportModel>::empty();
        proof {
            lemma_nothing_added(before);
        }
        report_length(self.value.as_str(), Some(1), Some(4), path, out);
        proof {
            let added = length_reports(self.value@, Some(1), Some(4), here);
            lemma_more_added(before, expected, added);
            expected = expected + added;
        }
        report_pattern(self.value.as_str(), patterns.max_4_alpha_numeric_text(), path, out);
        proof {
            let added = pattern_reports(self.value@, "[a-zA-Z0-9]{1,4}"@, here);
            lemma_more_added(before, expected, added);
            expected = expected + added;
        }
    }
}

/// Text of 1 to 20000 characters.
#[derive(Debug, Default, Clone, PartialEq)]
pub struct Max20000Text {
    /// The text of the element.
    pub value: String,
}

impl Validate for Max20000Text {
    open spec fn violations(&self, path: Seq<SegmentModel>) -> Seq<ReportModel> {
        Seq::empty()
            + length_reports(self.value@, Some(1), Some(20000), path)
    }

    fn validate_into(
        &self,
        path: &Vec<PathSegment>,
        patterns: &IdentifierPatterns,
        out: &mut Vec<ValidationViolation>,
    ) {
        let ghost before = reports_model(out@);
        let ghost here = path_model(path@);
        let ghost mut expected = Seq::<ReportModel>::empty();
        proof {
            lemma_nothing_added(before);
        }
        report_length(self.value.as_str(), Some(1), Some(20000), path, out);
        proof {
            let added = length_reports(self.value@, Some(1), Some(20000), here);
            lemma_more_added(before, expected, added);
            expected = expected + added;
        }
    }
}

/// The alternatives of a choice: exactly one of them is populated.
#[derive(Debug, Default, Clone, PartialEq)]
pub struct PersonIdentificationSchemeName1ChoiceEnum {
    /// Serialized as `Prtry`.
    pub prtry: Option<Max35Text>,
    /// Serialized as `Cd`.
    pub cd: Option<ExternalPersonIdentification1Code>,
}

impl Validate for PersonIdentificationSchemeName1ChoiceEnum {
    open spec fn violations(&self, path: Seq<SegmentModel>) -> Seq<ReportModel> {
        Seq::empty()
            + choice_reports(
                Seq::empty()
                    + name_if(self.prtry.is_some(), "Prtry"@)
                    + name_if(self.cd.is_some(), "Cd"@),
                path,
            )
            + optional_reports(self.prtry, "Prtry"@, path)
            + optional_reports(self.cd, "Cd"@, path)
    }

    fn validate_into(
        &self,
        path: &Vec<PathSegment>,
        patterns: &IdentifierPatterns,
        out: &mut Vec<ValidationViolation>,
    ) {
        let ghost before = reports_model(out@);
        let ghost here = path_model(path@);
        let ghost mut expected = Seq::<ReportModel>::empty();
        proof {
            lemma_nothing_added(before);
        }
        let mut present: Vec<String> = Vec::new();
        let ghost mut names = Seq::<Seq<char>>::empty();
        proof {
            assert(names_model(present@) =~= names);
        }
        note_present(self.prtry.is_some(), "Prtry", &mut present);
        proof {
            names = names + name_if(self.prtry.is_some(), "Prtry"@);
        }
        note_present(self.cd.is_some(), "Cd", &mut present);
        proof {
            names = names + name_if(self.cd.is_some(), "Cd"@);
        }
        report_choice(present, path, out);
        proof {
            let added = choice_reports(names, here);
            lemma_more_added(before, expected, added);
            expected = expected + added;
        }
        validate_optional(&self.prtry, "Prtry", path, patterns, out);
        proof {
            let added = optional_reports(self.prtry, "Prtry"@, here);
            lemma_more_added(before, expected, added);
            expected = expected + added;
        }
        validate_optional(&self.cd, "Cd", path, patterns, out);
        proof {
            let added = optional_reports(self.cd, "Cd"@, here);
            lemma_more_added(before, expected, added);
            expected = expected + added;
        }
    }
}

/// A choice, serialized as its populated alternative.
#[derive(Debug, Default, Clone, PartialEq)]
pub struct PersonIdentificationSchemeName1Choice {
    /// Serialized in place, without an element of its own.
    pub value: PersonIdentificationSchemeName1ChoiceEnum,
}

impl Validate for PersonIdentificationSchemeName1Choice {
    open spec fn violations(&self, path: Seq<SegmentModel>) -> Seq<ReportModel> {
        Seq::empty()
            + self.value.violations(path)
    }

    fn validate_into(
        &self,
        path: &Vec<PathSegment>,
        patterns: &IdentifierPatterns,
        out: &mut Vec<ValidationViolation>,
    ) {
        let ghost before = reports_model(out@);
        let ghost here = path_model(path@);
        let ghost mut expected = Seq::<ReportModel>::empty();
        proof {
            lemma_nothing_added(before);
        }
        self.value.validate_into(path, patterns, out);
        proof {
            let added = self.value.violations(here);
            lemma_more_added(before, expected, added);
            expected = expected + added;
        }
    }
}

#[derive(Debug, Default, Clone, PartialEq)]
pub struct YesNoIndicator {
    /// The text of the element.
    pub value: bool,
}

impl Validate for YesNoIndicator {
    open spec fn violations(&self, path: Seq<SegmentModel>) -> Seq<ReportModel> {
        Seq::empty()
    }

    fn validate_into(
        &self,
        path: &Vec<PathSegment>,
        patterns: &IdentifierPatterns,
        out: &mut Vec<ValidationViolation>,
    ) {
        proof {
            lemma_nothing_added(reports_model(out@));
        }
    }
}

/// Text of 1 to 34 characters.
#[derive(Debug, Default, Clone, PartialEq)]
pub struct Max34Text {
    /// The text of the element.
    pub value: String,
}

impl Validate for Max34Text {
    open spec fn violations(&self, path: Seq<SegmentModel>) -> Seq<ReportModel> {
        Seq::empty()
            + length_reports(self.value@, Some(1), Some(34), path)
    }

    fn validate_into(
        &self,
        path: &Vec<PathSegment>,
        patterns: &IdentifierPatterns,
        out: &mut Vec<ValidationViolation>,
    ) {
        let ghost before = reports_model(out@);
        let ghost here = path_model(path@);
        let ghost mut expected = Seq::<ReportModel>::empty();
        proof {
            lemma_nothing_added(before);
        }
        report_length(self.value.as_str(), Some(1), Some(34), path, out);
        proof {
            let added = length_reports(self.value@, Some(1), Some(34), here);
            lemma_more_added(before, expected, added);
            expected = expected + added;
        }
    }
}

/// The alternatives of a choice: exactly one of them is populated.
#[derive(Debug, Default, Clone, PartialEq)]
pub struct PaymentStatusCode6ChoiceEnum {
    /// Serialized as `Pdg`.
    pub pdg: Option<PendingStatus4Code>,
    /// Serialized as `Fnl`.
    pub fnl: Option<FinalStatus1Code>,
    /// Serialized as `Sttlm`.
    pub sttlm: Option<Max4AlphaNumericText>,
    /// Serialized as `Prtry`.
    pub prtry: Option<Max35Text>,
    /// Serialized as `RTGS`.
    pub rtgs: Option<Max4AlphaNumericText>,
}

impl Validate for PaymentStatusCode6ChoiceEnum {
    open spec fn violations(&self, path: Seq<SegmentModel>) -> Seq<ReportModel> {
        Seq::empty()
            + choice_reports(
                Seq::empty()
                    + name_if(self.pdg.is_some(), "Pdg"@)
                    + name_if(self.fnl.is_some(), "Fnl"@)
                    + name_if(self.sttlm.is_some(), "Sttlm"@)
                    + name_if(self.prtry.is_some(), "Prtry"@)
                    + name_if(self.rtgs.is_some(), "RTGS"@),
                path,
            )
            + optional_reports(self.pdg, "Pdg"@, path)
            + optional_reports(self.fnl, "Fnl"@, path)
            + optional_reports(self.sttlm, "Sttlm"@, path)
            + optional_reports(self.prtry, "Prtry"@, path)
            + optional_reports(self.rtgs, "RTGS"@, path)
    }

    fn validate_into(
        &self,
        path: &Vec<PathSegment>,
        patterns: &IdentifierPatterns,
        out: &mut Vec<ValidationViolation>,
    ) {
        let ghost before = reports_model(out@);
        let ghost here = path_model(path@);
        let ghost mut expected = Seq::<ReportModel>::empty();
        proof {
            lemma_nothing_added(before);
        }
        let mut present: Vec<String> = Vec::new();
        let ghost mut names = Seq::<Seq<char>>::empty();
        proof {
            assert(names_model(present@) =~= names);
        }
        note_present(self.pdg.is_some(), "Pdg", &mut present);
        proof {
            names = names + name_if(self.pdg.is_some(), "Pdg"@);
        }
        note_present(self.fnl.is_some(), "Fnl", &mut present);
        proof {
            names = names + name_if(self.fnl.is_some(), "Fnl"@);
        }
        note_present(self.sttlm.is_some(), "Sttlm", &mut present);
        proof {
            names = names + name_if(self.sttlm.is_some(), "Sttlm"@);
        }
        note_present(self.prtry.is_some(), "Prtry", &mut present);
        proof {
            names = names + name_if(self.prtry.is_some(), "Prtry"@);
        }
        note_present(self.rtgs.is_some(), "RTGS", &mut present);
        proof {
            names = names + name_if(self.rtgs.is_some(), "RTGS"@);
        }
        report_choice(present, path, out);
        proof {
            let added = choice_reports(names, here);
            lemma_more_added(before, expected, added);
            expected = expected + added;
        }
        validate_optional(&self.pdg, "Pdg", path, patterns, out);
        proof {
            let added = optional_reports(self.pdg, "Pdg"@, here);
            lemma_more_added(before, expected, added);
            expected = expected + added;
        }
        validate_optional(&self.fnl, "Fnl", path, patterns, out);
        proof {
            let added = optional_reports(self.fnl, "Fnl"@, here);
            lemma_more_added(before, expected, added);
            expected = expected + added;
        }
        validate_optional(&self.sttlm, "Sttlm", path, patterns, out);
        proof {
            let added = optional_reports(self.sttlm, "Sttlm"@, here);
            lemma_more_added(before, expected, added);
            expected = expected + added;
        }
        validate_optional(&self.prtry, "Prtry", path, patterns, out);
        proof {
            let added = optional_reports(self.prtry, "Prtry"@, here);
            lemma_more_added(before, expected, added);
            expected = expected + added;
        }
        validate_optional(&self.rtgs, "RTGS", path, patterns, out);
        proof {
            let added = optional_reports(self.rtgs, "RTGS"@, here);
            lemma_more_added(before, expected, added);
            expected = expected + added;
        }
    }
}

/// A choice, serialized as its populated alternative.
#[derive(Debug, Default, Clone, PartialEq)]
pub struct PaymentStatusCode6Choice {
    /// Serialized in place, without an element of its own.
    pub value: PaymentStatusCode6ChoiceEnum,
}

impl Validate for PaymentStatusCode6Choice {
    open spec fn violations(&self, path: Seq<SegmentModel>) -> Seq<ReportModel> {
        Seq::empty()
            + self.value.violations(path)
    }

    fn validate_into(
        &self,
        path: &Vec<PathSegment>,
        patterns: &IdentifierPatterns,
        out: &mut Vec<ValidationViolation>,
    ) {
        let ghost before = reports_model(out@);
        let ghost here = path_model(path@);
        let ghost mut expected = Seq::<ReportModel>::empty();
        proof {
            lemma_nothing_added(before);
        }
        self.value.validate_into(path, patterns, out);
        proof {
            let added = self.value.violations(here);
            lemma_more_added(before, expected, added);
            expected = expected + added;
        }
    }
}

#[derive(Debug, Default, Clone, PartialEq)]
pub struct ReturnTransactionV09<A> {
    /// Serialized as `MsgHdr`.
    pub msg_hdr: MessageHeader8,
    /// Serialized as `RptOrErr`.
    pub rpt_or_err: TransactionReportOrError5Choice,
    /// Serialized as `SplmtryData`.
    pub splmtry_data: Vec<SupplementaryData1<A>>,
}

impl<A: Validate> Validate for ReturnTransactionV09<A> {
    open spec fn violations(&self, path: Seq<SegmentModel>) -> Seq<ReportModel> {
        Seq::empty()
            + field_reports(self.msg_hdr, "MsgHdr"@, path)
            + field_reports(self.rpt_or_err, "RptOrErr"@, path)
            + list_reports(self.splmtry_data@, Some(0), None, "SplmtryData"@, path)
    }

    fn validate_into(
        &self,
        path: &Vec<PathSegment>,
        patterns: &IdentifierPatterns,
        out: &mut Vec<ValidationViolation>,
    ) {
        let ghost before = reports_model(out@);
        let ghost here = path_model(path@);
        let ghost mut expected = Seq::<ReportModel>::empty();
        proof {
            lemma_nothing_added(before);
        }
        validate_field(&self.msg_hdr, "MsgHdr", path, patterns, out);
        proof {
            let added = field_reports(self.msg_hdr, "MsgHdr"@, here);
            lemma_more_added(before, expected, added);
            expected = expected + added;
        }
        validate_field(&self.rpt_or_err, "RptOrErr", path, patterns, out);
        proof {
            let added = field_reports(self.rpt_or_err, "RptOrErr"@, here);
            lemma_more_added(before, expected, added);
            expected = expected + added;
        }
        validate_list(&self.splmtry_data, Some(0), None, "SplmtryData", path, patterns, out);
        proof {
            let added = list_reports(self.splmtry_data@, Some(0), None, "SplmtryData"@, here);
            lemma_more_added(before, expected, added);
            expected = expected + added;
        }
    }
}

#[derive(Debug, Default, Clone, PartialEq)]
pub struct Transaction74 {
    /// Serialized as `PmtTo`.
    pub pmt_to: Option<System2>,
    /// Serialized as `PmtFr`.
    pub pmt_fr: Option<System2>,
    /// Serialized as `CdtDbtInd`.
    pub cdt_dbt_ind: Option<CreditDebitCode>,
    /// Serialized as `Pmt`.
    pub pmt: Option<PaymentInstruction32>,
    /// Serialized as `AcctNtry`.
    pub acct_ntry: Option<CashAccountAndEntry4>,
    /// Serialized as `SctiesTxRefs`.
    pub scties_tx_refs: Option<SecuritiesTransactionReferences1>,
}

impl Validate for Transaction74 {
    open spec fn violations(&self, path: Seq<SegmentModel>) -> Seq<ReportModel> {
        Seq::empty()
            + optional_reports(self.pmt_to, "PmtTo"@, path)
            + optional_reports(self.pmt_fr, "PmtFr"@, path)
            + optional_reports(self.cdt_dbt_ind, "CdtDbtInd"@, path)
            + optional_reports(self.pmt, "Pmt"@, path)
            + optional_reports(self.acct_ntry, "AcctNtry"@, path)
            + optional_reports(self.scties_tx_refs, "SctiesTxRefs"@, path)
    }

    fn validate_into(
        &self,
        path: &Vec<PathSegment>,
        patterns: &IdentifierPatterns,
        out: &mut Vec<ValidationViolation>,
    ) {
        let ghost before = reports_model(out@);
        let ghost here = path_model(path@);
        let ghost mut expected = Seq::<ReportModel>::empty();
        proof {
            lemma_nothing_added(before);
        }
        validate_optional(&self.pmt_to, "PmtTo", path, patterns, out);
        proof {
            let added = optional_reports(self.pmt_to, "PmtTo"@, here);
            lemma_more_added(before, expected, added);
            expected = expected + added;
        }
        validate_optional(&self.pmt_fr, "PmtFr", path, patterns, out);
        proof {
            let added = optional_reports(self.pmt_fr, "PmtFr"@, here);
            lemma_more_added(before, expected, added);
            expected = expected + added;
        }
        validate_optional(&self.cdt_dbt_ind, "CdtDbtInd", path, patterns, out);
        proof {
            let added = optional_reports(self.cdt_dbt_ind, "CdtDbtInd"@, here);
            lemma_more_added(before, expected, added);
            expected = expected + added;
        }
        validate_optional(&self.pmt, "Pmt", path, patterns, out);
        proof {
            let added = optional_reports(self.pmt, "Pmt"@, here);
            lemma_more_added(before, expected, added);
            expected = expected + added;
        }
        validate_optional(&self.acct_ntry, "AcctNtry", path, patterns, out);
        proof {
            let added = optional_reports(self.acct_ntry, "AcctNtry"@, here);
            lemma_more_added(before, expected, added);
            expected = expected + added;
        }
        validate_optional(&self.scties_tx_refs, "SctiesTxRefs", path, patterns, out);
        proof {
            let added = optional_reports(self.scties_tx_refs, "SctiesTxRefs"@, here);
            lemma_more_added(before, expected, added);
            expected = expected + added;
        }
    }
}

/// Text that matches `[A-Z]{2,2}`.
#[derive(Debug, Default, Clone, PartialEq)]
pub struct CountryCode {
    /// The text of the element.
    pub value: String,
}

impl Validate for CountryCode {
    open spec fn violations(&self, path: Seq<SegmentModel>) -> Seq<ReportModel> {
        Seq::empty()
            + pattern_reports(self.value@, "[A-Z]{2,2}"@, path)
    }

    fn validate_into(
        &self,
        path: &Vec<PathSegment>,
        patterns: &IdentifierPatterns,
        out: &mut Vec<ValidationViolation>,
    ) {
        let ghost before = reports_model(out@);
        let ghost here = path_model(path@);
        let ghost mut expected = Seq::<ReportModel>::empty();
        proof {
            lemma_nothing_added(before);
        }
        report_pattern(self.value.as_str(), patterns.country_code(), path, out);
        proof {
            let added = pattern_reports(self.value@, "[A-Z]{2,2}"@, here);
            lemma_more_added(before, expected, added);
            expected = expected + added;
        }
    }
}

/// The alternatives of a choice: exactly one of them is populated.
#[derive(Debug, Default, Clone, PartialEq)]
pub struct ProxyAccountType1ChoiceEnum {
    /// Serialized as `Prtry`.
    pub prtry: Option<Max35Text>,
    /// Serialized as `Cd`.
    pub cd: Option<ExternalProxyAccountType1Code>,
}

impl Validate for ProxyAccountType1ChoiceEnum {
    open spec fn violations(&self, path: Seq<SegmentModel>) -> Seq<ReportModel> {
        Seq::empty()
            + choice_reports(
                Seq::empty()
                    + name_if(self.prtry.is_some(), "Prtry"@)
                    + name_if(self.cd.is_some(), "Cd"@),
                path,
            )
            + optional_reports(self.prtry, "Prtry"@, path)
            + optional_reports(self.cd, "Cd"@, path)
    }

    fn validate_into(
        &self,
        path: &Vec<PathSegment>,
        patterns: &IdentifierPatterns,
        out: &mut Vec<ValidationViolation>,
    ) {
        let ghost before = reports_model(out@);
        let ghost here = path_model(path@);
        let ghost mut expected = Seq::<ReportModel>::empty();
        proof {
            lemma_nothing_added(before);
        }
        let mut present: Vec<String> = Vec::new();
        let ghost mut names = Seq::<Seq<char>>::empty();
        proof {
            assert(names_model(present@) =~= names);
        }
        note_present(self.prtry.is_some(), "Prtry", &mut present);
        proof {
            names = names + name_if(self.prtry.is_some(), "Prtry"@);
        }
        note_present(self.cd.is_some(), "Cd", &mut present);
        proof {
            names = names + name_if(self.cd.is_some(), "Cd"@);
        }
        report_choice(present, path, out);
        proof {
            let added = choice_reports(names, here);
            lemma_more_added(before, expected, added);
            expected = expected + added;
        }
        validate_optional(&self.prtry, "Prtry", path, patterns, out);
        proof {
            let added = optional_reports(self.prtry, "Prtry"@, here);
            lemma_more_added(before, expected, added);
            expected = expected + added;
        }
        validate_optional(&self.cd, "Cd", path, patterns, out);
        proof {
            let added = optional_reports(self.cd, "Cd"@, here);
            lemma_more_added(before, expected, added);
            expected = expected + added;
        }
    }
}

/// A choice, serialized as its populated alternative.
#[derive(Debug, Default, Clone, PartialEq)]
pub struct ProxyAccountType1Choice {
    /// Serialized in place, without an element of its own.
    pub value: ProxyAccountType1ChoiceEnum,
}

impl Validate for ProxyAccountType1Choice {
    open spec fn violations(&self, path: Seq<SegmentModel>) -> Seq<ReportModel> {
        Seq::empty()
            + self.value.violations(path)
    }

    fn validate_into(
        &self,
        path: &Vec<PathSegment>,
        patterns: &IdentifierPatterns,
        out: &mut Vec<ValidationViolation>,
    ) {
        let ghost before = reports_model(out@);
        let ghost here = path_model(path@);
        let ghost mut expected = Seq::<ReportModel>::empty();
        proof {
            lemma_nothing_added(before);
        }
        self.value.validate_into(path, patterns, out);
        proof {
            let added = self.value.violations(here);
            lemma_more_added(before, expected, added);
            expected = expected + added;
        }
    }
}

#[derive(Debug, Default, Clone, PartialEq)]
pub struct GenericIdentification1 {
    /// Serialized as `Id`.
    pub id: Max35Text,
    /// Serialized as `SchmeNm`.
    pub schme_nm: Option<Max35Text>,
    /// Serialized as `Issr`.
    pub issr: Option<Max35Text>,
}

impl Validate for GenericIdentification1 {
    open spec fn violations(&self, path: Seq<SegmentModel>) -> Seq<ReportModel> {
        Seq::empty()
            + field_reports(self.id, "Id"@, path)
            + optional_reports(self.schme_nm, "SchmeNm"@, path)
            + optional_reports(self.issr, "Issr"@, path)
    }

    fn validate_into(
        &self,
        path: &Vec<PathSegment>,
        patterns: &IdentifierPatterns,
        out: &mut Vec<ValidationViolation>,
    ) {
        let ghost before = reports_model(out@);
        let ghost here = path_model(path@);
        let ghost mut expected = Seq::<ReportModel>::empty();
        proof {
            lemma_nothing_added(before);
        }
        validate_field(&self.id, "Id", path, patterns, out);
        proof {
            let added = field_reports(self.id, "Id"@, here);
            lemma_more_added(before, expected, added);
            expected = expected + added;
        }
        validate_optional(&self.schme_nm, "SchmeNm", path, patterns, out);
        proof {
            let added = optional_reports(self.schme_nm, "SchmeNm"@, here);
            lemma_more_added(before, expected, added);
            expected = expected + added;
        }
        validate_optional(&self.issr, "Issr", path, patterns, out);
        proof {
            let added = optional_reports(self.issr, "Issr"@, here);
            lemma_more_added(before, expected, added);
            expected = expected + added;
        }
    }
}

#[derive(Debug, Default, Clone, PartialEq)]
pub struct CashEntry2 {
    /// Serialized as `Amt`.
    pub amt: Option<ActiveCurrencyAndAmount>,
    /// Serialized as `Dt`.
    pub dt: Option<DateAndDateTime2Choice>,
    /// Serialized as `Sts`.
    pub sts: Option<EntryStatus1Code>,
    /// Serialized as `Id`.
    pub id: Option<Max35Text>,
    /// Serialized as `StmtId`.
    pub stmt_id: Option<Max35Text>,
    /// Serialized as `AcctSvcrRef`.
    pub acct_svcr_ref: Option<Number>,
    /// Serialized as `AddtlNtryInf`.
    pub addtl_ntry_inf: Vec<Max140Text>,
}

impl Validate for CashEntry2 {
    open spec fn violations(&self, path: Seq<SegmentModel>) -> Seq<ReportModel> {
        Seq::empty()
            + optional_reports(self.amt, "Amt"@, path)
            + optional_reports(self.dt, "Dt"@, path)
            + optional_reports(self.sts, "Sts"@, path)
            + optional_reports(self.id, "Id"@, path)
            + optional_reports(self.stmt_id, "StmtId"@, path)
            + optional_reports(self.acct_svcr_ref, "AcctSvcrRef"@, path)
            + list_reports(self.addtl_ntry_inf@, Some(0), None, "AddtlNtryInf"@, path)
    }

    fn validate_into(
        &self,
        path: &Vec<PathSegment>,
        patterns: &IdentifierPatterns,
        out: &mut Vec<ValidationViolation>,
    ) {
        let ghost before = reports_model(out@);
        let ghost here = path_model(path@);
        let ghost mut expected = Seq::<ReportModel>::empty();
        proof {
            lemma_nothing_added(before);
        }
        validate_optional(&self.amt, "Amt", path, patterns, out);
        proof {
            let added = optional_reports(self.amt, "Amt"@, here);
            lemma_more_added(before, expected, added);
            expected = expected + added;
        }
        validate_optional(&self.dt, "Dt", path, patterns, out);
        proof {
            let added = optional_reports(self.dt, "Dt"@, here);
            lemma_more_added(before, expected, added);
            expected = expected + added;
        }
        validate_optional(&self.sts, "Sts", path, patterns, out);
        proof {
            let added = optional_reports(self.sts, "Sts"@, here);
            lemma_more_added(before, expected, added);
            expected = expected + added;
        }
        validate_optional(&self.id, "Id", path, patterns, out);
        proof {
            let added = optional_reports(self.id, "Id"@, here);
            lemma_more_added(before, expected, added);
            expected = expected + added;
        }
        validate_optional(&self.stmt_id, "StmtId", path, patterns, out);
        proof {
            let added = optional_reports(self.stmt_id, "StmtId"@, here);
            lemma_more_added(before, expected, added);
            expected = expected + added;
        }
        validate_optional(&self.acct_svcr_ref, "AcctSvcrRef", path, patterns, out);
        proof {
            let added = optional_reports(self.acct_svcr_ref, "AcctSvcrRef"@, here);
            lemma_more_added(before, expected, added);
            expected = expected + added;
        }
        validate_list(&self.addtl_ntry_inf, Some(0), None, "AddtlNtryInf", path, patterns, out);
        proof {
            let added = list_reports(self.addtl_ntry_inf@, Some(0), None, "AddtlNtryInf"@, here);
            lemma_more_added(before, expected, added);
            expected = expected + added;
        }
    }
}

/// Text that matches `[0-9]{1,5}`.
#[derive(Debug, Default, Clone, PartialEq)]
pub struct Max5NumericText {
    /// The text of the element.
    pub value: String,
}

impl Validate for Max5NumericText {
    open spec fn violations(&self, path: Seq<SegmentModel>) -> Seq<ReportModel> {
        Seq::empty()
            + pattern_reports(self.value@, "[0-9]{1,5}"@, path)
    }

    fn validate_into(
        &self,
        path: &Vec<PathSegment>,
        patterns: &IdentifierPatterns,
        out: &mut Vec<ValidationViolation>,
    ) {
        let ghost before = reports_model(out@);
        let ghost here = path_model(path@);
        let ghost mut expected = Seq::<ReportModel>::empty();
        proof {
            lemma_nothing_added(before);
        }
        report_pattern(self.value.as_str(), patterns.max_5_numeric_text(), path, out);
        proof {
            let added = pattern_reports(self.value@, "[0-9]{1,5}"@, here);
            lemma_more_added(before, expected, added);
            expected = expected + added;
        }
    }
}

#[derive(Debug, Default, Clone, PartialEq)]
pub enum PaymentType3Code {
    /// Serialized as `CBS`.
    Cbs,
    /// Serialized as `BCK`.
    Bck,
    /// Serialized as `BAL`.
    Bal,
    /// Serialized as `CLS`.
    Cls,
    /// Serialized as `CTR`.
    Ctr,
    /// Serialized as `CBH`.
    Cbh,
    /// Serialized as `CBP`.
    Cbp,
    /// Serialized as `DPG`.
    Dpg,
    /// Serialized as `DPN`.
    Dpn,
    /// Serialized as `EXP`.
    Exp,
    /// Serialized as `TCH`.
    Tch,
    /// Serialized as `LMT`.
    Lmt,
    /// Serialized as `LIQ`.
    Liq,
    /// Serialized as `DPP`.
    Dpp,
    /// Serialized as `DPH`.
    Dph,
    /// Serialized as `DPS`.
    Dps,
    /// Serialized as `STF`.
    Stf,
    /// Serialized as `TRP`.
    Trp,
    /// Serialized as `TCS`.
    Tcs,
    /// Serialized as `LOA`.
    Loa,
    /// Serialized as `LOR`.
    Lor,
    /// Serialized as `TCP`.
    Tcp,
    /// Serialized as `OND`.
    Ond,
    /// Serialized as `MGL`.
    Mgl,
    #[default]
    Unknown,
}

impl Validate for PaymentType3Code {
    open spec fn violations(&self, path: Seq<SegmentModel>) -> Seq<ReportModel> {
        Seq::empty()
    }

    fn validate_into(
        &self,
        path: &Vec<PathSegment>,
        patterns: &IdentifierPatterns,
        out: &mut Vec<ValidationViolation>,
    ) {
        proof {
            lemma_nothing_added(reports_model(out@));
        }
    }
}

#[derive(Debug, Default, Clone, PartialEq)]
pub struct ActiveOrHistoricCurrencyAndAmount {
    /// Serialized as `ActiveOrHistoricCurrencyAndAmount`.
    pub value: ActiveOrHistoricCurrencyAndAmountSimpleType,
    /// Serialized as the attribute `Ccy`.
    pub ccy: ActiveOrHistoricCurrencyCode,
}

impl Validate for ActiveOrHistoricCurrencyAndAmount {
    open spec fn violations(&self, path: Seq<SegmentModel>) -> Seq<ReportModel> {
        Seq::empty()
            + field_reports(self.value, "ActiveOrHistoricCurrencyAndAmount"@, path)
            + field_reports(self.ccy, "@Ccy"@, path)
    }

    fn validate_into(
        &self,
        path: &Vec<PathSegment>,
        patterns: &IdentifierPatterns,
        out: &mut Vec<ValidationViolation>,
    ) {
        let ghost before = reports_model(out@);
        let ghost here = path_model(path@);
        let ghost mut expected = Seq::<ReportModel>::empty();
        proof {
            lemma_nothing_added(before);
        }
        validate_field(&self.value, "ActiveOrHistoricCurrencyAndAmount", path, patterns, out);
        proof {
            let added = field_reports(self.value, "ActiveOrHistoricCurrencyAndAmount"@, here);
            lemma_more_added(before, expected, added);
            expected = expected + added;
        }
        validate_field(&self.ccy, "@Ccy", path, patterns, out);
        proof {
            let added = field_reports(self.ccy, "@Ccy"@, here);
            lemma_more_added(before, expected, added);
            expected = expected + added;
        }
    }
}

#[derive(Debug, Default, Clone, PartialEq)]
pub enum SuspendedStatusReason1Code {
    /// Serialized as `SUBY`.
    Suby,
    /// Serialized as `SUBS`.
    Subs,
    #[default]
    Unknown,
}

impl Validate for SuspendedStatusReason1Code {
    open spec fn violations(&self, path: Seq<SegmentModel>) -> Seq<ReportModel> {
        Seq::empty()
    }

    fn validate_into(
        &self,
        path: &Vec<PathSegment>,
        patterns: &IdentifierPatterns,
        out: &mut Vec<ValidationViolation>,
    ) {
        proof {
            lemma_nothing_added(reports_model(out@));
        }
    }
}

/// The alternatives of a choice: exactly one of them is populated.
#[derive(Debug, Default, Clone, PartialEq)]
pub struct RequestType4ChoiceEnum {
    /// Serialized as `Enqry`.
    pub enqry: Option<ExternalEnquiryRequestType1Code>,
    /// Serialized as `Prtry`.
    pub prtry: Option<GenericIdentification1>,
    /// Serialized as `PmtCtrl`.
    pub pmt_ctrl: Option<ExternalPaymentControlRequestType1Code>,
}

impl Validate for RequestType4ChoiceEnum {
    open spec fn violations(&self, path: Seq<SegmentModel>) -> Seq<ReportModel> {
        Seq::empty()
            + choice_reports(
                Seq::empty()
                    + name_if(self.enqry.is_some(), "Enqry"@)
                    + name_if(self.prtry.is_some(), "Prtry"@)
                    + name_if(self.pmt_ctrl.is_some(), "PmtCtrl"@),
                path,
            )
            + optional_reports(self.enqry, "Enqry"@, path)
            + optional_reports(self.prtry, "Prtry"@, path)
            + optional_reports(self.pmt_ctrl, "PmtCtrl"@, path)
    }

    fn validate_into(
        &self,
        path: &Vec<PathSegment>,
        patterns: &IdentifierPatterns,
        out: &mut Vec<ValidationViolation>,
    ) {
        let ghost before = reports_model(out@);
        let ghost here = path_model(path@);
        let ghost mut expected = Seq::<ReportModel>::empty();
        proof {
            lemma_nothing_added(before);
        }
        let mut present: Vec<String> = Vec::new();
        let ghost mut names = Seq::<Seq<char>>::empty();
        proof {
            assert(names_model(present@) =~= names);
        }
        note_present(self.enqry.is_some(), "Enqry", &mut present);
        proof {
            names = names + name_if(self.enqry.is_some(), "Enqry"@);
        }
        note_present(self.prtry.is_some(), "Prtry", &mut present);
        proof {
            names = names + name_if(self.prtry.is_some(), "Prtry"@);
        }
        note_present(self.pmt_ctrl.is_some(), "PmtCtrl", &mut present);
        proof {
            names = names + name_if(self.pmt_ctrl.is_some(), "PmtCtrl"@);
        }
        report_choice(present, path, out);
        proof {
            let added = choice_reports(names, here);
            lemma_more_added(before, expected, added);
            expected = expected + added;
        }
        validate_optional(&self.enqry, "Enqry", path, patterns, out);
        proof {
            let added = optional_reports(self.enqry, "Enqry"@, here);
            lemma_more_added(before, expected, added);
            expected = expected + added;
        }
        validate_optional(&self.prtry, "Prtry", path, patterns, out);
        proof {
            let added = optional_reports(self.prtry, "Prtry"@, here);
            lemma_more_added(before, expected, added);
            expected = expected + added;
        }
        validate_optional(&self.pmt_ctrl, "PmtCtrl", path, patterns, out);
        proof {
            let added = optional_reports(self.pmt_ctrl, "PmtCtrl"@, here);
            lemma_more_added(before, expected, added);
            expected = expected + added;
        }
    }
}

/// A choice, serialized as its populated alternative.
#[derive(Debug, Default, Clone, PartialEq)]
pub struct RequestType4Choice {
    /// Serialized in place, without an element of its own.
    pub value: RequestType4ChoiceEnum,
}

impl Validate for RequestType4Choice {
    open spec fn violations(&self, path: Seq<SegmentModel>) -> Seq<ReportModel> {
        Seq::empty()
            + self.value.violations(path)
    }

    fn validate_into(
        &self,
        path: &Vec<PathSegment>,
        patterns: &IdentifierPatterns,
        out: &mut Vec<ValidationViolation>,
    ) {
        let ghost before = reports_model(out@);
        let ghost here = path_model(path@);
        let ghost mut expected = Seq::<ReportModel>::empty();
        proof {
            lemma_nothing_added(before);
        }
        self.value.validate_into(path, patterns, out);
        proof {
            let added = self.value.violations(here);
            lemma_more_added(before, expected, added);
            expected = expected + added;
        }
    }
}

#[derive(Debug, Default, Clone, PartialEq)]
pub enum PendingSettlement2Code {
    /// Serialized as `AWMO`.
    Awmo,
    /// Serialized as `CAIS`.
    Cais,
    /// Serialized as `REFU`.
    Refu,
    /// Serialized as `AWSH`.
    Awsh,
    /// Serialized as `PHSE`.
    Phse,
    /// Serialized as `TAMM`.
    Tamm,
    /// Serialized as `DOCY`.
    Docy,
    /// Serialized as `DOCC`.
    Docc,
    /// Serialized as `BLOC`.
    Bloc,
    /// Serialized as `CHAS`.
    Chas,
    /// Serialized as `NEWI`.
    Newi,
    /// Serialized as `CLAC`.
    Clac,
    /// Serialized as `MUNO`.
    Muno,
    /// Serialized as `GLOB`.
    Glob,
    /// Serialized as `PREA`.
    Prea,
    /// Serialized as `GUAD`.
    Guad,
    /// Serialized as `PART`.
    Part,
    /// Serialized as `NMAS`.
    Nmas,
    /// Serialized as `CMON`.
    Cmon,
    /// Serialized as `YCOL`.
    Ycol,
    /// Serialized as `COLL`.
    Coll,
    /// Serialized as `DEPO`.
    Depo,
    /// Serialized as `FLIM`.
    Flim,
    /// Serialized as `NOFX`.
    Nofx,
    /// Serialized as `INCA`.
    Inca,
    /// Serialized as `LINK`.
    Link,
    /// Serialized as `FUTU`.
    Futu,
    /// Serialized as `LACK`.
    Lack,
    /// Serialized as `LALO`.
    Lalo,
    /// Serialized as `MONY`.
    Mony,
    /// Serialized as `NCON`.
    Ncon,
    /// Serialized as `REFS`.
    Refs,
    /// Serialized as `SDUT`.
    Sdut,
    /// Serialized as `BATC`.
    Batc,
    /// Serialized as `CYCL`.
    Cycl,
    /// Serialized as `SBLO`.
    Sblo,
    /// Serialized as `CPEC`.
    Cpec,
    /// Serialized as `MINO`.
    Mino,
    /// Serialized as `PCAP`.
    Pcap,
    #[default]
    Unknown,
}

impl Validate for PendingSettlement2Code {
    open spec fn violations(&self, path: Seq<SegmentModel>) -> Seq<ReportModel> {
        Seq::empty()
    }

    fn validate_into(
        &self,
        path: &Vec<PathSegment>,
        patterns: &IdentifierPatterns,
        out: &mut Vec<ValidationViolation>,
    ) {
        proof {
            lemma_nothing_added(reports_model(out@));
        }
    }
}

/// Text of 1 to 256 characters.
#[derive(Debug, Default, Clone, PartialEq)]
pub struct Max256Text {
    /// The text of the element.
    pub value: String,
}

impl Validate for Max256Text {
    open spec fn violations(&self, path: Seq<SegmentModel>) -> Seq<ReportModel> {
        Seq::empty()
            + length_reports(self.value@, Some(1), Some(256), path)
    }

    fn validate_into(
        &self,
        path: &Vec<PathSegment>,
        patterns: &IdentifierPatterns,
        out: &mut Vec<ValidationViolation>,
    ) {
        let ghost before = reports_model(out@);
        let ghost here = path_model(path@);
        let ghost mut expected = Seq::<ReportModel>::empty();
        proof {
            lemma_nothing_added(before);
        }
        report_length(self.value.as_str(), Some(1), Some(256), path, out);
        proof {
            let added = length_reports(self.value@, Some(1), Some(256), here);
            lemma_more_added(before, expected, added);
            expected = expected + added;
        }
    }
}

#[derive(Debug, Default, Clone, PartialEq)]
pub struct OrganisationIdentification29 {
    /// Serialized as `AnyBIC`.
    pub any_bic: Option<AnyBicDec2014Identifier>,
    /// Serialized as `LEI`.
    pub lei: Option<LeiIdentifier>,
    /// Serialized as `Othr`.
    pub othr: Vec<GenericOrganisationIdentification1>,
}

impl Validate for OrganisationIdentification29 {
    open spec fn violations(&self, path: Seq<SegmentModel>) -> Seq<ReportModel> {
        Seq::empty()
            + optional_reports(self.any_bic, "AnyBIC"@, path)
            + optional_reports(self.lei, "LEI"@, path)
            + list_reports(self.othr@, Some(0), None, "Othr"@, path)
    }

    fn validate_into(
        &self,
        path: &Vec<PathSegment>,
        patterns: &IdentifierPatterns,
        out: &mut Vec<ValidationViolation>,
    ) {
        let ghost before = reports_model(out@);
        let ghost here = path_model(path@);
        let ghost mut expected = Seq::<ReportModel>::empty();
        proof {
            lemma_nothing_added(before);
        }
        validate_optional(&self.any_bic, "AnyBIC", path, patterns, out);
        proof {
            let added = optional_reports(self.any_bic, "AnyBIC"@, here);
            lemma_more_added(before, expected, added);
            expected = expected + added;
        }
        validate_optional(&self.lei, "LEI", path, patterns, out);
        proof {
            let added = optional_reports(self.lei, "LEI"@, here);
            lemma_more_added(before, expected, added);
            expected = expected + added;
        }
        validate_list(&self.othr, Some(0), None, "Othr", path, patterns, out);
        proof {
            let added = list_reports(self.othr@, Some(0), None, "Othr"@, here);
            lemma_more_added(before, expected, added);
            expected = expected + added;
        }
    }
}

#[derive(Debug, Default, Clone, PartialEq)]
pub struct Transactions9 {
    /// Serialized as `PmtCmonInf`.
    pub pmt_cmon_inf: Option<PaymentCommon5>,
    /// Serialized as `TxsSummry`.
    pub txs_summry: Option<NumberAndSumOfTransactions2>,
    /// Serialized as `TxRpt`.
    pub tx_rpt: Vec<TransactionReport6>,
}

impl Validate for Transactions9 {
    open spec fn violations(&self, path: Seq<SegmentModel>) -> Seq<ReportModel> {
        Seq::empty()
            + optional_reports(self.pmt_cmon_inf, "PmtCmonInf"@, path)
            + optional_reports(self.txs_summry, "TxsSummry"@, path)
            + list_reports(self.tx_rpt@, Some(1), None, "TxRpt"@, path)
    }

    fn validate_into(
        &self,
        path: &Vec<PathSegment>,
        patterns: &IdentifierPatterns,
        out: &mut Vec<ValidationViolation>,
    ) {
        let ghost before = reports_model(out@);
        let ghost here = path_model(path@);
        let ghost mut expected = Seq::<ReportModel>::empty();
        proof {
            lemma_nothing_added(before);
        }
        validate_optional(&self.pmt_cmon_inf, "PmtCmonInf", path, patterns, out);
        proof {
            let added = optional_reports(self.pmt_cmon_inf, "PmtCmonInf"@, here);
            lemma_more_added(before, expected, added);
            expected = expected + added;
        }
        validate_optional(&self.txs_summry, "TxsSummry", path, patterns, out);
        proof {
            let added = optional_reports(self.txs_summry, "TxsSummry"@, here);
            lemma_more_added(before, expected, added);
            expected = expected + added;
        }
        validate_list(&self.tx_rpt, Some(1), None, "TxRpt", path, patterns, out);
        proof {
            let added = list_reports(self.tx_rpt@, Some(1), None, "TxRpt"@, here);
            lemma_more_added(before, expected, added);
            expected = expected + added;
        }
    }
}

#[derive(Debug, Default, Clone, PartialEq)]
pub enum AddressType2Code {
    /// Serialized as `ADDR`.
    Addr,
    /// Serialized as `PBOX`.
    Pbox,
    /// Serialized as `HOME`.
    Home,
    /// Serialized as `BIZZ`.
    Bizz,
    /// Serialized as `MLTO`.
    Mlto,
    /// Serialized as `DLVY`.
    Dlvy,
    #[default]
    Unknown,
}

impl Validate for AddressType2Code {
    open spec fn violations(&self, path: Seq<SegmentModel>) -> Seq<ReportModel> {
        Seq::empty()
    }

    fn validate_into(
        &self,
        path: &Vec<PathSegment>,
        patterns: &IdentifierPatterns,
        out: &mut Vec<ValidationViolation>,
    ) {
        proof {
            lemma_nothing_added(reports_model(out@));
        }
    }
}

/// A number.
#[derive(Debug, Default, Clone, PartialEq)]
pub struct Number {
    /// The text of the element.
    pub value: Decimal,
}

impl Validate for Number {
    open spec fn violations(&self, path: Seq<SegmentModel>) -> Seq<ReportModel> {
        Seq::empty()
    }

    fn validate_into(
        &self,
        path: &Vec<PathSegment>,
        patterns: &IdentifierPatterns,
        out: &mut Vec<ValidationViolation>,
    ) {
        proof {
            lemma_nothing_added(reports_model(out@));
        }
    }
}

#[derive(Debug, Default, Clone, PartialEq)]
pub struct ClearingSystemMemberIdentification2 {
    /// Serialized as `ClrSysId`.
    pub clr_sys_id: Option<ClearingSystemIdentification2Choice>,
    /// Serialized as `MmbId`.
    pub mmb_id: Max35Text,
}

impl Validate for ClearingSystemMemberIdentification2 {
    open spec fn violations(&self, path: Seq<SegmentModel>) -> Seq<ReportModel> {
        Seq::empty()
            + optional_reports(self.clr_sys_id, "ClrSysId"@, path)
            + field_reports(self.mmb_id, "MmbId"@, path)
    }

    fn validate_into(
        &self,
        path: &Vec<PathSegment>,
        patterns: &IdentifierPatterns,
        out: &mut Vec<ValidationViolation>,
    ) {
        let ghost before = reports_model(out@);
        let ghost here = path_model(path@);
        let ghost mut expected = Seq::<ReportModel>::empty();
        proof {
            lemma_nothing_added(before);
        }
        validate_optional(&self.clr_sys_id, "ClrSysId", path, patterns, out);
        proof {
            let added = optional_reports(self.clr_sys_id, "ClrSysId"@, here);
            lemma_more_added(before, expected, added);
            expected = expected + added;
        }
        validate_field(&self.mmb_id, "MmbId", path, patterns, out);
        proof {
            let added = field_reports(self.mmb_id, "MmbId"@, here);
            lemma_more_added(before, expected, added);
            expected = expected + added;
        }
    }
}

/// Text of 1 to 4 characters.
#[derive(Debug, Default, Clone, PartialEq)]
pub struct ExternalProxyAccountType1Code {
    /// The text of the element.
    pub value: String,
}

impl Validate for ExternalProxyAccountType1Code {
    open spec fn violations(&self, path: Seq<SegmentModel>) -> Seq<ReportModel> {
        Seq::empty()
            + length_reports(self.value@, Some(1), Some(4), path)
    }

    fn validate_into(
        &self,
        path: &Vec<PathSegment>,
        patterns: &IdentifierPatterns,
        out: &mut Vec<ValidationViolation>,
    ) {
        let ghost before = reports_model(out@);
        let ghost here = path_model(path@);
        let ghost mut expected = Seq::<ReportModel>::empty();
        proof {
            lemma_nothing_added(before);
        }
        report_length(self.value.as_str(), Some(1), Some(4), path, out);
        proof {
            let added = length_reports(self.value@, Some(1), Some(4), here);
            lemma_more_added(before, expected, added);
            expected = expected + added;
        }
    }
}

#[derive(Debug, Default, Clone, PartialEq)]
pub struct ErrorHandling5 {
    /// Serialized as `Err`.
    pub err: ErrorHandling3Choice,
    /// Serialized as `Desc`.
    pub desc: Option<Max140Text>,
}

impl Validate for ErrorHandling5 {
    open spec fn violations(&self, path: Seq<SegmentModel>) -> Seq<ReportModel> {
        Seq::empty()
            + field_reports(self.err, "Err"@, path)
            + optional_reports(self.desc, "Desc"@, path)
    }

    fn validate_into(
        &self,
        path: &Vec<PathSegment>,
        patterns: &IdentifierPatterns,
        out: &mut Vec<ValidationViolation>,
    ) {
        let ghost before = reports_model(out@);
        let ghost here = path_model(path@);
        let ghost mut expected = Seq::<ReportModel>::empty();
        proof {
            lemma_nothing_added(before);
        }
        validate_field(&self.err, "Err", path, patterns, out);
        proof {
            let added = field_reports(self.err, "Err"@, here);
            lemma_more_added(before, expected, added);
            expected = expected + added;
        }
        validate_optional(&self.desc, "Desc", path, patterns, out);
        proof {
            let added = optional_reports(self.desc, "Desc"@, here);
            lemma_more_added(before, expected, added);
            expected = expected + added;
        }
    }
}

/// Text of 1 to 4 characters.
#[derive(Debug, Default, Clone, PartialEq)]
pub struct ExternalFinancialInstitutionIdentification1Code {
    /// The text of the element.
    pub value: String,
}

impl Validate for ExternalFinancialInstitutionIdentification1Code {
    open spec fn violations(&self, path: Seq<SegmentModel>) -> Seq<ReportModel> {
        Seq::empty()
            + length_reports(self.value@, Some(1), Some(4), path)
    }

    fn validate_into(
        &self,
        path: &Vec<PathSegment>,
        patterns: &IdentifierPatterns,
        out: &mut Vec<ValidationViolation>,
    ) {
        let ghost before = reports_model(out@);
        let ghost here = path_model(path@);
        let ghost mut expected = Seq::<ReportModel>::empty();
        proof {
            lemma_nothing_added(before);
        }
        report_length(self.value.as_str(), Some(1), Some(4), path, out);
        proof {
            let added = length_reports(self.value@, Some(1), Some(4), here);
            lemma_more_added(before, expected, added);
            expected = expected + added;
        }
    }
}

#[derive(Debug, Default, Clone, PartialEq)]
pub struct PartyIdentification135 {
    /// Serialized as `Nm`.
    pub nm: Option<Max140Text>,
    /// Serialized as `PstlAdr`.
    pub pstl_adr: Option<PostalAddress24>,
    /// Serialized as `Id`.
    pub id: Option<Party38Choice>,
    /// Serialized as `CtryOfRes`.
    pub ctry_of_res: Option<CountryCode>,
    /// Serialized as `CtctDtls`.
    pub ctct_dtls: Option<Contact4>,
}

impl Validate for PartyIdentification135 {
    open spec fn violations(&self, path: Seq<SegmentModel>) -> Seq<ReportModel> {
        Seq::empty()
            + optional_reports(self.nm, "Nm"@, path)
            + optional_reports(self.pstl_adr, "PstlAdr"@, path)
            + optional_reports(self.id, "Id"@, path)
            + optional_reports(self.ctry_of_res, "CtryOfRes"@, path)
            + optional_reports(self.ctct_dtls, "CtctDtls"@, path)
    }

    fn validate_into(
        &self,
        path: &Vec<PathSegment>,
        patterns: &IdentifierPatterns,
        out: &mut Vec<ValidationViolation>,
    ) {
        let ghost before = reports_model(out@);
        let ghost here = path_model(path@);
        let ghost mut expected = Seq::<ReportModel>::empty();
        proof {
            lemma_nothing_added(before);
        }
        validate_optional(&self.nm, "Nm", path, patterns, out);
        proof {
            let added = optional_reports(self.nm, "Nm"@, here);
            lemma_more_added(before, expected, added);
            expected = expected + added;
        }
        validate_optional(&self.pstl_adr, "PstlAdr", path, patterns, out);
        proof {
            let added = optional_reports(self.pstl_adr, "PstlAdr"@, here);
            lemma_more_added(before, expected, added);
            expected = expected + added;
        }
        validate_optional(&self.id, "Id", path, patterns, out);
        proof {
            let added = optional_reports(self.id, "Id"@, here);
            lemma_more_added(before, expected, added);
            expected = expected + added;
        }
        validate_optional(&self.ctry_of_res, "CtryOfRes", path, patterns, out);
        proof {
            let added = optional_reports(self.ctry_of_res, "CtryOfRes"@, here);
            lemma_more_added(before, expected, added);
            expected = expected + added;
        }
        validate_optional(&self.ctct_dtls, "CtctDtls", path, patterns, out);
        proof {
            let added = optional_reports(self.ctct_dtls, "CtctDtls"@, here);
            lemma_more_added(before, expected, added);
            expected = expected + added;
        }
    }
}

/// Text that matches `[BEOVW]{1,1}[0-9]{2,2}|DUM`.
#[derive(Debug, Default, Clone, PartialEq)]
pub struct EntryTypeIdentifier {
    /// The text of the element.
    pub value: String,
}

impl Validate for EntryTypeIdentifier {
    open spec fn violations(&self, path: Seq<SegmentModel>) -> Seq<ReportModel> {
        Seq::empty()
            + pattern_reports(self.value@, "[BEOVW]{1,1}[0-9]{2,2}|DUM"@, path)
    }

    fn validate_into(
        &self,
        path: &Vec<PathSegment>,
        patterns: &IdentifierPatterns,
        out: &mut Vec<ValidationViolation>,
    ) {
        let ghost before = reports_model(out@);
        let ghost here = path_model(path@);
        let ghost mut expected = Seq::<ReportModel>::empty();
        proof {
            lemma_nothing_added(before);
        }
        report_pattern(self.value.as_str(), patterns.entry_type_identifier(), path, out);
        proof {
            let added = pattern_reports(self.value@, "[BEOVW]{1,1}[0-9]{2,2}|DUM"@, here);
            lemma_more_added(before, expected, added);
            expected = expected + added;
        }
    }
}

#[derive(Debug, Default, Clone, PartialEq)]
pub struct SecuritiesTransactionReferences1 {
    /// Serialized as `AcctOwnrTxId`.
    pub acct_ownr_tx_id: Option<Max35Text>,
    /// Serialized as `AcctSvcrTxId`.
    pub acct_svcr_tx_id: Option<Max35Text>,
    /// Serialized as `MktInfrstrctrTxId`.
    pub mkt_infrstrctr_tx_id: Option<Max35Text>,
    /// Serialized as `PrcgId`.
    pub prcg_id: Option<Max35Text>,
}

impl Validate for SecuritiesTransactionReferences1 {
    open spec fn violations(&self, path: Seq<SegmentModel>) -> Seq<ReportModel> {
        Seq::empty()
            + optional_reports(self.acct_ownr_tx_id, "AcctOwnrTxId"@, path)
            + optional_reports(self.acct_svcr_tx_id, "AcctSvcrTxId"@, path)
            + optional_reports(self.mkt_infrstrctr_tx_id, "MktInfrstrctrTxId"@, path)
            + optional_reports(self.prcg_id, "PrcgId"@, path)
    }

    fn validate_into(
        &self,
        path: &Vec<PathSegment>,
        patterns: &IdentifierPatterns,
        out: &mut Vec<ValidationViolation>,
    ) {
        let ghost before = reports_model(out@);
        let ghost here = path_model(path@);
        let ghost mut expected = Seq::<ReportModel>::empty();
        proof {
            lemma_nothing_added(before);
        }
        validate_optional(&self.acct_ownr_tx_id, "AcctOwnrTxId", path, patterns, out);
        proof {
            let added = optional_reports(self.acct_ownr_tx_id, "AcctOwnrTxId"@, here);
            lemma_more_added(before, expected, added);
            expected = expected + added;
        }
        validate_optional(&self.acct_svcr_tx_id, "AcctSvcrTxId", path, patterns, out);
        proof {
            let added = optional_reports(self.acct_svcr_tx_id, "AcctSvcrTxId"@, here);
            lemma_more_added(before, expected, added);
            expected = expected + added;
        }
        validate_optional(&self.mkt_infrstrctr_tx_id, "MktInfrstrctrTxId", path, patterns, out);
        proof {
            let added = optional_reports(self.mkt_infrstrctr_tx_id, "MktInfrstrctrTxId"@, here);
            lemma_more_added(before, expected, added);
            expected = expected + added;
        }
        validate_optional(&self.prcg_id, "PrcgId", path, patterns, out);
        proof {
            let added = optional_reports(self.prcg_id, "PrcgId"@, here);
            lemma_more_added(before, expected, added);
            expected = expected + added;
        }
    }
}

/// Text of 1 to 2048 characters.
#[derive(Debug, Default, Clone, PartialEq)]
pub struct Max2048Text {
    /// The text of the element.
    pub value: String,
}

impl Validate for Max2048Text {
    open spec fn violations(&self, path: Seq<SegmentModel>) -> Seq<ReportModel> {
        Seq::empty()
            + length_reports(self.value@, Some(1), Some(2048), path)
    }

    fn validate_into(
        &self,
        path: &Vec<PathSegment>,
        patterns: &IdentifierPatterns,
        out: &mut Vec<ValidationViolation>,
    ) {
        let ghost before = reports_model(out@);
        let ghost here = path_model(path@);
        let ghost mut expected = Seq::<ReportModel>::empty();
        proof {
            lemma_nothing_added(before);
        }
        report_length(self.value.as_str(), Some(1), Some(2048), path, out);
        proof {
            let added = length_reports(self.value@, Some(1), Some(2048), here);
            lemma_more_added(before, expected, added);
            expected = expected + added;
        }
    }
}

#[derive(Debug, Default, Clone, PartialEq)]
pub struct TrueFalseIndicator {
    /// The text of the element.
    pub value: bool,
}

impl Validate for TrueFalseIndicator {
    open spec fn violations(&self, path: Seq<SegmentModel>) -> Seq<ReportModel> {
        Seq::empty()
    }

    fn validate_into(
        &self,
        path: &Vec<PathSegment>,
        patterns: &IdentifierPatterns,
        out: &mut Vec<ValidationViolation>,
    ) {
        proof {
            lemma_nothing_added(reports_model(out@));
        }
    }
}

/// Text that matches `[0-9]{1,15}`.
#[derive(Debug, Default, Clone, PartialEq)]
pub struct Max15NumericText {
    /// The text of the element.
    pub value: String,
}

impl Validate for Max15NumericText {
    open spec fn violations(&self, path: Seq<SegmentModel>) -> Seq<ReportModel> {
        Seq::empty()
            + pattern_reports(self.value@, "[0-9]{1,15}"@, path)
    }

    fn validate_into(
        &self,
        path: &Vec<PathSegment>,
        patterns: &IdentifierPatterns,
        out: &mut Vec<ValidationViolation>,
    ) {
        let ghost before = reports_model(out@);
        let ghost here = path_model(path@);
        let ghost mut expected = Seq::<ReportModel>::empty();
        proof {
            lemma_nothing_added(before);
        }
        report_pattern(self.value.as_str(), patterns.max_15_numeric_text(), path, out);
        proof {
            let added = pattern_reports(self.value@, "[0-9]{1,15}"@, here);
            lemma_more_added(before, expected, added);
            expected = expected + added;
        }
    }
}

/// Text that matches `[A-Z0-9]{4,4}[A-Z]{2,2}[A-Z0-9]{2,2}([A-Z0-9]{3,3}){0,1}`.
#[derive(Debug, Default, Clone, PartialEq)]
pub struct BicfiDec2014Identifier {
    /// The text of the element.
    pub value: String,
}

impl Validate for BicfiDec2014Identifier {
    open spec fn violations(&self, path: Seq<SegmentModel>) -> Seq<ReportModel> {
        Seq::empty()
            + pattern_reports(self.value@, "[A-Z0-9]{4,4}[A-Z]{2,2}[A-Z0-9]{2,2}([A-Z0-9]{3,3}){0,1}"@, path)
    }

    fn validate_into(
        &self,
        path: &Vec<PathSegment>,
        patterns: &IdentifierPatterns,
        out: &mut Vec<ValidationViolation>,
    ) {
        let ghost before = reports_model(out@);
        let ghost here = path_model(path@);
        let ghost mut expected = Seq::<ReportModel>::empty();
        proof {
            lemma_nothing_added(before);
        }
        report_pattern(self.value.as_str(), patterns.bicfi_dec_2014_identifier(), path, out);
        proof {
            let added = pattern_reports(self.value@, "[A-Z0-9]{4,4}[A-Z]{2,2}[A-Z0-9]{2,2}([A-Z0-9]{3,3}){0,1}"@, here);
            lemma_more_added(before, expected, added);
            expected = expected + added;
        }
    }
}

#[derive(Debug, Default, Clone, PartialEq)]
pub struct BranchAndFinancialInstitutionIdentification6 {
    /// Serialized as `FinInstnId`.
    pub fin_instn_id: FinancialInstitutionIdentification18,
    /// Serialized as `BrnchId`.
    pub brnch_id: Option<BranchData3>,
}

impl Validate for BranchAndFinancialInstitutionIdentification6 {
    open spec fn violations(&self, path: Seq<SegmentModel>) -> Seq<ReportModel> {
        Seq::empty()
            + field_reports(self.fin_instn_id, "FinInstnId"@, path)
            + optional_reports(self.brnch_id, "BrnchId"@, path)
    }

    fn validate_into(
        &self,
        path: &Vec<PathSegment>,
        patterns: &IdentifierPatterns,
        out: &mut Vec<ValidationViolation>,
    ) {
        let ghost before = reports_model(out@);
        let ghost here = path_model(path@);
        let ghost mut expected = Seq::<ReportModel>::empty();
        proof {
            lemma_nothing_added(before);
        }
        validate_field(&self.fin_instn_id, "FinInstnId", path, patterns, out);
        proof {
            let added = field_reports(self.fin_instn_id, "FinInstnId"@, here);
            lemma_more_added(before, expected, added);
            expected = expected + added;
        }
        validate_optional(&self.brnch_id, "BrnchId", path, patterns, out);
        proof {
            let added = optional_reports(self.brnch_id, "BrnchId"@, here);
            lemma_more_added(before, expected, added);
            expected = expected + added;
        }
    }
}

#[derive(Debug, Default, Clone, PartialEq)]
pub struct LongPaymentIdentification2 {
    /// Serialized as `TxId`.
    pub tx_id: Option<Max35Text>,
    /// Serialized as `UETR`.
    pub uetr: Option<UuiDv4Identifier>,
    /// Serialized as `IntrBkSttlmAmt`.
    pub intr_bk_sttlm_amt: ImpliedCurrencyAndAmount,
    /// Serialized as `IntrBkSttlmDt`.
    pub intr_bk_sttlm_dt: IsoDate,
    /// Serialized as `PmtMtd`.
    pub pmt_mtd: Option<PaymentOrigin1Choice>,
    /// Serialized as `InstgAgt`.
    pub instg_agt: BranchAndFinancialInstitutionIdentification6,
    /// Serialized as `InstdAgt`.
    pub instd_agt: BranchAndFinancialInstitutionIdentification6,
    /// Serialized as `NtryTp`.
    pub ntry_tp: Option<EntryTypeIdentifier>,
    /// Serialized as `EndToEndId`.
    pub end_to_end_id: Option<Max35Text>,
}

impl Validate for LongPaymentIdentification2 {
    open spec fn violations(&self, path: Seq<SegmentModel>) -> Seq<ReportModel> {
        Seq::empty()
            + optional_reports(self.tx_id, "TxId"@, path)
            + optional_reports(self.uetr, "UETR"@, path)
            + field_reports(self.intr_bk_sttlm_amt, "IntrBkSttlmAmt"@, path)
            + field_reports(self.intr_bk_sttlm_dt, "IntrBkSttlmDt"@, path)
            + optional_reports(self.pmt_mtd, "PmtMtd"@, path)
            + field_reports(self.instg_agt, "InstgAgt"@, path)
            + field_reports(self.instd_agt, "InstdAgt"@, path)
            + optional_reports(self.ntry_tp, "NtryTp"@, path)
            + optional_reports(self.end_to_end_id, "EndToEndId"@, path)
    }

    fn validate_into(
        &self,
        path: &Vec<PathSegment>,
        patterns: &IdentifierPatterns,
        out: &mut Vec<ValidationViolation>,
    ) {
        let ghost before = reports_model(out@);
        let ghost here = path_model(path@);
        let ghost mut expected = Seq::<ReportModel>::empty();
        proof {
            lemma_nothing_added(before);
        }
        validate_optional(&self.tx_id, "TxId", path, patterns, out);
        proof {
            let added = optional_reports(self.tx_id, "TxId"@, here);
            lemma_more_added(before, expected, added);
            expected = expected + added;
        }
        validate_optional(&self.uetr, "UETR", path, patterns, out);
        proof {
            let added = optional_reports(self.uetr, "UETR"@, here);
            lemma_more_added(before, expected, added);
            expected = expected + added;
        }
        validate_field(&self.intr_bk_sttlm_amt, "IntrBkSttlmAmt", path, patterns, out);
        proof {
            let added = field_reports(self.intr_bk_sttlm_amt, "IntrBkSttlmAmt"@, here);
            lemma_more_added(before, expected, added);
            expected = expected + added;
        }
        validate_field(&self.intr_bk_sttlm_dt, "IntrBkSttlmDt", path, patterns, out);
        proof {
            let added = field_reports(self.intr_bk_sttlm_dt, "IntrBkSttlmDt"@, here);
            lemma_more_added(before, expected, added);
            expected = expected + added;
        }
        validate_optional(&self.pmt_mtd, "PmtMtd", path, patterns, out);
        proof {
            let added = optional_reports(self.pmt_mtd, "PmtMtd"@, here);
            lemma_more_added(before, expected, added);
            expected = expected + added;
        }
        validate_field(&self.instg_agt, "InstgAgt", path, patterns, out);
        proof {
            let added = field_reports(self.instg_agt, "InstgAgt"@, here);
            lemma_more_added(before, expected, added);
            expected = expected + added;
        }
        validate_field(&self.instd_agt, "InstdAgt", path, patterns, out);
        proof {
            let added = field_reports(self.instd_agt, "InstdAgt"@, here);
            lemma_more_added(before, expected, added);
            expected = expected + added;
        }
        validate_optional(&self.ntry_tp, "NtryTp", path, patterns, out);
        proof {
            let added = optional_reports(self.ntry_tp, "NtryTp"@, here);
            lemma_more_added(before, expected, added);
            expected = expected + added;
        }
        validate_optional(&self.end_to_end_id, "EndToEndId", path, patterns, out);
        proof {
            let added = optional_reports(self.end_to_end_id, "EndToEndId"@, here);
            lemma_more_added(before, expected, added);
            expected = expected + added;
        }
    }
}

/// The alternatives of a choice: exactly one of them is populated.
#[derive(Debug, Default, Clone, PartialEq)]
pub struct Party40ChoiceEnum {
    /// Serialized as `Agt`.
    pub agt: Option<BranchAndFinancialInstitutionIdentification6>,
    /// Serialized as `Pty`.
    pub pty: Option<PartyIdentification135>,
}

impl Validate for Party40ChoiceEnum {
    open spec fn violations(&self, path: Seq<SegmentModel>) -> Seq<ReportModel> {
        Seq::empty()
            + choice_reports(
                Seq::empty()
                    + name_if(self.agt.is_some(), "Agt"@)
                    + name_if(self.pty.is_some(), "Pty"@),
                path,
            )
            + optional_reports(self.agt, "Agt"@, path)
            + optional_reports(self.pty, "Pty"@, path)
    }

    fn validate_into(
        &self,
        path: &Vec<PathSegment>,
        patterns: &IdentifierPatterns,
        out: &mut Vec<ValidationViolation>,
    ) {
        let ghost before = reports_model(out@);
        let ghost here = path_model(path@);
        let ghost mut expected = Seq::<ReportModel>::empty();
        proof {
            lemma_nothing_added(before);
        }
        let mut present: Vec<String> = Vec::new();
        let ghost mut names = Seq::<Seq<char>>::empty();
        proof {
            assert(names_model(present@) =~= names);
        }
        note_present(self.agt.is_some(), "Agt", &mut present);
        proof {
            names = names + name_if(self.agt.is_some(), "Agt"@);
        }
        note_present(self.pty.is_some(), "Pty", &mut present);
        proof {
            names = names + name_if(self.pty.is_some(), "Pty"@);
        }
        report_choice(present, path, out);
        proof {
            let added = choice_reports(names, here);
            lemma_more_added(before, expected, added);
            expected = expected + added;
        }
        validate_optional(&self.agt, "Agt", path, patterns, out);
        proof {
            let added = optional_reports(self.agt, "Agt"@, here);
            lemma_more_added(before, expected, added);
            expected = expected + added;
        }
        validate_optional(&self.pty, "Pty", path, patterns, out);
        proof {
            let added = optional_reports(self.pty, "Pty"@, here);
            lemma_more_added(before, expected, added);
            expected = expected + added;
        }
    }
}

/// A choice, serialized as its populated alternative.
#[derive(Debug, Default, Clone, PartialEq)]
pub struct Party40Choice {
    /// Serialized in place, without an element of its own.
    pub value: Party40ChoiceEnum,
}

impl Validate for Party40Choice {
    open spec fn violations(&self, path: Seq<SegmentModel>) -> Seq<ReportModel> {
        Seq::empty()
            + self.value.violations(path)
    }

    fn validate_into(
        &self,
        path: &Vec<PathSegment>,
        patterns: &IdentifierPatterns,
        out: &mut Vec<ValidationViolation>,
    ) {
        let ghost before = reports_model(out@);
        let ghost here = path_model(path@);
        let ghost mut expected = Seq::<ReportModel>::empty();
        proof {
            lemma_nothing_added(before);
        }
        self.value.validate_into(path, patterns, out);
        proof {
            let added = self.value.violations(here);
            lemma_more_added(before, expected, added);
            expected = expected + added;
        }
    }
}

/// The alternatives of a choice: exactly one of them is populated.
#[derive(Debug, Default, Clone, PartialEq)]
pub struct PaymentOrigin1ChoiceEnum {
    /// Serialized as `FINMT`.
    pub finmt: Option<Max3NumericText>,
    /// Serialized as `XMLMsgNm`.
    pub xml_msg_nm: Option<Max35Text>,
    /// Serialized as `Instrm`.
    pub instrm: Option<PaymentInstrument1Code>,
    /// Serialized as `Prtry`.
    pub prtry: Option<Max35Text>,
}

impl Validate for PaymentOrigin1ChoiceEnum {
    open spec fn violations(&self, path: Seq<SegmentModel>) -> Seq<ReportModel> {
        Seq::empty()
            + choice_reports(
                Seq::empty()
                    + name_if(self.finmt.is_some(), "FINMT"@)
                    + name_if(self.xml_msg_nm.is_some(), "XMLMsgNm"@)
                    + name_if(self.instrm.is_some(), "Instrm"@)
                    + name_if(self.prtry.is_some(), "Prtry"@),
                path,
            )
            + optional_reports(self.finmt, "FINMT"@, path)
            + optional_reports(self.xml_msg_nm, "XMLMsgNm"@, path)
            + optional_reports(self.instrm, "Instrm"@, path)
            + optional_reports(self.prtry, "Prtry"@, path)
    }

    fn validate_into(
        &self,
        path: &Vec<PathSegment>,
        patterns: &IdentifierPatterns,
        out: &mut Vec<ValidationViolation>,
    ) {
        let ghost before = reports_model(out@);
        let ghost here = path_model(path@);
        let ghost mut expected = Seq::<ReportModel>::empty();
        proof {
            lemma_nothing_added(before);
        }
        let mut present: Vec<String> = Vec::new();
        let ghost mut names = Seq::<Seq<char>>::empty();
        proof {
            assert(names_model(present@) =~= names);
        }
        note_present(self.finmt.is_some(), "FINMT", &mut present);
        proof {
            names = names + name_if(self.finmt.is_some(), "FINMT"@);
        }
        note_present(self.xml_msg_nm.is_some(), "XMLMsgNm", &mut present);
        proof {
            names = names + name_if(self.xml_msg_nm.is_some(), "XMLMsgNm"@);
        }
        note_present(self.instrm.is_some(), "Instrm", &mut present);
        proof {
            names = names + name_if(self.instrm.is_some(), "Instrm"@);
        }
        note_present(self.prtry.is_some(), "Prtry", &mut present);
        proof {
            names = names + name_if(self.prtry.is_some(), "Prtry"@);
        }
        report_choice(present, path, out);
        proof {
            let added = choice_reports(names, here);
            lemma_more_added(before, expected, added);
            expected = expected + added;
        }
        validate_optional(&self.finmt, "FINMT", path, patterns, out);
        proof {
            let added = optional_reports(self.finmt, "FINMT"@, here);
            lemma_more_added(before, expected, added);
            expected = expected + added;
        }
        validate_optional(&self.xml_msg_nm, "XMLMsgNm", path, patterns, out);
        proof {
            let added = optional_reports(self.xml_msg_nm, "XMLMsgNm"@, here);
            lemma_more_added(before, expected, added);
            expected = expected + added;
        }
        validate_optional(&self.instrm, "Instrm", path, patterns, out);
        proof {
            let added = optional_reports(self.instrm, "Instrm"@, here);
            lemma_more_added(before, expected, added);
            expected = expected + added;
        }
        validate_optional(&self.prtry, "Prtry", path, patterns, out);
        proof {
            let added = optional_reports(self.prtry, "Prtry"@, here);
            lemma_more_added(before, expected, added);
            expected = expected + added;
        }
    }
}

/// A choice, serialized as its populated alternative.
#[derive(Debug, Default, Clone, PartialEq)]
pub struct PaymentOrigin1Choice {
    /// Serialized in place, without an element of its own.
    pub value: PaymentOrigin1ChoiceEnum,
}

impl Validate for PaymentOrigin1Choice {
    open spec fn violations(&self, path: Seq<SegmentModel>) -> Seq<ReportModel> {
        Seq::empty()
            + self.value.violations(path)
    }

    fn validate_into(
        &self,
        path: &Vec<PathSegment>,
        patterns: &IdentifierPatterns,
        out: &mut Vec<ValidationViolation>,
    ) {
        let ghost before = reports_model(out@);
        let ghost here = path_model(path@);
        let ghost mut expected = Seq::<ReportModel>::empty();
        proof {
            lemma_nothing_added(before);
        }
        self.value.validate_into(path, patterns, out);
        proof {
            let added = self.value.violations(here);
            lemma_more_added(before, expected, added);
            expected = expected + added;
        }
    }
}

#[derive(Debug, Default, Clone, PartialEq)]
pub enum EntryStatus1Code {
    /// Serialized as `BOOK`.
    Book,
    /// Serialized as `PDNG`.
    Pdng,
    /// Serialized as `FUTR`.
    Futr,
    #[default]
    Unknown,
}

impl Validate for EntryStatus1Code {
    open spec fn violations(&self, path: Seq<SegmentModel>) -> Seq<ReportModel> {
        Seq::empty()
    }

    fn validate_into(
        &self,
        path: &Vec<PathSegment>,
        patterns: &IdentifierPatterns,
        out: &mut Vec<ValidationViolation>,
    ) {
        proof {
            lemma_nothing_added(reports_model(out@));
        }
    }
}

#[derive(Debug, Default, Clone, PartialEq)]
pub struct DateAndPlaceOfBirth1 {
    /// Serialized as `BirthDt`.
    pub birth_dt: IsoDate,
    /// Serialized as `PrvcOfBirth`.
    pub prvc_of_birth: Option<Max35Text>,
    /// Serialized as `CityOfBirth`.
    pub city_of_birth: Max35Text,
    /// Serialized as `CtryOfBirth`.
    pub ctry_of_birth: CountryCode,
}

impl Validate for DateAndPlaceOfBirth1 {
    open spec fn violations(&self, path: Seq<SegmentModel>) -> Seq<ReportModel> {
        Seq::empty()
            + field_reports(self.birth_dt, "BirthDt"@, path)
            + optional_reports(self.prvc_of_birth, "PrvcOfBirth"@, path)
            + field_reports(self.city_of_birth, "CityOfBirth"@, path)
            + field_reports(self.ctry_of_birth, "CtryOfBirth"@, path)
    }

    fn validate_into(
        &self,
        path: &Vec<PathSegment>,
        patterns: &IdentifierPatterns,
        out: &mut Vec<ValidationViolation>,
    ) {
        let ghost before = reports_model(out@);
        let ghost here = path_model(path@);
        let ghost mut expected = Seq::<ReportModel>::empty();
        proof {
            lemma_nothing_added(before);
        }
        validate_field(&self.birth_dt, "BirthDt", path, patterns, out);
        proof {
            let added = field_reports(self.birth_dt, "BirthDt"@, here);
            lemma_more_added(before, expected, added);
            expected = expected + added;
        }
        validate_optional(&self.prvc_of_birth, "PrvcOfBirth", path, patterns, out);
        proof {
            let added = optional_reports(self.prvc_of_birth, "PrvcOfBirth"@, here);
            lemma_more_added(before, expected, added);
            expected = expected + added;
        }
        validate_field(&self.city_of_birth, "CityOfBirth", path, patterns, out);
        proof {
            let added = field_reports(self.city_of_birth, "CityOfBirth"@, here);
            lemma_more_added(before, expected, added);
            expected = expected + added;
        }
        validate_field(&self.ctry_of_birth, "CtryOfBirth", path, patterns, out);
        proof {
            let added = field_reports(self.ctry_of_birth, "CtryOfBirth"@, here);
            lemma_more_added(before, expected, added);
            expected = expected + added;
        }
    }
}

#[derive(Debug, Default, Clone, PartialEq)]
pub struct QueueTransactionIdentification1 {
    /// Serialized as `QId`.
    pub q_id: Max16Text,
    /// Serialized as `PosInQ`.
    pub pos_in_q: Max16Text,
}

impl Validate for QueueTransactionIdentification1 {
    open spec fn violations(&self, path: Seq<SegmentModel>) -> Seq<ReportModel> {
        Seq::empty()
            + field_reports(self.q_id, "QId"@, path)
            + field_reports(self.pos_in_q, "PosInQ"@, path)
    }

    fn validate_into(
        &self,
        path: &Vec<PathSegment>,
        patterns: &IdentifierPatterns,
        out: &mut Vec<ValidationViolation>,
    ) {
        let ghost before = reports_model(out@);
        let ghost here = path_model(path@);
        let ghost mut expected = Seq::<ReportModel>::empty();
        proof {
            lemma_nothing_added(before);
        }
        validate_field(&self.q_id, "QId", path, patterns, out);
        proof {
            let added = field_reports(self.q_id, "QId"@, here);
            lemma_more_added(before, expected, added);
            expected = expected + added;
        }
        validate_field(&self.pos_in_q, "PosInQ", path, patterns, out);
        proof {
            let added = field_reports(self.pos_in_q, "PosInQ"@, here);
            lemma_more_added(before, expected, added);
            expected = expected + added;
        }
    }
}

/// Text of 1 to 4 characters.
#[derive(Debug, Default, Clone, PartialEq)]
pub struct ExternalAccountIdentification1Code {
    /// The text of the element.
    pub value: String,
}

impl Validate for ExternalAccountIdentification1Code {
    open spec fn violations(&self, path: Seq<SegmentModel>) -> Seq<ReportModel> {
        Seq::empty()
            + length_reports(self.value@, Some(1), Some(4), path)
    }

    fn validate_into(
        &self,
        path: &Vec<PathSegment>,
        patterns: &IdentifierPatterns,
        out: &mut Vec<ValidationViolation>,
    ) {
        let ghost before = reports_model(out@);
        let ghost here = path_model(path@);
        let ghost mut expected = Seq::<ReportModel>::empty();
        proof {
            lemma_nothing_added(before);
        }
        report_length(self.value.as_str(), Some(1), Some(4), path, out);
        proof {
            let added = length_reports(self.value@, Some(1), Some(4), here);
            lemma_more_added(before, expected, added);
            expected = expected + added;
        }
    }
}

/// A number of at least 0.
#[derive(Debug, Default, Clone, PartialEq)]
pub struct ActiveCurrencyAndAmountSimpleType {
    /// The text of the element.
    pub value: Decimal,
}

impl Validate for ActiveCurrencyAndAmountSimpleType {
    open spec fn violations(&self, path: Seq<SegmentModel>) -> Seq<ReportModel> {
        Seq::empty()
            + range_reports(self.value, Some(Decimal::whole_spec(0)), None, path)
    }

    fn validate_into(
        &self,
        path: &Vec<PathSegment>,
        patterns: &IdentifierPatterns,
        out: &mut Vec<ValidationViolation>,
    ) {
        let ghost before = reports_model(out@);
        let ghost here = path_model(path@);
        let ghost mut expected = Seq::<ReportModel>::empty();
        proof {
            lemma_nothing_added(before);
        }
        report_range(self.value, Some(Decimal::whole(0)), None, path, out);
        proof {
            let added = range_reports(self.value, Some(Decimal::whole_spec(0)), None, here);
            lemma_more_added(before, expected, added);
            expected = expected + added;
        }
    }
}

/// The alternatives of a choice: exactly one of them is populated.
#[derive(Debug, Default, Clone, PartialEq)]
pub struct ErrorHandling3ChoiceEnum {
    /// Serialized as `Prtry`.
    pub prtry: Option<Max35Text>,
    /// Serialized as `Cd`.
    pub cd: Option<ExternalSystemErrorHandling1Code>,
}

impl Validate for ErrorHandling3ChoiceEnum {
    open spec fn violations(&self, path: Seq<SegmentModel>) -> Seq<ReportModel> {
        Seq::empty()
            + choice_reports(
                Seq::empty()
                    + name_if(self.prtry.is_some(), "Prtry"@)
                    + name_if(self.cd.is_some(), "Cd"@),
                path,
            )
            + optional_reports(self.prtry, "Prtry"@, path)
            + optional_reports(self.cd, "Cd"@, path)
    }

    fn validate_into(
        &self,
        path: &Vec<PathSegment>,
        patterns: &IdentifierPatterns,
        out: &mut Vec<ValidationViolation>,
    ) {
        let ghost before = reports_model(out@);
        let ghost here = path_model(path@);
        let ghost mut expected = Seq::<ReportModel>::empty();
        proof {
            lemma_nothing_added(before);
        }
        let mut present: Vec<String> = Vec::new();
        let ghost mut names = Seq::<Seq<char>>::empty();
        proof {
            assert(names_model(present@) =~= names);
        }
        note_present(self.prtry.is_some(), "Prtry", &mut present);
        proof {
            names = names + name_if(self.prtry.is_some(), "Prtry"@);
        }
        note_present(self.cd.is_some(), "Cd", &mut present);
        proof {
            names = names + name_if(self.cd.is_some(), "Cd"@);
        }
        report_choice(present, path, out);
        proof {
            let added = choice_reports(names, here);
            lemma_more_added(before, expected, added);
            expected = expected + added;
        }
        validate_optional(&self.prtry, "Prtry", path, patterns, out);
        proof {
            let added = optional_reports(self.prtry, "Prtry"@, here);
            lemma_more_added(before, expected, added);
            expected = expected + added;
        }
        validate_optional(&self.cd, "Cd", path, patterns, out);
        proof {
            let added = optional_reports(self.cd, "Cd"@, here);
            lemma_more_added(before, expected, added);
            expected = expected + added;
        }
    }
}

/// A choice, serialized as its populated alternative.
#[derive(Debug, Default, Clone, PartialEq)]
pub struct ErrorHandling3Choice {
    /// Serialized in place, without an element of its own.
    pub value: ErrorHandling3ChoiceEnum,
}

impl Validate for ErrorHandling3Choice {
    open spec fn violations(&self, path: Seq<SegmentModel>) -> Seq<ReportModel> {
        Seq::empty()
            + self.value.violations(path)
    }

    fn validate_into(
        &self,
        path: &Vec<PathSegment>,
        patterns: &IdentifierPatterns,
        out: &mut Vec<ValidationViolation>,
    ) {
        let ghost before = reports_model(out@);
        let ghost here = path_model(path@);
        let ghost mut expected = Seq::<ReportModel>::empty();
        proof {
            lemma_nothing_added(before);
        }
        self.value.validate_into(path, patterns, out);
        proof {
            let added = self.value.violations(here);
            lemma_more_added(before, expected, added);
            expected = expected + added;
        }
    }
}

#[derive(Debug, Default, Clone, PartialEq)]
pub struct Contact4 {
    /// Serialized as `NmPrfx`.
    pub nm_prfx: Option<NamePrefix2Code>,
    /// Serialized as `Nm`.
    pub nm: Option<Max140Text>,
    /// Serialized as `PhneNb`.
    pub phne_nb: Option<PhoneNumber>,
    /// Serialized as `MobNb`.
    pub mob_nb: Option<PhoneNumber>,
    /// Serialized as `FaxNb`.
    pub fax_nb: Option<PhoneNumber>,
    /// Serialized as `EmailAdr`.
    pub email_adr: Option<Max2048Text>,
    /// Serialized as `EmailPurp`.
    pub email_purp: Option<Max35Text>,
    /// Serialized as `JobTitl`.
    pub job_titl: Option<Max35Text>,
    /// Serialized as `Rspnsblty`.
    pub rspnsblty: Option<Max35Text>,
    /// Serialized as `Dept`.
    pub dept: Option<Max70Text>,
    /// Serialized as `Othr`.
    pub othr: Vec<OtherContact1>,
    /// Serialized as `PrefrdMtd`.
    pub prefrd_mtd: Option<PreferredContactMethod1Code>,
}

impl Validate for Contact4 {
    open spec fn violations(&self, path: Seq<SegmentModel>) -> Seq<ReportModel> {
        Seq::empty()
            + optional_reports(self.nm_prfx, "NmPrfx"@, path)
            + optional_reports(self.nm, "Nm"@, path)
            + optional_reports(self.phne_nb, "PhneNb"@, path)
            + optional_reports(self.mob_nb, "MobNb"@, path)
            + optional_reports(self.fax_nb, "FaxNb"@, path)
            + optional_reports(self.email_adr, "EmailAdr"@, path)
            + optional_reports(self.email_purp, "EmailPurp"@, path)
            + optional_reports(self.job_titl, "JobTitl"@, path)
            + optional_reports(self.rspnsblty, "Rspnsblty"@, path)
            + optional_reports(self.dept, "Dept"@, path)
            + list_reports(self.othr@, Some(0), None, "Othr"@, path)
            + optional_reports(self.prefrd_mtd, "PrefrdMtd"@, path)
    }

    fn validate_into(
        &self,
        path: &Vec<PathSegment>,
        patterns: &IdentifierPatterns,
        out: &mut Vec<ValidationViolation>,
    ) {
        let ghost before = reports_model(out@);
        let ghost here = path_model(path@);
        let ghost mut expected = Seq::<ReportModel>::empty();
        proof {
            lemma_nothing_added(before);
        }
        validate_optional(&self.nm_prfx, "NmPrfx", path, patterns, out);
        proof {
            let added = optional_reports(self.nm_prfx, "NmPrfx"@, here);
            lemma_more_added(before, expected, added);
            expected = expected + added;
        }
        validate_optional(&self.nm, "Nm", path, patterns, out);
        proof {
            let added = optional_reports(self.nm, "Nm"@, here);
            lemma_more_added(before, expected, added);
            expected = expected + added;
        }
        validate_optional(&self.phne_nb, "PhneNb", path, patterns, out);
        proof {
            let added = optional_reports(self.phne_nb, "PhneNb"@, here);
            lemma_more_added(before, expected, added);
            expected = expected + added;
        }
        validate_optional(&self.mob_nb, "MobNb", path, patterns, out);
        proof {
            let added = optional_reports(self.mob_nb, "MobNb"@, here);
            lemma_more_added(before, expected, added);
            expected = expected + added;
        }
        validate_optional(&self.fax_nb, "FaxNb", path, patterns, out);
        proof {
            let added = optional_reports(self.fax_nb, "FaxNb"@, here);
            lemma_more_added(before, expected, added);
            expected = expected + added;
        }
        validate_optional(&self.email_adr, "EmailAdr", path, patterns, out);
        proof {
            let added = optional_reports(self.email_adr, "EmailAdr"@, here);
            lemma_more_added(before, expected, added);
            expected = expected + added;
        }
        validate_optional(&self.email_purp, "EmailPurp", path, patterns, out);
        proof {
            let added = optional_reports(self.email_purp, "EmailPurp"@, here);
            lemma_more_added(before, expected, added);
            expected = expected + added;
        }
        validate_optional(&self.job_titl, "JobTitl", path, patterns, out);
        proof {
            let added = optional_reports(self.job_titl, "JobTitl"@, here);
            lemma_more_added(before, expected, added);
            expected = expected + added;
        }
        validate_optional(&self.rspnsblty, "Rspnsblty", path, patterns, out);
        proof {
            let added = optional_reports(self.rspnsblty, "Rspnsblty"@, here);
            lemma_more_added(before, expected, added);
            expected = expected + added;
        }
        validate_optional(&self.dept, "Dept", path, patterns, out);
        proof {
            let added = optional_reports(self.dept, "Dept"@, here);
            lemma_more_added(before, expected, added);
            expected = expected + added;
        }
        validate_list(&self.othr, Some(0), None, "Othr", path, patterns, out);
        proof {
            let added = list_reports(self.othr@, Some(0), None, "Othr"@, here);
            lemma_more_added(before, expected, added);
            expected = expected + added;
        }
        validate_optional(&self.prefrd_mtd, "PrefrdMtd", path, patterns, out);
        proof {
            let added = optional_reports(self.prefrd_mtd, "PrefrdMtd"@, here);
            lemma_more_added(before, expected, added);
            expected = expected + added;
        }
    }
}

#[derive(Debug, Default, Clone, PartialEq)]
pub enum CancelledStatusReason1Code {
    /// Serialized as `CANI`.
    Cani,
    /// Serialized as `CANS`.
    Cans,
    /// Serialized as `CSUB`.
    Csub,
    #[default]
    Unknown,
}

impl Validate for CancelledStatusReason1Code {
    open spec fn violations(&self, path: Seq<SegmentModel>) -> Seq<ReportModel> {
        Seq::empty()
    }

    fn validate_into(
        &self,
        path: &Vec<PathSegment>,
        patterns: &IdentifierPatterns,
        out: &mut Vec<ValidationViolation>,
    ) {
        proof {
            lemma_nothing_added(reports_model(out@));
        }
    }
}

/// The alternatives of a choice: exactly one of them is populated.
#[derive(Debug, Default, Clone, PartialEq)]
pub struct Amount3ChoiceEnum {
    /// Serialized as `AmtWthCcy`.
    pub amt_wth_ccy: Option<ActiveOrHistoricCurrencyAndAmount>,
    /// Serialized as `AmtWthtCcy`.
    pub amt_wtht_ccy: Option<ImpliedCurrencyAndAmount>,
}

impl Validate for Amount3ChoiceEnum {
    open spec fn violations(&self, path: Seq<SegmentModel>) -> Seq<ReportModel> {
        Seq::empty()
            + choice_reports(
                Seq::empty()
                    + name_if(self.amt_wth_ccy.is_some(), "AmtWthCcy"@)
                    + name_if(self.amt_wtht_ccy.is_some(), "AmtWthtCcy"@),
                path,
            )
            + optional_reports(self.amt_wth_ccy, "AmtWthCcy"@, path)
            + optional_reports(self.amt_wtht_ccy, "AmtWthtCcy"@, path)
    }

    fn validate_into(
        &self,
        path: &Vec<PathSegment>,
        patterns: &IdentifierPatterns,
        out: &mut Vec<ValidationViolation>,
    ) {
        let ghost before = reports_model(out@);
        let ghost here = path_model(path@);
        let ghost mut expected = Seq::<ReportModel>::empty();
        proof {
            lemma_nothing_added(before);
        }
        let mut present: Vec<String> = Vec::new();
        let ghost mut names = Seq::<Seq<char>>::empty();
        proof {
            assert(names_model(present@) =~= names);
        }
        note_present(self.amt_wth_ccy.is_some(), "AmtWthCcy", &mut present);
        proof {
            names = names + name_if(self.amt_wth_ccy.is_some(), "AmtWthCcy"@);
        }
        note_present(self.amt_wtht_ccy.is_some(), "AmtWthtCcy", &mut present);
        proof {
            names = names + name_if(self.amt_wtht_ccy.is_some(), "AmtWthtCcy"@);
        }
        report_choice(present, path, out);
        proof {
            let added = choice_reports(names, here);
            lemma_more_added(before, expected, added);
            expected = expected + added;
        }
        validate_optional(&self.amt_wth_ccy, "AmtWthCcy", path, patterns, out);
        proof {
            let added = optional_reports(self.amt_wth_ccy, "AmtWthCcy"@, here);
            lemma_more_added(before, expected, added);
            expected = expected + added;
        }
        validate_optional(&self.amt_wtht_ccy, "AmtWthtCcy", path, patterns, out);
        proof {
            let added = optional_reports(self.amt_wtht_ccy, "AmtWthtCcy"@, here);
            lemma_more_added(before, expected, added);
            expected = expected + added;
        }
    }
}

/// A choice, serialized as its populated alternative.
#[derive(Debug, Default, Clone, PartialEq)]
pub struct Amount3Choice {
    /// Serialized in place, without an element of its own.
    pub value: Amount3ChoiceEnum,
}

impl Validate for Amount3Choice {
    open spec fn violations(&self, path: Seq<SegmentModel>) -> Seq<ReportModel> {
        Seq::empty()
            + self.value.violations(path)
    }

    fn validate_into(
        &self,
        path: &Vec<PathSegment>,
        patterns: &IdentifierPatterns,
        out: &mut Vec<ValidationViolation>,
    ) {
        let ghost before = reports_model(out@);
        let ghost here = path_model(path@);
        let ghost mut expected = Seq::<ReportModel>::empty();
        proof {
            lemma_nothing_added(before);
        }
        self.value.validate_into(path, patterns, out);
        proof {
            let added = self.value.violations(here);
            lemma_more_added(before, expected, added);
            expected = expected + added;
        }
    }
}

/// Text that matches `[a-zA-Z0-9]{4}`.
#[derive(Debug, Default, Clone, PartialEq)]
pub struct Exact4AlphaNumericText {
    /// The text of the element.
    pub value: String,
}

impl Validate for Exact4AlphaNumericText {
    open spec fn violations(&self, path: Seq<SegmentModel>) -> Seq<ReportModel> {
        Seq::empty()
            + pattern_reports(self.value@, "[a-zA-Z0-9]{4}"@, path)
    }

    fn validate_into(
        &self,
        path: &Vec<PathSegment>,
        patterns: &IdentifierPatterns,
        out: &mut Vec<ValidationViolation>,
    ) {
        let ghost before = reports_model(out@);
        let ghost here = path_model(path@);
        let ghost mut expected = Seq::<ReportModel>::empty();
        proof {
            lemma_nothing_added(before);
        }
        report_pattern(self.value.as_str(), patterns.exact_4_alpha_numeric_text(), path, out);
        proof {
            let added = pattern_reports(self.value@, "[a-zA-Z0-9]{4}"@, here);
            lemma_more_added(before, expected, added);
            expected = expected + added;
        }
    }
}

/// The alternatives of a choice: exactly one of them is populated.
#[derive(Debug, Default, Clone, PartialEq)]
pub struct Priority1ChoiceEnum {
    /// Serialized as `Cd`.
    pub cd: Option<Priority5Code>,
    /// Serialized as `Prtry`.
    pub prtry: Option<Max35Text>,
}

impl Validate for Priority1ChoiceEnum {
    open spec fn violations(&self, path: Seq<SegmentModel>) -> Seq<ReportModel> {
        Seq::empty()
            + choice_reports(
                Seq::empty()
                    + name_if(self.cd.is_some(), "Cd"@)
                    + name_if(self.prtry.is_some(), "Prtry"@),
                path,
            )
            + optional_reports(self.cd, "Cd"@, path)
            + optional_reports(self.prtry, "Prtry"@, path)
    }

    fn validate_into(
        &self,
        path: &Vec<PathSegment>,
        patterns: &IdentifierPatterns,
        out: &mut Vec<ValidationViolation>,
    ) {
        let ghost before = reports_model(out@);
        let ghost here = path_model(path@);
        let ghost mut expected = Seq::<ReportModel>::empty();
        proof {
            lemma_nothing_added(before);
        }
        let mut present: Vec<String> = Vec::new();
        let ghost mut names = Seq::<Seq<char>>::empty();
        proof {
            assert(names_model(present@) =~= names);
        }
        note_present(self.cd.is_some(), "Cd", &mut present);
        proof {
            names = names + name_if(self.cd.is_some(), "Cd"@);
        }
        note_present(self.prtry.is_some(), "Prtry", &mut present);
        proof {
            names = names + name_if(self.prtry.is_some(), "Prtry"@);
        }
        report_choice(present, path, out);
        proof {
            let added = choice_reports(names, here);
            lemma_more_added(before, expected, added);
            expected = expected + added;
        }
        validate_optional(&self.cd, "Cd", path, patterns, out);
        proof {
            let added = optional_reports(self.cd, "Cd"@, here);
            lemma_more_added(before, expected, added);
            expected = expected + added;
        }
        validate_optional(&self.prtry, "Prtry", path, patterns, out);
        proof {
            let added = optional_reports(self.prtry, "Prtry"@, here);
            lemma_more_added(before, expected, added);
            expected = expected + added;
        }
    }
}

/// A choice, serialized as its populated alternative.
#[derive(Debug, Default, Clone, PartialEq)]
pub struct Priority1Choice {
    /// Serialized in place, without an element of its own.
    pub value: Priority1ChoiceEnum,
}

impl Validate for Priority1Choice {
    open spec fn violations(&self, path: Seq<SegmentModel>) -> Seq<ReportModel> {
        Seq::empty()
            + self.value.violations(path)
    }

    fn validate_into(
        &self,
        path: &Vec<PathSegment>,
        patterns: &IdentifierPatterns,
        out: &mut Vec<ValidationViolation>,
    ) {
        let ghost before = reports_model(out@);
        let ghost here = path_model(path@);
        let ghost mut expected = Seq::<ReportModel>::empty();
        proof {
            lemma_nothing_added(before);
        }
        self.value.validate_into(path, patterns, out);
        proof {
            let added = self.value.violations(here);
            lemma_more_added(before, expected, added);
            expected = expected + added;
        }
    }
}

#[derive(Debug, Default, Clone, PartialEq)]
pub struct OriginalBusinessQuery1 {
    /// Serialized as `MsgId`.
    pub msg_id: Max35Text,
    /// Serialized as `MsgNmId`.
    pub msg_nm_id: Option<Max35Text>,
    /// Serialized as `CreDtTm`.
    pub cre_dt_tm: Option<IsoDateTime>,
}

impl Validate for OriginalBusinessQuery1 {
    open spec fn violations(&self, path: Seq<SegmentModel>) -> Seq<ReportModel> {
        Seq::empty()
            + field_reports(self.msg_id, "MsgId"@, path)
            + optional_reports(self.msg_nm_id, "MsgNmId"@, path)
            + optional_reports(self.cre_dt_tm, "CreDtTm"@, path)
    }

    fn validate_into(
        &self,
        path: &Vec<PathSegment>,
        patterns: &IdentifierPatterns,
        out: &mut Vec<ValidationViolation>,
    ) {
        let ghost before = reports_model(out@);
        let ghost here = path_model(path@);
        let ghost mut expected = Seq::<ReportModel>::empty();
        proof {
            lemma_nothing_added(before);
        }
        validate_field(&self.msg_id, "MsgId", path, patterns, out);
        proof {
            let added = field_reports(self.msg_id, "MsgId"@, here);
            lemma_more_added(before, expected, added);
            expected = expected + added;
        }
        validate_optional(&self.msg_nm_id, "MsgNmId", path, patterns, out);
        proof {
            let added = optional_reports(self.msg_nm_id, "MsgNmId"@, here);
            lemma_more_added(before, expected, added);
            expected = expected + added;
        }
        validate_optional(&self.cre_dt_tm, "CreDtTm", path, patterns, out);
        proof {
            let added = optional_reports(self.cre_dt_tm, "CreDtTm"@, here);
            lemma_more_added(before, expected, added);
            expected = expected + added;
        }
    }
}

/// Text of 1 to 4 characters.
#[derive(Debug, Default, Clone, PartialEq)]
pub struct ExternalEnquiryRequestType1Code {
    /// The text of the element.
    pub value: String,
}

impl Validate for ExternalEnquiryRequestType1Code {
    open spec fn violations(&self, path: Seq<SegmentModel>) -> Seq<ReportModel> {
        Seq::empty()
            + length_reports(self.value@, Some(1), Some(4), path)
    }

    fn validate_into(
        &self,
        path: &Vec<PathSegment>,
        patterns: &IdentifierPatterns,
        out: &mut Vec<ValidationViolation>,
    ) {
        let ghost before = reports_model(out@);
        let ghost here = path_model(path@);
        let ghost mut expected = Seq::<ReportModel>::empty();
        proof {
            lemma_nothing_added(before);
        }
        report_length(self.value.as_str(), Some(1), Some(4), path, out);
        proof {
            let added = length_reports(self.value@, Some(1), Some(4), here);
            lemma_more_added(before, expected, added);
            expected = expected + added;
        }
    }
}

#[derive(Debug, Default, Clone, PartialEq)]
pub struct GenericAccountIdentification1 {
    /// Serialized as `Id`.
    pub id: Max34Text,
    /// Serialized as `SchmeNm`.
    pub schme_nm: Option<AccountSchemeName1Choice>,
    /// Serialized as `Issr`.
    pub issr: Option<Max35Text>,
}

impl Validate for GenericAccountIdentification1 {
    open spec fn violations(&self, path: Seq<SegmentModel>) -> Seq<ReportModel> {
        Seq::empty()
            + field_reports(self.id, "Id"@, path)
            + optional_reports(self.schme_nm, "SchmeNm"@, path)
            + optional_reports(self.issr, "Issr"@, path)
    }

    fn validate_into(
        &self,
        path: &Vec<PathSegment>,
        patterns: &IdentifierPatterns,
        out: &mut Vec<ValidationViolation>,
    ) {
        let ghost before = reports_model(out@);
        let ghost here = path_model(path@);
        let ghost mut expected = Seq::<ReportModel>::empty();
        proof {
            lemma_nothing_added(before);
        }
        validate_field(&self.id, "Id", path, patterns, out);
        proof {
            let added = field_reports(self.id, "Id"@, here);
            lemma_more_added(before, expected, added);
            expected = expected + added;
        }
        validate_optional(&self.schme_nm, "SchmeNm", path, patterns, out);
        proof {
            let added = optional_reports(self.schme_nm, "SchmeNm"@, here);
            lemma_more_added(before, expected, added);
            expected = expected + added;
        }
        validate_optional(&self.issr, "Issr", path, patterns, out);
        proof {
            let added = optional_reports(self.issr, "Issr"@, here);
            lemma_more_added(before, expected, added);
            expected = expected + added;
        }
    }
}

/// Text of 1 to 70 characters.
#[derive(Debug, Default, Clone, PartialEq)]
pub struct Max70Text {
    /// The text of the element.
    pub value: String,
}

impl Validate for Max70Text {
    open spec fn violations(&self, path: Seq<SegmentModel>) -> Seq<ReportModel> {
        Seq::empty()
            + length_reports(self.value@, Some(1), Some(70), path)
    }

    fn validate_into(
        &self,
        path: &Vec<PathSegment>,
        patterns: &IdentifierPatterns,
        out: &mut Vec<ValidationViolation>,
    ) {
        let ghost before = reports_model(out@);
        let ghost here = path_model(path@);
        let ghost mut expected = Seq::<ReportModel>::empty();
        proof {
            lemma_nothing_added(before);
        }
        report_length(self.value.as_str(), Some(1), Some(70), path, out);
        proof {
            let added = length_reports(self.value@, Some(1), Some(70), here);
            lemma_more_added(before, expected, added);
            expected = expected + added;
        }
    }
}

#[derive(Debug, Default, Clone, PartialEq)]
pub enum PaymentInstrument1Code {
    /// Serialized as `BDT`.
    Bdt,
    /// Serialized as `BCT`.
    Bct,
    /// Serialized as `CDT`.
    Cdt,
    /// Serialized as `CCT`.
    Cct,
    /// Serialized as `CHK`.
    Chk,
    /// Serialized as `BKT`.
    Bkt,
    /// Serialized as `DCP`.
    Dcp,
    /// Serialized as `CCP`.
    Ccp,
    /// Serialized as `RTI`.
    Rti,
    /// Serialized as `CAN`.
    Can,
    #[default]
    Unknown,
}

impl Validate for PaymentInstrument1Code {
    open spec fn violations(&self, path: Seq<SegmentModel>) -> Seq<ReportModel> {
        Seq::empty()
    }

    fn validate_into(
        &self,
        path: &Vec<PathSegment>,
        patterns: &IdentifierPatterns,
        out: &mut Vec<ValidationViolation>,
    ) {
        proof {
            lemma_nothing_added(reports_model(out@));
        }
    }
}

/// A calendar date.
#[derive(Debug, Default, Clone, PartialEq)]
pub struct IsoDate {
    /// The text of the element. A calendar date in ISO 8601 form.
    pub value: String,
}

impl Validate for IsoDate {
    open spec fn violations(&self, path: Seq<SegmentModel>) -> Seq<ReportModel> {
        Seq::empty()
    }

    fn validate_into(
        &self,
        path: &Vec<PathSegment>,
        patterns: &IdentifierPatterns,
        out: &mut Vec<ValidationViolation>,
    ) {
        proof {
            lemma_nothing_added(reports_model(out@));
        }
    }
}

/// Text that matches `[0-9]{1,3}`.
#[derive(Debug, Default, Clone, PartialEq)]
pub struct Max3NumericText {
    /// The text of the element.
    pub value: String,
}

impl Validate for Max3NumericText {
    open spec fn violations(&self, path: Seq<SegmentModel>) -> Seq<ReportModel> {
        Seq::empty()
            + pattern_reports(self.value@, "[0-9]{1,3}"@, path)
    }

    fn validate_into(
        &self,
        path: &Vec<PathSegment>,
        patterns: &IdentifierPatterns,
        out: &mut Vec<ValidationViolation>,
    ) {
        let ghost before = reports_model(out@);
        let ghost here = path_model(path@);
        let ghost mut expected = Seq::<ReportModel>::empty();
        proof {
            lemma_nothing_added(before);
        }
        report_pattern(self.value.as_str(), patterns.max_3_numeric_text(), path, out);
        proof {
            let added = pattern_reports(self.value@, "[0-9]{1,3}"@, here);
            lemma_more_added(before, expected, added);
            expected = expected + added;
        }
    }
}

/// The alternatives of a choice: exactly one of them is populated.
#[derive(Debug, Default, Clone, PartialEq)]
pub struct TransactionOrError5ChoiceEnum {
    /// Serialized as `Tx`.
    pub tx: Option<Transaction74>,
    /// Serialized as `BizErr`.
    pub biz_err: Option<ErrorHandling5>,
}

impl Validate for TransactionOrError5ChoiceEnum {
    open spec fn violations(&self, path: Seq<SegmentModel>) -> Seq<ReportModel> {
        Seq::empty()
            + choice_reports(
                Seq::empty()
                    + name_if(self.tx.is_some(), "Tx"@)
                    + name_if(self.biz_err.is_some(), "BizErr"@),
                path,
            )
            + optional_reports(self.tx, "Tx"@, path)
            + optional_reports(self.biz_err, "BizErr"@, path)
    }

    fn validate_into(
        &self,
        path: &Vec<PathSegment>,
        patterns: &IdentifierPatterns,
        out: &mut Vec<ValidationViolation>,
    ) {
        let ghost before = reports_model(out@);
        let ghost here = path_model(path@);
        let ghost mut expected = Seq::<ReportModel>::empty();
        proof {
            lemma_nothing_added(before);
        }
        let mut present: Vec<String> = Vec::new();
        let ghost mut names = Seq::<Seq<char>>::empty();
        proof {
            assert(names_model(present@) =~= names);
        }
        note_present(self.tx.is_some(), "Tx", &mut present);
        proof {
            names = names + name_if(self.tx.is_some(), "Tx"@);
        }
        note_present(self.biz_err.is_some(), "BizErr", &mut present);
        proof {
            names = names + name_if(self.biz_err.is_some(), "BizErr"@);
        }
        report_choice(present, path, out);
        proof {
            let added = choice_reports(names, here);
            lemma_more_added(before, expected, added);
            expected = expected + added;
        }
        validate_optional(&self.tx, "Tx", path, patterns, out);
        proof {
            let added = optional_reports(self.tx, "Tx"@, here);
            lemma_more_added(before, expected, added);
            expected = expected + added;
        }
        validate_optional(&self.biz_err, "BizErr", path, patterns, out);
        proof {
            let added = optional_reports(self.biz_err, "BizErr"@, here);
            lemma_more_added(before, expected, added);
            expected = expected + added;
        }
    }
}

/// A choice, serialized as its populated alternative.
#[derive(Debug, Default, Clone, PartialEq)]
pub struct TransactionOrError5Choice {
    /// Serialized in place, without an element of its own.
    pub value: TransactionOrError5ChoiceEnum,
}

impl Validate for TransactionOrError5Choice {
    open spec fn violations(&self, path: Seq<SegmentModel>) -> Seq<ReportModel> {
        Seq::empty()
            + self.value.violations(path)
    }

    fn validate_into(
        &self,
        path: &Vec<PathSegment>,
        patterns: &IdentifierPatterns,
        out: &mut Vec<ValidationViolation>,
    ) {
        let ghost before = reports_model(out@);
        let ghost here = path_model(path@);
        let ghost mut expected = Seq::<ReportModel>::empty();
        proof {
            lemma_nothing_added(before);
        }
        self.value.validate_into(path, patterns, out);
        proof {
            let added = self.value.violations(here);
            lemma_more_added(before, expected, added);
            expected = expected + added;
        }
    }
}

/// The alternatives of a choice: exactly one of them is populated.
#[derive(Debug, Default, Clone, PartialEq)]
pub struct CashAccountType2ChoiceEnum {
    /// Serialized as `Prtry`.
    pub prtry: Option<Max35Text>,
    /// Serialized as `Cd`.
    pub cd: Option<ExternalCashAccountType1Code>,
}

impl Validate for CashAccountType2ChoiceEnum {
    open spec fn violations(&self, path: Seq<SegmentModel>) -> Seq<ReportModel> {
        Seq::empty()
            + choice_reports(
                Seq::empty()
                    + name_if(self.prtry.is_some(), "Prtry"@)
                    + name_if(self.cd.is_some(), "Cd"@),
                path,
            )
            + optional_reports(self.prtry, "Prtry"@, path)
            + optional_reports(self.cd, "Cd"@, path)
    }

    fn validate_into(
        &self,
        path: &Vec<PathSegment>,
        patterns: &IdentifierPatterns,
        out: &mut Vec<ValidationViolation>,
    ) {
        let ghost before = reports_model(out@);
        let ghost here = path_model(path@);
        let ghost mut expected = Seq::<ReportModel>::empty();
        proof {
            lemma_nothing_added(before);
        }
        let mut present: Vec<String> = Vec::new();
        let ghost mut names = Seq::<Seq<char>>::empty();
        proof {
            assert(names_model(present@) =~= names);
        }
        note_present(self.prtry.is_some(), "Prtry", &mut present);
        proof {
            names = names + name_if(self.prtry.is_some(), "Prtry"@);
        }
        note_present(self.cd.is_some(), "Cd", &mut present);
        proof {
            names = names + name_if(self.cd.is_some(), "Cd"@);
        }
        report_choice(present, path, out);
        proof {
            let added = choice_reports(names, here);
            lemma_more_added(before, expected, added);
            expected = expected + added;
        }
        validate_optional(&self.prtry, "Prtry", path, patterns, out);
        proof {
            let added = optional_reports(self.prtry, "Prtry"@, here);
            lemma_more_added(before, expected, added);
            expected = expected + added;
        }
        validate_optional(&self.cd, "Cd", path, patterns, out);
        proof {
            let added = optional_reports(self.cd, "Cd"@, here);
            lemma_more_added(before, expected, added);
            expected = expected + added;
        }
    }
}

/// A choice, serialized as its populated alternative.
#[derive(Debug, Default, Clone, PartialEq)]
pub struct CashAccountType2Choice {
    /// Serialized in place, without an element of its own.
    pub value: CashAccountType2ChoiceEnum,
}

impl Validate for CashAccountType2Choice {
    open spec fn violations(&self, path: Seq<SegmentModel>) -> Seq<ReportModel> {
        Seq::empty()
            + self.value.violations(path)
    }

    fn validate_into(
        &self,
        path: &Vec<PathSegment>,
        patterns: &IdentifierPatterns,
        out: &mut Vec<ValidationViolation>,
    ) {
        let ghost before = reports_model(out@);
        let ghost here = path_model(path@);
        let ghost mut expected = Seq::<ReportModel>::empty();
        proof {
            lemma_nothing_added(before);
        }
        self.value.validate_into(path, patterns, out);
        proof {
            let added = self.value.violations(here);
            lemma_more_added(before, expected, added);
            expected = expected + added;
        }
    }
}

/// The alternatives of a choice: exactly one of them is populated.
#[derive(Debug, Default, Clone, PartialEq)]
pub struct Party38ChoiceEnum {
    /// Serialized as `OrgId`.
    pub org_id: Option<OrganisationIdentification29>,
    /// Serialized as `PrvtId`.
    pub prvt_id: Option<PersonIdentification13>,
}

impl Validate for Party38ChoiceEnum {
    open spec fn violations(&self, path: Seq<SegmentModel>) -> Seq<ReportModel> {
        Seq::empty()
            + choice_reports(
                Seq::empty()
                    + name_if(self.org_id.is_some(), "OrgId"@)
                    + name_if(self.prvt_id.is_some(), "PrvtId"@),
                path,
            )
            + optional_reports(self.org_id, "OrgId"@, path)
            + optional_reports(self.prvt_id, "PrvtId"@, path)
    }

    fn validate_into(
        &self,
        path: &Vec<PathSegment>,
        patterns: &IdentifierPatterns,
        out: &mut Vec<ValidationViolation>,
    ) {
        let ghost before = reports_model(out@);
        let ghost here = path_model(path@);
        let ghost mut expected = Seq::<ReportModel>::empty();
        proof {
            lemma_nothing_added(before);
        }
        let mut present: Vec<String> = Vec::new();
        let ghost mut names = Seq::<Seq<char>>::empty();
        proof {
            assert(names_model(present@) =~= names);
        }
        note_present(self.org_id.is_some(), "OrgId", &mut present);
        proof {
            names = names + name_if(self.org_id.is_some(), "OrgId"@);
        }
        note_present(self.prvt_id.is_some(), "PrvtId", &mut present);
        proof {
            names = names + name_if(self.prvt_id.is_some(), "PrvtId"@);
        }
        report_choice(present, path, out);
        proof {
            let added = choice_reports(names, here);
            lemma_more_added(before, expected, added);
            expected = expected + added;
        }
        validate_optional(&self.org_id, "OrgId", path, patterns, out);
        proof {
            let added = optional_reports(self.org_id, "OrgId"@, here);
            lemma_more_added(before, expected, added);
            expected = expected + added;
        }
        validate_optional(&self.prvt_id, "PrvtId", path, patterns, out);
        proof {
            let added = optional_reports(self.prvt_id, "PrvtId"@, here);
            lemma_more_added(before, expected, added);
            expected = expected + added;
        }
    }
}

/// A choice, serialized as its populated alternative.
#[derive(Debug, Default, Clone, PartialEq)]
pub struct Party38Choice {
    /// Serialized in place, without an element of its own.
    pub value: Party38ChoiceEnum,
}

impl Validate for Party38Choice {
    open spec fn violations(&self, path: Seq<SegmentModel>) -> Seq<ReportModel> {
        Seq::empty()
            + self.value.violations(path)
    }

    fn validate_into(
        &self,
        path: &Vec<PathSegment>,
        patterns: &IdentifierPatterns,
        out: &mut Vec<ValidationViolation>,
    ) {
        let ghost before = reports_model(out@);
        let ghost here = path_model(path@);
        let ghost mut expected = Seq::<ReportModel>::empty();
        proof {
            lemma_nothing_added(before);
        }
        self.value.validate_into(path, patterns, out);
        proof {
            let added = self.value.violations(here);
            lemma_more_added(before, expected, added);
            expected = expected + added;
        }
    }
}

/// Text that matches `\+[0-9]{1,3}-[0-9()+\-]{1,30}`.
#[derive(Debug, Default, Clone, PartialEq)]
pub struct PhoneNumber {
    /// The text of the element.
    pub value: String,
}

impl Validate for PhoneNumber {
    open spec fn violations(&self, path: Seq<SegmentModel>) -> Seq<ReportModel> {
        Seq::empty()
            + pattern_reports(self.value@, "\\+[0-9]{1,3}-[0-9()+\\-]{1,30}"@, path)
    }

    fn validate_into(
        &self,
        path: &Vec<PathSegment>,
        patterns: &IdentifierPatterns,
        out: &mut Vec<ValidationViolation>,
    ) {
        let ghost before = reports_model(out@);
        let ghost here = path_model(path@);
        let ghost mut expected = Seq::<ReportModel>::empty();
        proof {
            lemma_nothing_added(before);
        }
        report_pattern(self.value.as_str(), patterns.phone_number(), path, out);
        proof {
            let added = pattern_reports(self.value@, "\\+[0-9]{1,3}-[0-9()+\\-]{1,30}"@, here);
            lemma_more_added(before, expected, added);
            expected = expected + added;
        }
    }
}

#[derive(Debug, Default, Clone, PartialEq)]
pub struct Document<A> {
    /// Serialized as `RtrTx`.
    pub rtr_tx: ReturnTransactionV09<A>,
    /// Serialized as the attribute `xmlns`.
    pub xmlns: String,
}

impl<A: Validate> Validate for Document<A> {
    open spec fn violations(&self, path: Seq<SegmentModel>) -> Seq<ReportModel> {
        Seq::empty()
            + field_reports(self.rtr_tx, "RtrTx"@, path)
    }

    fn validate_into(
        &self,
        path: &Vec<PathSegment>,
        patterns: &IdentifierPatterns,
        out: &mut Vec<ValidationViolation>,
    ) {
        let ghost before = reports_model(out@);
        let ghost here = path_model(path@);
        let ghost mut expected = Seq::<ReportModel>::empty();
        proof {
            lemma_nothing_added(before);
        }
        validate_field(&self.rtr_tx, "RtrTx", path, patterns, out);
        proof {
            let added = field_reports(self.rtr_tx, "RtrTx"@, here);
            lemma_more_added(before, expected, added);
            expected = expected + added;
        }
    }
}

#[derive(Debug, Default, Clone, PartialEq)]
pub struct MessageHeader8 {
    /// Serialized as `MsgId`.
    pub msg_id: Max35Text,
    /// Serialized as `CreDtTm`.
    pub cre_dt_tm: Option<IsoDateTime>,
    /// Serialized as `MsgPgntn`.
    pub msg_pgntn: Option<Pagination1>,
    /// Serialized as `OrgnlBizQry`.
    pub orgnl_biz_qry: Option<OriginalBusinessQuery1>,
    /// Serialized as `ReqTp`.
    pub req_tp: Option<RequestType4Choice>,
    /// Serialized as `QryNm`.
    pub qry_nm: Option<Max35Text>,
}

impl Validate for MessageHeader8 {
    open spec fn violations(&self, path: Seq<SegmentModel>) -> Seq<ReportModel> {
        Seq::empty()
            + field_reports(self.msg_id, "MsgId"@, path)
            + optional_reports(self.cre_dt_tm, "CreDtTm"@, path)
            + optional_reports(self.msg_pgntn, "MsgPgntn"@, path)
            + optional_reports(self.orgnl_biz_qry, "OrgnlBizQry"@, path)
            + optional_reports(self.req_tp, "ReqTp"@, path)
            + optional_reports(self.qry_nm, "QryNm"@, path)
    }

    fn validate_into(
        &self,
        path: &Vec<PathSegment>,
        patterns: &IdentifierPatterns,
        out: &mut Vec<ValidationViolation>,
    ) {
        let ghost before = reports_model(out@);
        let ghost here = path_model(path@);
        let ghost mut expected = Seq::<ReportModel>::empty();
        proof {
            lemma_nothing_added(before);
        }
        validate_field(&self.msg_id, "MsgId", path, patterns, out);
        proof {
            let added = field_reports(self.msg_id, "MsgId"@, here);
            lemma_more_added(before, expected, added);
            expected = expected + added;
        }
        validate_optional(&self.cre_dt_tm, "CreDtTm", path, patterns, out);
        proof {
            let added = optional_reports(self.cre_dt_tm, "CreDtTm"@, here);
            lemma_more_added(before, expected, added);
            expected = expected + added;
        }
        validate_optional(&self.msg_pgntn, "MsgPgntn", path, patterns, out);
        proof {
            let added = optional_reports(self.msg_pgntn, "MsgPgntn"@, here);
            lemma_more_added(before, expected, added);
            expected = expected + added;
        }
        validate_optional(&self.orgnl_biz_qry, "OrgnlBizQry", path, patterns, out);
        proof {
            let added = optional_reports(self.orgnl_biz_qry, "OrgnlBizQry"@, here);
            lemma_more_added(before, expected, added);
            expected = expected + added;
        }
        validate_optional(&self.req_tp, "ReqTp", path, patterns, out);
        proof {
            let added = optional_reports(self.req_tp, "ReqTp"@, here);
            lemma_more_added(before, expected, added);
            expected = expected + added;
        }
        validate_optional(&self.qry_nm, "QryNm", path, patterns, out);
        proof {
            let added = optional_reports(self.qry_nm, "QryNm"@, here);
            lemma_more_added(before, expected, added);
            expected = expected + added;
        }
    }
}

/// Text of 1 to 4 characters.
#[derive(Debug, Default, Clone, PartialEq)]
pub struct ExternalCashAccountType1Code {
    /// The text of the element.
    pub value: String,
}

impl Validate for ExternalCashAccountType1Code {
    open spec fn violations(&self, path: Seq<SegmentModel>) -> Seq<ReportModel> {
        Seq::empty()
            + length_reports(self.value@, Some(1), Some(4), path)
    }

    fn validate_into(
        &self,
        path: &Vec<PathSegment>,
        patterns: &IdentifierPatterns,
        out: &mut Vec<ValidationViolation>,
    ) {
        let ghost before = reports_model(out@);
        let ghost here = path_model(path@);
        let ghost mut expected = Seq::<ReportModel>::empty();
        proof {
            lemma_nothing_added(before);
        }
        report_length(self.value.as_str(), Some(1), Some(4), path, out);
        proof {
            let added = length_reports(self.value@, Some(1), Some(4), here);
            lemma_more_added(before, expected, added);
            expected = expected + added;
        }
    }
}

#[derive(Debug, Default, Clone, PartialEq)]
pub struct Pagination1 {
    /// Serialized as `PgNb`.
    pub pg_nb: Max5NumericText,
    /// Serialized as `LastPgInd`.
    pub last_pg_ind: YesNoIndicator,
}

impl Validate for Pagination1 {
    open spec fn violations(&self, path: Seq<SegmentModel>) -> Seq<ReportModel> {
        Seq::empty()
            + field_reports(self.pg_nb, "PgNb"@, path)
            + field_reports(self.last_pg_ind, "LastPgInd"@, path)
    }

    fn validate_into(
        &self,
        path: &Vec<PathSegment>,
        patterns: &IdentifierPatterns,
        out: &mut Vec<ValidationViolation>,
    ) {
        let ghost before = reports_model(out@);
        let ghost here = path_model(path@);
        let ghost mut expected = Seq::<ReportModel>::empty();
        proof {
            lemma_nothing_added(before);
        }
        validate_field(&self.pg_nb, "PgNb", path, patterns, out);
        proof {
            let added = field_reports(self.pg_nb, "PgNb"@, here);
            lemma_more_added(before, expected, added);
            expected = expected + added;
        }
        validate_field(&self.last_pg_ind, "LastPgInd", path, patterns, out);
        proof {
            let added = field_reports(self.last_pg_ind, "LastPgInd"@, here);
            lemma_more_added(before, expected, added);
            expected = expected + added;
        }
    }
}

#[derive(Debug, Default, Clone, PartialEq)]
pub struct GenericIdentification30 {
    /// Serialized as `Id`.
    pub id: Exact4AlphaNumericText,
    /// Serialized as `Issr`.
    pub issr: Max35Text,
    /// Serialized as `SchmeNm`.
    pub schme_nm: Option<Max35Text>,
}

impl Validate for GenericIdentification30 {
    open spec fn violations(&self, path: Seq<SegmentModel>) -> Seq<ReportModel> {
        Seq::empty()
            + field_reports(self.id, "Id"@, path)
            + field_reports(self.issr, "Issr"@, path)
            + optional_reports(self.schme_nm, "SchmeNm"@, path)
    }

    fn validate_into(
        &self,
        path: &Vec<PathSegment>,
        patterns: &IdentifierPatterns,
        out: &mut Vec<ValidationViolation>,
    ) {
        let ghost before = reports_model(out@);
        let ghost here = path_model(path@);
        let ghost mut expected = Seq::<ReportModel>::empty();
        proof {
            lemma_nothing_added(before);
        }
        validate_field(&self.id, "Id", path, patterns, out);
        proof {
            let added = field_reports(self.id, "Id"@, here);
            lemma_more_added(before, expected, added);
            expected = expected + added;
        }
        validate_field(&self.issr, "Issr", path, patterns, out);
        proof {
            let added = field_reports(self.issr, "Issr"@, here);
            lemma_more_added(before, expected, added);
            expected = expected + added;
        }
        validate_optional(&self.schme_nm, "SchmeNm", path, patterns, out);
        proof {
            let added = optional_reports(self.schme_nm, "SchmeNm"@, here);
            lemma_more_added(before, expected, added);
            expected = expected + added;
        }
    }
}

/// Text of 1 to 350 characters.
#[derive(Debug, Default, Clone, PartialEq)]
pub struct Max350Text {
    /// The text of the element.
    pub value: String,
}

impl Validate for Max350Text {
    open spec fn violations(&self, path: Seq<SegmentModel>) -> Seq<ReportModel> {
        Seq::empty()
            + length_reports(self.value@, Some(1), Some(350), path)
    }

    fn validate_into(
        &self,
        path: &Vec<PathSegment>,
        patterns: &IdentifierPatterns,
        out: &mut Vec<ValidationViolation>,
    ) {
        let ghost before = reports_model(out@);
        let ghost here = path_model(path@);
        let ghost mut expected = Seq::<ReportModel>::empty();
        proof {
            lemma_nothing_added(before);
        }
        report_length(self.value.as_str(), Some(1), Some(350), path, out);
        proof {
            let added = length_reports(self.value@, Some(1), Some(350), here);
            lemma_more_added(before, expected, added);
            expected = expected + added;
        }
    }
}

/// The alternatives of a choice: exactly one of them is populated.
#[derive(Debug, Default, Clone, PartialEq)]
pub struct ClearingSystemIdentification2ChoiceEnum {
    /// Serialized as `Prtry`.
    pub prtry: Option<Max35Text>,
    /// Serialized as `Cd`.
    pub cd: Option<ExternalClearingSystemIdentification1Code>,
}

impl Validate for ClearingSystemIdentification2ChoiceEnum {
    open spec fn violations(&self, path: Seq<SegmentModel>) -> Seq<ReportModel> {
        Seq::empty()
            + choice_reports(
                Seq::empty()
                    + name_if(self.prtry.is_some(), "Prtry"@)
                    + name_if(self.cd.is_some(), "Cd"@),
                path,
            )
            + optional_reports(self.prtry, "Prtry"@, path)
            + optional_reports(self.cd, "Cd"@, path)
    }

    fn validate_into(
        &self,
        path: &Vec<PathSegment>,
        patterns: &IdentifierPatterns,
        out: &mut Vec<ValidationViolation>,
    ) {
        let ghost before = reports_model(out@);
        let ghost here = path_model(path@);
        let ghost mut expected = Seq::<ReportModel>::empty();
        proof {
            lemma_nothing_added(before);
        }
        let mut present: Vec<String> = Vec::new();
        let ghost mut names = Seq::<Seq<char>>::empty();
        proof {
            assert(names_model(present@) =~= names);
        }
        note_present(self.prtry.is_some(), "Prtry", &mut present);
        proof {
            names = names + name_if(self.prtry.is_some(), "Prtry"@);
        }
        note_present(self.cd.is_some(), "Cd", &mut present);
        proof {
            names = names + name_if(self.cd.is_some(), "Cd"@);
        }
        report_choice(present, path, out);
        proof {
            let added = choice_reports(names, here);
            lemma_more_added(before, expected, added);
            expected = expected + added;
        }
        validate_optional(&self.prtry, "Prtry", path, patterns, out);
        proof {
            let added = optional_reports(self.prtry, "Prtry"@, here);
            lemma_more_added(before, expected, added);
            expected = expected + added;
        }
        validate_optional(&self.cd, "Cd", path, patterns, out);
        proof {
            let added = optional_reports(self.cd, "Cd"@, here);
            lemma_more_added(before, expected, added);
            expected = expected + added;
        }
    }
}

/// A choice, serialized as its populated alternative.
#[derive(Debug, Default, Clone, PartialEq)]
pub struct ClearingSystemIdentification2Choice {
    /// Serialized in place, without an element of its own.
    pub value: ClearingSystemIdentification2ChoiceEnum,
}

impl Validate for ClearingSystemIdentification2Choice {
    open spec fn violations(&self, path: Seq<SegmentModel>) -> Seq<ReportModel> {
        Seq::empty()
            + self.value.violations(path)
    }

    fn validate_into(
        &self,
        path: &Vec<PathSegment>,
        patterns: &IdentifierPatterns,
        out: &mut Vec<ValidationViolation>,
    ) {
        let ghost before = reports_model(out@);
        let ghost here = path_model(path@);
        let ghost mut expected = Seq::<ReportModel>::empty();
        proof {
            lemma_nothing_added(before);
        }
        self.value.validate_into(path, patterns, out);
        proof {
            let added = self.value.violations(here);
            lemma_more_added(before, expected, added);
            expected = expected + added;
        }
    }
}

#[derive(Debug, Default, Clone, PartialEq)]
pub enum Priority5Code {
    /// Serialized as `HIGH`.
    High,
    /// Serialized as `LOWW`.
    Loww,
    /// Serialized as `NORM`.
    Norm,
    /// Serialized as `URGT`.
    Urgt,
    #[default]
    Unknown,
}

impl Validate for Priority5Code {
    open spec fn violations(&self, path: Seq<SegmentModel>) -> Seq<ReportModel> {
        Seq::empty()
    }

    fn validate_into(
        &self,
        path: &Vec<PathSegment>,
        patterns: &IdentifierPatterns,
        out: &mut Vec<ValidationViolation>,
    ) {
        proof {
            lemma_nothing_added(reports_model(out@));
        }
    }
}

#[derive(Debug, Default, Clone, PartialEq)]
pub struct OtherContact1 {
    /// Serialized as `ChanlTp`.
    pub chanl_tp: Max4Text,
    /// Serialized as `Id`.
    pub id: Option<Max128Text>,
}

impl Validate for OtherContact1 {
    open spec fn violations(&self, path: Seq<SegmentModel>) -> Seq<ReportModel> {
        Seq::empty()
            + field_reports(self.chanl_tp, "ChanlTp"@, path)
            + optional_reports(self.id, "Id"@, path)
    }

    fn validate_into(
        &self,
        path: &Vec<PathSegment>,
        patterns: &IdentifierPatterns,
        out: &mut Vec<ValidationViolation>,
    ) {
        let ghost before = reports_model(out@);
        let ghost here = path_model(path@);
        let ghost mut expected = Seq::<ReportModel>::empty();
        proof {
            lemma_nothing_added(before);
        }
        validate_field(&self.chanl_tp, "ChanlTp", path, patterns, out);
        proof {
            let added = field_reports(self.chanl_tp, "ChanlTp"@, here);
            lemma_more_added(before, expected, added);
            expected = expected + added;
        }
        validate_optional(&self.id, "Id", path, patterns, out);
        proof {
            let added = optional_reports(self.id, "Id"@, here);
            lemma_more_added(before, expected, added);
            expected = expected + added;
        }
    }
}

/// Text that matches `[A-Z]{2,2}[0-9]{2,2}[a-zA-Z0-9]{1,30}`.
#[derive(Debug, Default, Clone, PartialEq)]
pub struct Iban2007Identifier {
    /// The text of the element.
    pub value: String,
}

impl Validate for Iban2007Identifier {
    open spec fn violations(&self, path: Seq<SegmentModel>) -> Seq<ReportModel> {
        Seq::empty()
            + pattern_reports(self.value@, "[A-Z]{2,2}[0-9]{2,2}[a-zA-Z0-9]{1,30}"@, path)
    }

    fn validate_into(
        &self,
        path: &Vec<PathSegment>,
        patterns: &IdentifierPatterns,
        out: &mut Vec<ValidationViolation>,
    ) {
        let ghost before = reports_model(out@);
        let ghost here = path_model(path@);
        let ghost mut expected = Seq::<ReportModel>::empty();
        proof {
            lemma_nothing_added(before);
        }
        report_pattern(self.value.as_str(), patterns.iban_2007_identifier(), path, out);
        proof {
            let added = pattern_reports(self.value@, "[A-Z]{2,2}[0-9]{2,2}[a-zA-Z0-9]{1,30}"@, here);
            lemma_more_added(before, expected, added);
            expected = expected + added;
        }
    }
}

/// Text that matches `[a-f0-9]{8}-[a-f0-9]{4}-4[a-f0-9]{3}-[89ab][a-f0-9]{3}-[a-f0-9]{12}`.
#[derive(Debug, Default, Clone, PartialEq)]
pub struct UuiDv4Identifier {
    /// The text of the element.
    pub value: String,
}

impl Validate for UuiDv4Identifier {
    open spec fn violations(&self, path: Seq<SegmentModel>) -> Seq<ReportModel> {
        Seq::empty()
            + pattern_reports(self.value@, "[a-f0-9]{8}-[a-f0-9]{4}-4[a-f0-9]{3}-[89ab][a-f0-9]{3}-[a-f0-9]{12}"@, path)
    }

    fn validate_into(
        &self,
        path: &Vec<PathSegment>,
        patterns: &IdentifierPatterns,
        out: &mut Vec<ValidationViolation>,
    ) {
        let ghost before = reports_model(out@);
        let ghost here = path_model(path@);
        let ghost mut expected = Seq::<ReportModel>::empty();
        proof {
            lemma_nothing_added(before);
        }
        report_pattern(self.value.as_str(), patterns.uui_dv_4_identifier(), path, out);
        proof {
            let added = pattern_reports(self.value@, "[a-f0-9]{8}-[a-f0-9]{4}-4[a-f0-9]{3}-[89ab][a-f0-9]{3}-[a-f0-9]{12}"@, here);
            lemma_more_added(before, expected, added);
            expected = expected + added;
        }
    }
}

/// Text of 1 to 4 characters.
#[derive(Debug, Default, Clone, PartialEq)]
pub struct ExternalPersonIdentification1Code {
    /// The text of the element.
    pub value: String,
}

impl Validate for ExternalPersonIdentification1Code {
    open spec fn violations(&self, path: Seq<SegmentModel>) -> Seq<ReportModel> {
        Seq::empty()
            + length_reports(self.value@, Some(1), Some(4), path)
    }

    fn validate_into(
        &self,
        path: &Vec<PathSegment>,
        patterns: &IdentifierPatterns,
        out: &mut Vec<ValidationViolation>,
    ) {
        let ghost before = reports_model(out@);
        let ghost here = path_model(path@);
        let ghost mut expected = Seq::<ReportModel>::empty();
        proof {
            lemma_nothing_added(before);
        }
        report_length(self.value.as_str(), Some(1), Some(4), path, out);
        proof {
            let added = length_reports(self.value@, Some(1), Some(4), here);
            lemma_more_added(before, expected, added);
            expected = expected + added;
        }
    }
}

#[derive(Debug, Default, Clone, PartialEq)]
pub struct DateTimePeriod1 {
    /// Serialized as `FrDtTm`.
    pub fr_dt_tm: IsoDateTime,
    /// Serialized as `ToDtTm`.
    pub to_dt_tm: IsoDateTime,
}

impl Validate for DateTimePeriod1 {
    open spec fn violations(&self, path: Seq<SegmentModel>) -> Seq<ReportModel> {
        Seq::empty()
            + field_reports(self.fr_dt_tm, "FrDtTm"@, path)
            + field_reports(self.to_dt_tm, "ToDtTm"@, path)
    }

    fn validate_into(
        &self,
        path: &Vec<PathSegment>,
        patterns: &IdentifierPatterns,
        out: &mut Vec<ValidationViolation>,
    ) {
        let ghost before = reports_model(out@);
        let ghost here = path_model(path@);
        let ghost mut expected = Seq::<ReportModel>::empty();
        proof {
            lemma_nothing_added(before);
        }
        validate_field(&self.fr_dt_tm, "FrDtTm", path, patterns, out);
        proof {
            let added = field_reports(self.fr_dt_tm, "FrDtTm"@, here);
            lemma_more_added(before, expected, added);
            expected = expected + added;
        }
        validate_field(&self.to_dt_tm, "ToDtTm", path, patterns, out);
        proof {
            let added = field_reports(self.to_dt_tm, "ToDtTm"@, here);
            lemma_more_added(before, expected, added);
            expected = expected + added;
        }
    }
}

#[derive(Debug, Default, Clone, PartialEq)]
pub struct ProprietaryStatusJustification2 {
    /// Serialized as `PrtryStsRsn`.
    pub prtry_sts_rsn: Max4AlphaNumericText,
    /// Serialized as `Rsn`.
    pub rsn: Max256Text,
}

impl Validate for ProprietaryStatusJustification2 {
    open spec fn violations(&self, path: Seq<SegmentModel>) -> Seq<ReportModel> {
        Seq::empty()
            + field_reports(self.prtry_sts_rsn, "PrtryStsRsn"@, path)
            + field_reports(self.rsn, "Rsn"@, path)
    }

    fn validate_into(
        &self,
        path: &Vec<PathSegment>,
        patterns: &IdentifierPatterns,
        out: &mut Vec<ValidationViolation>,
    ) {
        let ghost before = reports_model(out@);
        let ghost here = path_model(path@);
        let ghost mut expected = Seq::<ReportModel>::empty();
        proof {
            lemma_nothing_added(before);
        }
        validate_field(&self.prtry_sts_rsn, "PrtryStsRsn", path, patterns, out);
        proof {
            let added = field_reports(self.prtry_sts_rsn, "PrtryStsRsn"@, here);
            lemma_more_added(before, expected, added);
            expected = expected + added;
        }
        validate_field(&self.rsn, "Rsn", path, patterns, out);
        proof {
            let added = field_reports(self.rsn, "Rsn"@, here);
            lemma_more_added(before, expected, added);
            expected = expected + added;
        }
    }
}

/// A number of at least 0.
#[derive(Debug, Default, Clone, PartialEq)]
pub struct ImpliedCurrencyAndAmount {
    /// The text of the element.
    pub value: Decimal,
}

impl Validate for ImpliedCurrencyAndAmount {
    open spec fn violations(&self, path: Seq<SegmentModel>) -> Seq<ReportModel> {
        Seq::empty()
            + range_reports(self.value, Some(Decimal::whole_spec(0)), None, path)
    }

    fn validate_into(
        &self,
        path: &Vec<PathSegment>,
        patterns: &IdentifierPatterns,
        out: &mut Vec<ValidationViolation>,
    ) {
        let ghost before = reports_model(out@);
        let ghost here = path_model(path@);
        let ghost mut expected = Seq::<ReportModel>::empty();
        proof {
            lemma_nothing_added(before);
        }
        report_range(self.value, Some(Decimal::whole(0)), None, path, out);
        proof {
            let added = range_reports(self.value, Some(Decimal::whole_spec(0)), None, here);
            lemma_more_added(before, expected, added);
            expected = expected + added;
        }
    }
}

/// The alternatives of a choice: exactly one of them is populated.
#[derive(Debug, Default, Clone, PartialEq)]
pub struct DateTimePeriod1ChoiceEnum {
    /// Serialized as `ToDtTm`.
    pub to_dt_tm: Option<IsoDateTime>,
    /// Serialized as `FrDtTm`.
    pub fr_dt_tm: Option<IsoDateTime>,
    /// Serialized as `DtTmRg`.
    pub dt_tm_rg: Option<DateTimePeriod1>,
}

impl Validate for DateTimePeriod1ChoiceEnum {
    open spec fn violations(&self, path: Seq<SegmentModel>) -> Seq<ReportModel> {
        Seq::empty()
            + choice_reports(
                Seq::empty()
                    + name_if(self.to_dt_tm.is_some(), "ToDtTm"@)
                    + name_if(self.fr_dt_tm.is_some(), "FrDtTm"@)
                    + name_if(self.dt_tm_rg.is_some(), "DtTmRg"@),
                path,
            )
            + optional_reports(self.to_dt_tm, "ToDtTm"@, path)
            + optional_reports(self.fr_dt_tm, "FrDtTm"@, path)
            + optional_reports(self.dt_tm_rg, "DtTmRg"@, path)
    }

    fn validate_into(
        &self,
        path: &Vec<PathSegment>,
        patterns: &IdentifierPatterns,
        out: &mut Vec<ValidationViolation>,
    ) {
        let ghost before = reports_model(out@);
        let ghost here = path_model(path@);
        let ghost mut expected = Seq::<ReportModel>::empty();
        proof {
            lemma_nothing_added(before);
        }
        let mut present: Vec<String> = Vec::new();
        let ghost mut names = Seq::<Seq<char>>::empty();
        proof {
            assert(names_model(present@) =~= names);
        }
        note_present(self.to_dt_tm.is_some(), "ToDtTm", &mut present);
        proof {
            names = names + name_if(self.to_dt_tm.is_some(), "ToDtTm"@);
        }
        note_present(self.fr_dt_tm.is_some(), "FrDtTm", &mut present);
        proof {
            names = names + name_if(self.fr_dt_tm.is_some(), "FrDtTm"@);
        }
        note_present(self.dt_tm_rg.is_some(), "DtTmRg", &mut present);
        proof {
            names = names + name_if(self.dt_tm_rg.is_some(), "DtTmRg"@);
        }
        report_choice(present, path, out);
        proof {
            let added = choice_reports(names, here);
            lemma_more_added(before, expected, added);
            expected = expected + added;
        }
        validate_optional(&self.to_dt_tm, "ToDtTm", path, patterns, out);
        proof {
            let added = optional_reports(self.to_dt_tm, "ToDtTm"@, here);
            lemma_more_added(before, expected, added);
            expected = expected + added;
        }
        validate_optional(&self.fr_dt_tm, "FrDtTm", path, patterns, out);
        proof {
            let added = optional_reports(self.fr_dt_tm, "FrDtTm"@, here);
            lemma_more_added(before, expected, added);
            expected = expected + added;
        }
        validate_optional(&self.dt_tm_rg, "DtTmRg", path, patterns, out);
        proof {
            let added = optional_reports(self.dt_tm_rg, "DtTmRg"@, here);
            lemma_more_added(before, expected, added);
            expected = expected + added;
        }
    }
}

/// A choice, serialized as its populated alternative.
#[derive(Debug, Default, Clone, PartialEq)]
pub struct DateTimePeriod1Choice {
    /// Serialized in place, without an element of its own.
    pub value: DateTimePeriod1ChoiceEnum,
}

impl Validate for DateTimePeriod1Choice {
    open spec fn violations(&self, path: Seq<SegmentModel>) -> Seq<ReportModel> {
        Seq::empty()
            + self.value.violations(path)
    }

    fn validate_into(
        &self,
        path: &Vec<PathSegment>,
        patterns: &IdentifierPatterns,
        out: &mut Vec<ValidationViolation>,
    ) {
        let ghost before = reports_model(out@);
        let ghost here = path_model(path@);
        let ghost mut expected = Seq::<ReportModel>::empty();
        proof {
            lemma_nothing_added(before);
        }
        self.value.validate_into(path, patterns, out);
        proof {
            let added = self.value.violations(here);
            lemma_more_added(before, expected, added);
            expected = expected + added;
        }
    }
}

/// Text of 1 to 128 characters.
#[derive(Debug, Default, Clone, PartialEq)]
pub struct Max128Text {
    /// The text of the element.
    pub value: String,
}

impl Validate for Max128Text {
    open spec fn violations(&self, path: Seq<SegmentModel>) -> Seq<ReportModel> {
        Seq::empty()
            + length_reports(self.value@, Some(1), Some(128), path)
    }

    fn validate_into(
        &self,
        path: &Vec<PathSegment>,
        patterns: &IdentifierPatterns,
        out: &mut Vec<ValidationViolation>,
    ) {
        let ghost before = reports_model(out@);
        let ghost here = path_model(path@);
        let ghost mut expected = Seq::<ReportModel>::empty();
        proof {
            lemma_nothing_added(before);
        }
        report_length(self.value.as_str(), Some(1), Some(128), path, out);
        proof {
            let added = length_reports(self.value@, Some(1), Some(128), here);
            lemma_more_added(before, expected, added);
            expected = expected + added;
        }
    }
}

#[derive(Debug, Default, Clone, PartialEq)]
pub struct PaymentCommon5 {
    /// Serialized as `PmtFr`.
    pub pmt_fr: Option<System2>,
    /// Serialized as `PmtTo`.
    pub pmt_to: Option<System2>,
    /// Serialized as `CmonSts`.
    pub cmon_sts: Vec<PaymentStatus6>,
    /// Serialized as `ReqdExctnDt`.
    pub reqd_exctn_dt: Option<DateAndDateTime2Choice>,
    /// Serialized as `NtryDt`.
    pub ntry_dt: Option<DateAndDateTime2Choice>,
    /// Serialized as `CdtDbtInd`.
    pub cdt_dbt_ind: Option<CreditDebitCode>,
    /// Serialized as `PmtMtd`.
    pub pmt_mtd: Option<PaymentOrigin1Choice>,
}

impl Validate for PaymentCommon5 {
    open spec fn violations(&self, path: Seq<SegmentModel>) -> Seq<ReportModel> {
        Seq::empty()
            + optional_reports(self.pmt_fr, "PmtFr"@, path)
            + optional_reports(self.pmt_to, "PmtTo"@, path)
            + list_reports(self.cmon_sts@, Some(0), None, "CmonSts"@, path)
            + optional_reports(self.reqd_exctn_dt, "ReqdExctnDt"@, path)
            + optional_reports(self.ntry_dt, "NtryDt"@, path)
            + optional_reports(self.cdt_dbt_ind, "CdtDbtInd"@, path)
            + optional_reports(self.pmt_mtd, "PmtMtd"@, path)
    }

    fn validate_into(
        &self,
        path: &Vec<PathSegment>,
        patterns: &IdentifierPatterns,
        out: &mut Vec<ValidationViolation>,
    ) {
        let ghost before = reports_model(out@);
        let ghost here = path_model(path@);
        let ghost mut expected = Seq::<ReportModel>::empty();
        proof {
            lemma_nothing_added(before);
        }
        validate_optional(&self.pmt_fr, "PmtFr", path, patterns, out);
        proof {
            let added = optional_reports(self.pmt_fr, "PmtFr"@, here);
            lemma_more_added(before, expected, added);
            expected = expected + added;
        }
        validate_optional(&self.pmt_to, "PmtTo", path, patterns, out);
        proof {
            let added = optional_reports(self.pmt_to, "PmtTo"@, here);
            lemma_more_added(before, expected, added);
            expected = expected + added;
        }
        validate_list(&self.cmon_sts, Some(0), None, "CmonSts", path, patterns, out);
        proof {
            let added = list_reports(self.cmon_sts@, Some(0), None, "CmonSts"@, here);
            lemma_more_added(before, expected, added);
            expected = expected + added;
        }
        validate_optional(&self.reqd_exctn_dt, "ReqdExctnDt", path, patterns, out);
        proof {
            let added = optional_reports(self.reqd_exctn_dt, "ReqdExctnDt"@, here);
            lemma_more_added(before, expected, added);
            expected = expected + added;
        }
        validate_optional(&self.ntry_dt, "NtryDt", path, patterns, out);
        proof {
            let added = optional_reports(self.ntry_dt, "NtryDt"@, here);
            lemma_more_added(before, expected, added);
            expected = expected + added;
        }
        validate_optional(&self.cdt_dbt_ind, "CdtDbtInd", path, patterns, out);
        proof {
            let added = optional_reports(self.cdt_dbt_ind, "CdtDbtInd"@, here);
            lemma_more_added(before, expected, added);
            expected = expected + added;
        }
        validate_optional(&self.pmt_mtd, "PmtMtd", path, patterns, out);
        proof {
            let added = optional_reports(self.pmt_mtd, "PmtMtd"@, here);
            lemma_more_added(before, expected, added);
            expected = expected + added;
        }
    }
}

/// Text of 1 to 16 characters.
#[derive(Debug, Default, Clone, PartialEq)]
pub struct Max16Text {
    /// The text of the element.
    pub value: String,
}

impl Validate for Max16Text {
    open spec fn violations(&self, path: Seq<SegmentModel>) -> Seq<ReportModel> {
        Seq::empty()
            + length_reports(self.value@, Some(1), Some(16), path)
    }

    fn validate_into(
        &self,
        path: &Vec<PathSegment>,
        patterns: &IdentifierPatterns,
        out: &mut Vec<ValidationViolation>,
    ) {
        let ghost before = reports_model(out@);
        let ghost here = path_model(path@);
        let ghost mut expected = Seq::<ReportModel>::empty();
        proof {
            lemma_nothing_added(before);
        }
        report_length(self.value.as_str(), Some(1), Some(16), path, out);
        proof {
            let added = length_reports(self.value@, Some(1), Some(16), here);
            lemma_more_added(before, expected, added);
            expected = expected + added;
        }
    }
}

#[derive(Debug, Default, Clone, PartialEq)]
pub enum PendingFailingSettlement1Code {
    /// Serialized as `AWMO`.
    Awmo,
    /// Serialized as `AWSH`.
    Awsh,
    /// Serialized as `LAAW`.
    Laaw,
    /// Serialized as `DOCY`.
    Docy,
    /// Serialized as `CLAT`.
    Clat,
    /// Serialized as `CERT`.
    Cert,
    /// Serialized as `MINO`.
    Mino,
    /// Serialized as `PHSE`.
    Phse,
    /// Serialized as `SBLO`.
    Sblo,
    /// Serialized as `DKNY`.
    Dkny,
    /// Serialized as `STCD`.
    Stcd,
    /// Serialized as `BENO`.
    Beno,
    /// Serialized as `LACK`.
    Lack,
    /// Serialized as `LATE`.
    Late,
    /// Serialized as `CANR`.
    Canr,
    /// Serialized as `MLAT`.
    Mlat,
    /// Serialized as `OBJT`.
    Objt,
    /// Serialized as `DOCC`.
    Docc,
    /// Serialized as `BLOC`.
    Bloc,
    /// Serialized as `CHAS`.
    Chas,
    /// Serialized as `NEWI`.
    Newi,
    /// Serialized as `CLAC`.
    Clac,
    /// Serialized as `PART`.
    Part,
    /// Serialized as `CMON`.
    Cmon,
    /// Serialized as `COLL`.
    Coll,
    /// Serialized as `DEPO`.
    Depo,
    /// Serialized as `FLIM`.
    Flim,
    /// Serialized as `NOFX`.
    Nofx,
    /// Serialized as `INCA`.
    Inca,
    /// Serialized as `LINK`.
    Link,
    /// Serialized as `BYIY`.
    Byiy,
    /// Serialized as `CAIS`.
    Cais,
    /// Serialized as `LALO`.
    Lalo,
    /// Serialized as `MONY`.
    Mony,
    /// Serialized as `NCON`.
    Ncon,
    /// Serialized as `YCOL`.
    Ycol,
    /// Serialized as `REFS`.
    Refs,
    /// Serialized as `SDUT`.
    Sdut,
    /// Serialized as `CYCL`.
    Cycl,
    /// Serialized as `BATC`.
    Batc,
    /// Serialized as `GUAD`.
    Guad,
    /// Serialized as `PREA`.
    Prea,
    /// Serialized as `GLOB`.
    Glob,
    /// Serialized as `CPEC`.
    Cpec,
    /// Serialized as `MUNO`.
    Muno,
    #[default]
    Unknown,
}

impl Validate for PendingFailingSettlement1Code {
    open spec fn violations(&self, path: Seq<SegmentModel>) -> Seq<ReportModel> {
        Seq::empty()
    }

    fn validate_into(
        &self,
        path: &Vec<PathSegment>,
        patterns: &IdentifierPatterns,
        out: &mut Vec<ValidationViolation>,
    ) {
        proof {
            lemma_nothing_added(reports_model(out@));
        }
    }
}

/// The alternatives of a choice: exactly one of them is populated.
#[derive(Debug, Default, Clone, PartialEq)]
pub struct AccountSchemeName1ChoiceEnum {
    /// Serialized as `Cd`.
    pub cd: Option<ExternalAccountIdentification1Code>,
    /// Serialized as `Prtry`.
    pub prtry: Option<Max35Text>,
}

impl Validate for AccountSchemeName1ChoiceEnum {
    open spec fn violations(&self, path: Seq<SegmentModel>) -> Seq<ReportModel> {
        Seq::empty()
            + choice_reports(
                Seq::empty()
                    + name_if(self.cd.is_some(), "Cd"@)
                    + name_if(self.prtry.is_some(), "Prtry"@),
                path,
            )
            + optional_reports(self.cd, "Cd"@, path)
            + optional_reports(self.prtry, "Prtry"@, path)
    }

    fn validate_into(
        &self,
        path: &Vec<PathSegment>,
        patterns: &IdentifierPatterns,
        out: &mut Vec<ValidationViolation>,
    ) {
        let ghost before = reports_model(out@);
        let ghost here = path_model(path@);
        let ghost mut expected = Seq::<ReportModel>::empty();
        proof {
            lemma_nothing_added(before);
        }
        let mut present: Vec<String> = Vec::new();
        let ghost mut names = Seq::<Seq<char>>::empty();
        proof {
            assert(names_model(present@) =~= names);
        }
        note_present(self.cd.is_some(), "Cd", &mut present);
        proof {
            names = names + name_if(self.cd.is_some(), "Cd"@);
        }
        note_present(self.prtry.is_some(), "Prtry", &mut present);
        proof {
            names = names + name_if(self.prtry.is_some(), "Prtry"@);
        }
        report_choice(present, path, out);
        proof {
            let added = choice_reports(names, here);
            lemma_more_added(before, expected, added);
            expected = expected + added;
        }
        validate_optional(&self.cd, "Cd", path, patterns, out);
        proof {
            let added = optional_reports(self.cd, "Cd"@, here);
            lemma_more_added(before, expected, added);
            expected = expected + added;
        }
        validate_optional(&self.prtry, "Prtry", path, patterns, out);
        proof {
            let added = optional_reports(self.prtry, "Prtry"@, here);
            lemma_more_added(before, expected, added);
            expected = expected + added;
        }
    }
}

/// A choice, serialized as its populated alternative.
#[derive(Debug, Default, Clone, PartialEq)]
pub struct AccountSchemeName1Choice {
    /// Serialized in place, without an element of its own.
    pub value: AccountSchemeName1ChoiceEnum,
}

impl Validate for AccountSchemeName1Choice {
    open spec fn violations(&self, path: Seq<SegmentModel>) -> Seq<ReportModel> {
        Seq::empty()
            + self.value.violations(path)
    }

    fn validate_into(
        &self,
        path: &Vec<PathSegment>,
        patterns: &IdentifierPatterns,
        out: &mut Vec<ValidationViolation>,
    ) {
        let ghost before = reports_model(out@);
        let ghost here = path_model(path@);
        let ghost mut expected = Seq::<ReportModel>::empty();
        proof {
            lemma_nothing_added(before);
        }
        self.value.validate_into(path, patterns, out);
        proof {
            let added = self.value.violations(here);
            lemma_more_added(before, expected, added);
            expected = expected + added;
        }
    }
}

/// Text of 1 to 4 characters.
#[derive(Debug, Default, Clone, PartialEq)]
pub struct ExternalPaymentControlRequestType1Code {
    /// The text of the element.
    pub value: String,
}

impl Validate for ExternalPaymentControlRequestType1Code {
    open spec fn violations(&self, path: Seq<SegmentModel>) -> Seq<ReportModel> {
        Seq::empty()
            + length_reports(self.value@, Some(1), Some(4), path)
    }

    fn validate_into(
        &self,
        path: &Vec<PathSegment>,
        patterns: &IdentifierPatterns,
        out: &mut Vec<ValidationViolation>,
    ) {
        let ghost before = reports_model(out@);
        let ghost here = path_model(path@);
        let ghost mut expected = Seq::<ReportModel>::empty();
        proof {
            lemma_nothing_added(before);
        }
        report_length(self.value.as_str(), Some(1), Some(4), path, out);
        proof {
            let added = length_reports(self.value@, Some(1), Some(4), here);
            lemma_more_added(before, expected, added);
            expected = expected + added;
        }
    }
}

#[derive(Debug, Default, Clone, PartialEq)]
pub struct PaymentInstruction32 {
    /// Serialized as `MsgId`.
    pub msg_id: Option<Max35Text>,
    /// Serialized as `ReqdExctnDt`.
    pub reqd_exctn_dt: Option<DateAndDateTime2Choice>,
    /// Serialized as `Sts`.
    pub sts: Vec<PaymentStatus6>,
    /// Serialized as `InstdAmt`.
    pub instd_amt: Option<Amount3Choice>,
    /// Serialized as `IntrBkSttlmAmt`.
    pub intr_bk_sttlm_amt: Option<Amount2Choice>,
    /// Serialized as `Purp`.
    pub purp: Option<Max10Text>,
    /// Serialized as `PmtMtd`.
    pub pmt_mtd: Option<PaymentOrigin1Choice>,
    /// Serialized as `Prty`.
    pub prty: Option<Priority1Choice>,
    /// Serialized as `PrcgVldtyTm`.
    pub prcg_vldty_tm: Option<DateTimePeriod1Choice>,
    /// Serialized as `InstrCpy`.
    pub instr_cpy: Option<Max20000Text>,
    /// Serialized as `Tp`.
    pub tp: Option<PaymentType4Choice>,
    /// Serialized as `GnrtdOrdr`.
    pub gnrtd_ordr: Option<TrueFalseIndicator>,
    /// Serialized as `TxId`.
    pub tx_id: Option<Max35Text>,
    /// Serialized as `IntrBkSttlmDt`.
    pub intr_bk_sttlm_dt: Option<IsoDate>,
    /// Serialized as `EndToEndId`.
    pub end_to_end_id: Option<Max35Text>,
    /// Serialized as `Pties`.
    pub pties: Option<PaymentTransactionParty3>,
}

impl Validate for PaymentInstruction32 {
    open spec fn violations(&self, path: Seq<SegmentModel>) -> Seq<ReportModel> {
        Seq::empty()
            + optional_reports(self.msg_id, "MsgId"@, path)
            + optional_reports(self.reqd_exctn_dt, "ReqdExctnDt"@, path)
            + list_reports(self.sts@, Some(0), None, "Sts"@, path)
            + optional_reports(self.instd_amt, "InstdAmt"@, path)
            + optional_reports(self.intr_bk_sttlm_amt, "IntrBkSttlmAmt"@, path)
            + optional_reports(self.purp, "Purp"@, path)
            + optional_reports(self.pmt_mtd, "PmtMtd"@, path)
            + optional_reports(self.prty, "Prty"@, path)
            + optional_reports(self.prcg_vldty_tm, "PrcgVldtyTm"@, path)
            + optional_reports(self.instr_cpy, "InstrCpy"@, path)
            + optional_reports(self.tp, "Tp"@, path)
            + optional_reports(self.gnrtd_ordr, "GnrtdOrdr"@, path)
            + optional_reports(self.tx_id, "TxId"@, path)
            + optional_reports(self.intr_bk_sttlm_dt, "IntrBkSttlmDt"@, path)
            + optional_reports(self.end_to_end_id, "EndToEndId"@, path)
            + optional_reports(self.pties, "Pties"@, path)
    }

    fn validate_into(
        &self,
        path: &Vec<PathSegment>,
        patterns: &IdentifierPatterns,
        out: &mut Vec<ValidationViolation>,
    ) {
        let ghost before = reports_model(out@);
        let ghost here = path_model(path@);
        let ghost mut expected = Seq::<ReportModel>::empty();
        proof {
            lemma_nothing_added(before);
        }
        validate_optional(&self.msg_id, "MsgId", path, patterns, out);
        proof {
            let added = optional_reports(self.msg_id, "MsgId"@, here);
            lemma_more_added(before, expected, added);
            expected = expected + added;
        }
        validate_optional(&self.reqd_exctn_dt, "ReqdExctnDt", path, patterns, out);
        proof {
            let added = optional_reports(self.reqd_exctn_dt, "ReqdExctnDt"@, here);
            lemma_more_added(before, expected, added);
            expected = expected + added;
        }
        validate_list(&self.sts, Some(0), None, "Sts", path, patterns, out);
        proof {
            let added = list_reports(self.sts@, Some(0), None, "Sts"@, here);
            lemma_more_added(before, expected, added);
            expected = expected + added;
        }
        validate_optional(&self.instd_amt, "InstdAmt", path, patterns, out);
        proof {
            let added = optional_reports(self.instd_amt, "InstdAmt"@, here);
            lemma_more_added(before, expected, added);
            expected = expected + added;
        }
        validate_optional(&self.intr_bk_sttlm_amt, "IntrBkSttlmAmt", path, patterns, out);
        proof {
            let added = optional_reports(self.intr_bk_sttlm_amt, "IntrBkSttlmAmt"@, here);
            lemma_more_added(before, expected, added);
            expected = expected + added;
        }
        validate_optional(&self.purp, "Purp", path, patterns, out);
        proof {
            let added = optional_reports(self.purp, "Purp"@, here);
            lemma_more_added(before, expected, added);
            expected = expected + added;
        }
        validate_optional(&self.pmt_mtd, "PmtMtd", path, patterns, out);
        proof {
            let added = optional_reports(self.pmt_mtd, "PmtMtd"@, here);
            lemma_more_added(before, expected, added);
            expected = expected + added;
        }
        validate_optional(&self.prty, "Prty", path, patterns, out);
        proof {
            let added = optional_reports(self.prty, "Prty"@, here);
            lemma_more_added(before, expected, added);
            expected = expected + added;
        }
        validate_optional(&self.prcg_vldty_tm, "PrcgVldtyTm", path, patterns, out);
        proof {
            let added = optional_reports(self.prcg_vldty_tm, "PrcgVldtyTm"@, here);
            lemma_more_added(before, expected, added);
            expected = expected + added;
        }
        validate_optional(&self.instr_cpy, "InstrCpy", path, patterns, out);
        proof {
            let added = optional_reports(self.instr_cpy, "InstrCpy"@, here);
            lemma_more_added(before, expected, added);
            expected = expected + added;
        }
        validate_optional(&self.tp, "Tp", path, patterns, out);
        proof {
            let added = optional_reports(self.tp, "Tp"@, here);
            lemma_more_added(before, expected, added);
            expected = expected + added;
        }
        validate_optional(&self.gnrtd_ordr, "GnrtdOrdr", path, patterns, out);
        proof {
            let added = optional_reports(self.gnrtd_ordr, "GnrtdOrdr"@, here);
            lemma_more_added(before, expected, added);
            expected = expected + added;
        }
        validate_optional(&self.tx_id, "TxId", path, patterns, out);
        proof {
            let added = optional_reports(self.tx_id, "TxId"@, here);
            lemma_more_added(before, expected, added);
            expected = expected + added;
        }
        validate_optional(&self.intr_bk_sttlm_dt, "IntrBkSttlmDt", path, patterns, out);
        proof {
            let added = optional_reports(self.intr_bk_sttlm_dt, "IntrBkSttlmDt"@, here);
            lemma_more_added(before, expected, added);
            expected = expected + added;
        }
        validate_optional(&self.end_to_end_id, "EndToEndId", path, patterns, out);
        proof {
            let added = optional_reports(self.end_to_end_id, "EndToEndId"@, here);
            lemma_more_added(before, expected, added);
            expected = expected + added;
        }
        validate_optional(&self.pties, "Pties", path, patterns, out);
        proof {
            let added = optional_reports(self.pties, "Pties"@, here);
            lemma_more_added(before, expected, added);
            expected = expected + added;
        }
    }
}

/// Text of 1 to 140 characters.
#[derive(Debug, Default, Clone, PartialEq)]
pub struct Max140Text {
    /// The text of the element.
    pub value: String,
}

impl Validate for Max140Text {
    open spec fn violations(&self, path: Seq<SegmentModel>) -> Seq<ReportModel> {
        Seq::empty()
            + length_reports(self.value@, Some(1), Some(140), path)
    }

    fn validate_into(
        &self,
        path: &Vec<PathSegment>,
        patterns: &IdentifierPatterns,
        out: &mut Vec<ValidationViolation>,
    ) {
        let ghost before = reports_model(out@);
        let ghost here = path_model(path@);
        let ghost mut expected = Seq::<ReportModel>::empty();
        proof {
            lemma_nothing_added(before);
        }
        report_length(self.value.as_str(), Some(1), Some(140), path, out);
        proof {
            let added = length_reports(self.value@, Some(1), Some(140), here);
            lemma_more_added(before, expected, added);
            expected = expected + added;
        }
    }
}

/// The alternatives of a choice: exactly one of them is populated.
#[derive(Debug, Default, Clone, PartialEq)]
pub struct OrganisationIdentificationSchemeName1ChoiceEnum {
    /// Serialized as `Cd`.
    pub cd: Option<ExternalOrganisationIdentification1Code>,
    /// Serialized as `Prtry`.
    pub prtry: Option<Max35Text>,
}

impl Validate for OrganisationIdentificationSchemeName1ChoiceEnum {
    open spec fn violations(&self, path: Seq<SegmentModel>) -> Seq<ReportModel> {
        Seq::empty()
            + choice_reports(
                Seq::empty()
                    + name_if(self.cd.is_some(), "Cd"@)
                    + name_if(self.prtry.is_some(), "Prtry"@),
                path,
            )
            + optional_reports(self.cd, "Cd"@, path)
            + optional_reports(self.prtry, "Prtry"@, path)
    }

    fn validate_into(
        &self,
        path: &Vec<PathSegment>,
        patterns: &IdentifierPatterns,
        out: &mut Vec<ValidationViolation>,
    ) {
        let ghost before = reports_model(out@);
        let ghost here = path_model(path@);
        let ghost mut expected = Seq::<ReportModel>::empty();
        proof {
            lemma_nothing_added(before);
        }
        let mut present: Vec<String> = Vec::new();
        let ghost mut names = Seq::<Seq<char>>::empty();
        proof {
            assert(names_model(present@) =~= names);
        }
        note_present(self.cd.is_some(), "Cd", &mut present);
        proof {
            names = names + name_if(self.cd.is_some(), "Cd"@);
        }
        note_present(self.prtry.is_some(), "Prtry", &mut present);
        proof {
            names = names + name_if(self.prtry.is_some(), "Prtry"@);
        }
        report_choice(present, path, out);
        proof {
            let added = choice_reports(names, here);
            lemma_more_added(before, expected, added);
            expected = expected + added;
        }
        validate_optional(&self.cd, "Cd", path, patterns, out);
        proof {
            let added = optional_reports(self.cd, "Cd"@, here);
            lemma_more_added(before, expected, added);
            expected = expected + added;
        }
        validate_optional(&self.prtry, "Prtry", path, patterns, out);
        proof {
            let added = optional_reports(self.prtry, "Prtry"@, here);
            lemma_more_added(before, expected, added);
            expected = expected + added;
        }
    }
}

/// A choice, serialized as its populated alternative.
#[derive(Debug, Default, Clone, PartialEq)]
pub struct OrganisationIdentificationSchemeName1Choice {
    /// Serialized in place, without an element of its own.
    pub value: OrganisationIdentificationSchemeName1ChoiceEnum,
}

impl Validate for OrganisationIdentificationSchemeName1Choice {
    open spec fn violations(&self, path: Seq<SegmentModel>) -> Seq<ReportModel> {
        Seq::empty()
            + self.value.violations(path)
    }

    fn validate_into(
        &self,
        path: &Vec<PathSegment>,
        patterns: &IdentifierPatterns,
        out: &mut Vec<ValidationViolation>,
    ) {
        let ghost before = reports_model(out@);
        let ghost here = path_model(path@);
        let ghost mut expected = Seq::<ReportModel>::empty();
        proof {
            lemma_nothing_added(before);
        }
        self.value.validate_into(path, patterns, out);
        proof {
            let added = self.value.violations(here);
            lemma_more_added(before, expected, added);
            expected = expected + added;
        }
    }
}

/// The alternatives of a choice: exactly one of them is populated.
#[derive(Debug, Default, Clone, PartialEq)]
pub struct PaymentIdentification6ChoiceEnum {
    /// Serialized as `TxId`.
    pub tx_id: Option<Max35Text>,
    /// Serialized as `ShrtBizId`.
    pub shrt_biz_id: Option<ShortPaymentIdentification2>,
    /// Serialized as `PrtryId`.
    pub prtry_id: Option<Max70Text>,
    /// Serialized as `LngBizId`.
    pub lng_biz_id: Option<LongPaymentIdentification2>,
    /// Serialized as `QId`.
    pub q_id: Option<QueueTransactionIdentification1>,
}

impl Validate for PaymentIdentification6ChoiceEnum {
    open spec fn violations(&self, path: Seq<SegmentModel>) -> Seq<ReportModel> {
        Seq::empty()
            + choice_reports(
                Seq::empty()
                    + name_if(self.tx_id.is_some(), "TxId"@)
                    + name_if(self.shrt_biz_id.is_some(), "ShrtBizId"@)
                    + name_if(self.prtry_id.is_some(), "PrtryId"@)
                    + name_if(self.lng_biz_id.is_some(), "LngBizId"@)
                    + name_if(self.q_id.is_some(), "QId"@),
                path,
            )
            + optional_reports(self.tx_id, "TxId"@, path)
            + optional_reports(self.shrt_biz_id, "ShrtBizId"@, path)
            + optional_reports(self.prtry_id, "PrtryId"@, path)
            + optional_reports(self.lng_biz_id, "LngBizId"@, path)
            + optional_reports(self.q_id, "QId"@, path)
    }

    fn validate_into(
        &self,
        path: &Vec<PathSegment>,
        patterns: &IdentifierPatterns,
        out: &mut Vec<ValidationViolation>,
    ) {
        let ghost before = reports_model(out@);
        let ghost here = path_model(path@);
        let ghost mut expected = Seq::<ReportModel>::empty();
        proof {
            lemma_nothing_added(before);
        }
        let mut present: Vec<String> = Vec::new();
        let ghost mut names = Seq::<Seq<char>>::empty();
        proof {
            assert(names_model(present@) =~= names);
        }
        note_present(self.tx_id.is_some(), "TxId", &mut present);
        proof {
            names = names + name_if(self.tx_id.is_some(), "TxId"@);
        }
        note_present(self.shrt_biz_id.is_some(), "ShrtBizId", &mut present);
        proof {
            names = names + name_if(self.shrt_biz_id.is_some(), "ShrtBizId"@);
        }
        note_present(self.prtry_id.is_some(), "PrtryId", &mut present);
        proof {
            names = names + name_if(self.prtry_id.is_some(), "PrtryId"@);
        }
        note_present(self.lng_biz_id.is_some(), "LngBizId", &mut present);
        proof {
            names = names + name_if(self.lng_biz_id.is_some(), "LngBizId"@);
        }
        note_present(self.q_id.is_some(), "QId", &mut present);
        proof {
            names = names + name_if(self.q_id.is_some(), "QId"@);
        }
        report_choice(present, path, out);
        proof {
            let added = choice_reports(names, here);
            lemma_more_added(before, expected, added);
            expected = expected + added;
        }
        validate_optional(&self.tx_id, "TxId", path, patterns, out);
        proof {
            let added = optional_reports(self.tx_id, "TxId"@, here);
            lemma_more_added(before, expected, added);
            expected = expected + added;
        }
        validate_optional(&self.shrt_biz_id, "ShrtBizId", path, patterns, out);
        proof {
            let added = optional_reports(self.shrt_biz_id, "ShrtBizId"@, here);
            lemma_more_added(before, expected, added);
            expected = expected + added;
        }
        validate_optional(&self.prtry_id, "PrtryId", path, patterns, out);
        proof {
            let added = optional_reports(self.prtry_id, "PrtryId"@, here);
            lemma_more_added(before, expected, added);
            expected = expected + added;
        }
        validate_optional(&self.lng_biz_id, "LngBizId", path, patterns, out);
        proof {
            let added = optional_reports(self.lng_biz_id, "LngBizId"@, here);
            lemma_more_added(before, expected, added);
            expected = expected + added;
        }
        validate_optional(&self.q_id, "QId", path, patterns, out);
        proof {
            let added = optional_reports(self.q_id, "QId"@, here);
            lemma_more_added(before, expected, added);
            expected = expected + added;
        }
    }
}

/// A choice, serialized as its populated alternative.
#[derive(Debug, Default, Clone, PartialEq)]
pub struct PaymentIdentification6Choice {
    /// Serialized in place, without an element of its own.
    pub value: PaymentIdentification6ChoiceEnum,
}

impl Validate for PaymentIdentification6Choice {
    open spec fn violations(&self, path: Seq<SegmentModel>) -> Seq<ReportModel> {
        Seq::empty()
            + self.value.violations(path)
    }

    fn validate_into(
        &self,
        path: &Vec<PathSegment>,
        patterns: &IdentifierPatterns,
        out: &mut Vec<ValidationViolation>,
    ) {
        let ghost before = reports_model(out@);
        let ghost here = path_model(path@);
        let ghost mut expected = Seq::<ReportModel>::empty();
        proof {
            lemma_nothing_added(before);
        }
        self.value.validate_into(path, patterns, out);
        proof {
            let added = self.value.violations(here);
            lemma_more_added(before, expected, added);
            expected = expected + added;
        }
    }
}

/// Text that matches `[A-Z]{3,3}`.
#[derive(Debug, Default, Clone, PartialEq)]
pub struct ActiveCurrencyCode {
    /// The text of the element.
    pub value: String,
}

impl Validate for ActiveCurrencyCode {
    open spec fn violations(&self, path: Seq<SegmentModel>) -> Seq<ReportModel> {
        Seq::empty()
            + pattern_reports(self.value@, "[A-Z]{3,3}"@, path)
    }

    fn validate_into(
        &self,
        path: &Vec<PathSegment>,
        patterns: &IdentifierPatterns,
        out: &mut Vec<ValidationViolation>,
    ) {
        let ghost before = reports_model(out@);
        let ghost here = path_model(path@);
        let ghost mut expected = Seq::<ReportModel>::empty();
        proof {
            lemma_nothing_added(before);
        }
        report_pattern(self.value.as_str(), patterns.active_currency_code(), path, out);
        proof {
            let added = pattern_reports(self.value@, "[A-Z]{3,3}"@, here);
            lemma_more_added(before, expected, added);
            expected = expected + added;
        }
    }
}

#[derive(Debug, Default, Clone, PartialEq)]
pub struct PostalAddress24 {
    /// Serialized as `AdrTp`.
    pub adr_tp: Option<AddressType3Choice>,
    /// Serialized as `Dept`.
    pub dept: Option<Max70Text>,
    /// Serialized as `SubDept`.
    pub sub_dept: Option<Max70Text>,
    /// Serialized as `StrtNm`.
    pub strt_nm: Option<Max70Text>,
    /// Serialized as `BldgNb`.
    pub bldg_nb: Option<Max16Text>,
    /// Serialized as `BldgNm`.
    pub bldg_nm: Option<Max35Text>,
    /// Serialized as `Flr`.
    pub flr: Option<Max70Text>,
    /// Serialized as `PstBx`.
    pub pst_bx: Option<Max16Text>,
    /// Serialized as `Room`.
    pub room: Option<Max70Text>,
    /// Serialized as `PstCd`.
    pub pst_cd: Option<Max16Text>,
    /// Serialized as `TwnNm`.
    pub twn_nm: Option<Max35Text>,
    /// Serialized as `TwnLctnNm`.
    pub twn_lctn_nm: Option<Max35Text>,
    /// Serialized as `DstrctNm`.
    pub dstrct_nm: Option<Max35Text>,
    /// Serialized as `CtrySubDvsn`.
    pub ctry_sub_dvsn: Option<Max35Text>,
    /// Serialized as `Ctry`.
    pub ctry: Option<CountryCode>,
    /// Serialized as `AdrLine`.
    pub adr_line: Vec<Max70Text>,
}

impl Validate for PostalAddress24 {
    open spec fn violations(&self, path: Seq<SegmentModel>) -> Seq<ReportModel> {
        Seq::empty()
            + optional_reports(self.adr_tp, "AdrTp"@, path)
            + optional_reports(self.dept, "Dept"@, path)
            + optional_reports(self.sub_dept, "SubDept"@, path)
            + optional_reports(self.strt_nm, "StrtNm"@, path)
            + optional_reports(self.bldg_nb, "BldgNb"@, path)
            + optional_reports(self.bldg_nm, "BldgNm"@, path)
            + optional_reports(self.flr, "Flr"@, path)
            + optional_reports(self.pst_bx, "PstBx"@, path)
            + optional_reports(self.room, "Room"@, path)
            + optional_reports(self.pst_cd, "PstCd"@, path)
            + optional_reports(self.twn_nm, "TwnNm"@, path)
            + optional_reports(self.twn_lctn_nm, "TwnLctnNm"@, path)
            + optional_reports(self.dstrct_nm, "DstrctNm"@, path)
            + optional_reports(self.ctry_sub_dvsn, "CtrySubDvsn"@, path)
            + optional_reports(self.ctry, "Ctry"@, path)
            + list_reports(self.adr_line@, Some(0), Some(7), "AdrLine"@, path)
    }

    fn validate_into(
        &self,
        path: &Vec<PathSegment>,
        patterns: &IdentifierPatterns,
        out: &mut Vec<ValidationViolation>,
    ) {
        let ghost before = reports_model(out@);
        let ghost here = path_model(path@);
        let ghost mut expected = Seq::<ReportModel>::empty();
        proof {
            lemma_nothing_added(before);
        }
        validate_optional(&self.adr_tp, "AdrTp", path, patterns, out);
        proof {
            let added = optional_reports(self.adr_tp, "AdrTp"@, here);
            lemma_more_added(before, expected, added);
            expected = expected + added;
        }
        validate_optional(&self.dept, "Dept", path, patterns, out);
        proof {
            let added = optional_reports(self.dept, "Dept"@, here);
            lemma_more_added(before, expected, added);
            expected = expected + added;
        }
        validate_optional(&self.sub_dept, "SubDept", path, patterns, out);
        proof {
            let added = optional_reports(self.sub_dept, "SubDept"@, here);
            lemma_more_added(before, expected, added);
            expected = expected + added;
        }
        validate_optional(&self.strt_nm, "StrtNm", path, patterns, out);
        proof {
            let added = optional_reports(self.strt_nm, "StrtNm"@, here);
            lemma_more_added(before, expected, added);
            expected = expected + added;
        }
        validate_optional(&self.bldg_nb, "BldgNb", path, patterns, out);
        proof {
            let added = optional_reports(self.bldg_nb, "BldgNb"@, here);
            lemma_more_added(before, expected, added);
            expected = expected + added;
        }
        validate_optional(&self.bldg_nm, "BldgNm", path, patterns, out);
        proof {
            let added = optional_reports(self.bldg_nm, "BldgNm"@, here);
            lemma_more_added(before, expected, added);
            expected = expected + added;
        }
        validate_optional(&self.flr, "Flr", path, patterns, out);
        proof {
            let added = optional_reports(self.flr, "Flr"@, here);
            lemma_more_added(before, expected, added);
            expected = expected + added;
        }
        validate_optional(&self.pst_bx, "PstBx", path, patterns, out);
        proof {
            let added = optional_reports(self.pst_bx, "PstBx"@, here);
            lemma_more_added(before, expected, added);
            expected = expected + added;
        }
        validate_optional(&self.room, "Room", path, patterns, out);
        proof {
            let added = optional_reports(self.room, "Room"@, here);
            lemma_more_added(before, expected, added);
            expected = expected + added;
        }
        validate_optional(&self.pst_cd, "PstCd", path, patterns, out);
        proof {
            let added = optional_reports(self.pst_cd, "PstCd"@, here);
            lemma_more_added(before, expected, added);
            expected = expected + added;
        }
        validate_optional(&self.twn_nm, "TwnNm", path, patterns, out);
        proof {
            let added = optional_reports(self.twn_nm, "TwnNm"@, here);
            lemma_more_added(before, expected, added);
            expected = expected + added;
        }
        validate_optional(&self.twn_lctn_nm, "TwnLctnNm", path, patterns, out);
        proof {
            let added = optional_reports(self.twn_lctn_nm, "TwnLctnNm"@, here);
            lemma_more_added(before, expected, added);
            expected = expected + added;
        }
        validate_optional(&self.dstrct_nm, "DstrctNm", path, patterns, out);
        proof {
            let added = optional_reports(self.dstrct_nm, "DstrctNm"@, here);
            lemma_more_added(before, expected, added);
            expected = expected + added;
        }
        validate_optional(&self.ctry_sub_dvsn, "CtrySubDvsn", path, patterns, out);
        proof {
            let added = optional_reports(self.ctry_sub_dvsn, "CtrySubDvsn"@, here);
            lemma_more_added(before, expected, added);
            expected = expected + added;
        }
        validate_optional(&self.ctry, "Ctry", path, patterns, out);
        proof {
            let added = optional_reports(self.ctry, "Ctry"@, here);
            lemma_more_added(before, expected, added);
            expected = expected + added;
        }
        validate_list(&self.adr_line, Some(0), Some(7), "AdrLine", path, patterns, out);
        proof {
            let added = list_reports(self.adr_line@, Some(0), Some(7), "AdrLine"@, here);
            lemma_more_added(before, expected, added);
            expected = expected + added;
        }
    }
}

#[derive(Debug, Default, Clone, PartialEq)]
pub struct CashAccountAndEntry4 {
    /// Serialized as `Acct`.
    pub acct: CashAccount41,
    /// Serialized as `Ntry`.
    pub ntry: Option<CashEntry2>,
}

impl Validate for CashAccountAndEntry4 {
    open spec fn violations(&self, path: Seq<SegmentModel>) -> Seq<ReportModel> {
        Seq::empty()
            + field_reports(self.acct, "Acct"@, path)
            + optional_reports(self.ntry, "Ntry"@, path)
    }

    fn validate_into(
        &self,
        path: &Vec<PathSegment>,
        patterns: &IdentifierPatterns,
        out: &mut Vec<ValidationViolation>,
    ) {
        let ghost before = reports_model(out@);
        let ghost here = path_model(path@);
        let ghost mut expected = Seq::<ReportModel>::empty();
        proof {
            lemma_nothing_added(before);
        }
        validate_field(&self.acct, "Acct", path, patterns, out);
        proof {
            let added = field_reports(self.acct, "Acct"@, here);
            lemma_more_added(before, expected, added);
            expected = expected + added;
        }
        validate_optional(&self.ntry, "Ntry", path, patterns, out);
        proof {
            let added = optional_reports(self.ntry, "Ntry"@, here);
            lemma_more_added(before, expected, added);
            expected = expected + added;
        }
    }
}

/// The alternatives of a choice: exactly one of them is populated.
#[derive(Debug, Default, Clone, PartialEq)]
pub struct PaymentStatusReason1ChoiceEnum {
    /// Serialized as `Sspd`.
    pub sspd: Option<SuspendedStatusReason1Code>,
    /// Serialized as `PdgFlngSttlm`.
    pub pdg_flng_sttlm: Option<PendingFailingSettlement1Code>,
    /// Serialized as `PdgSttlm`.
    pub pdg_sttlm: Option<PendingSettlement2Code>,
    /// Serialized as `Prtry`.
    pub prtry: Option<Max35Text>,
    /// Serialized as `PrtryRjctn`.
    pub prtry_rjctn: Option<ProprietaryStatusJustification2>,
    /// Serialized as `Canc`.
    pub canc: Option<CancelledStatusReason1Code>,
    /// Serialized as `Umtchd`.
    pub umtchd: Option<UnmatchedStatusReason1Code>,
}

impl Validate for PaymentStatusReason1ChoiceEnum {
    open spec fn violations(&self, path: Seq<SegmentModel>) -> Seq<ReportModel> {
        Seq::empty()
            + choice_reports(
                Seq::empty()
                    + name_if(self.sspd.is_some(), "Sspd"@)
                    + name_if(self.pdg_flng_sttlm.is_some(), "PdgFlngSttlm"@)
                    + name_if(self.pdg_sttlm.is_some(), "PdgSttlm"@)
                    + name_if(self.prtry.is_some(), "Prtry"@)
                    + name_if(self.prtry_rjctn.is_some(), "PrtryRjctn"@)
                    + name_if(self.canc.is_some(), "Canc"@)
                    + name_if(self.umtchd.is_some(), "Umtchd"@),
                path,
            )
            + optional_reports(self.sspd, "Sspd"@, path)
            + optional_reports(self.pdg_flng_sttlm, "PdgFlngSttlm"@, path)
            + optional_reports(self.pdg_sttlm, "PdgSttlm"@, path)
            + optional_reports(self.prtry, "Prtry"@, path)
            + optional_reports(self.prtry_rjctn, "PrtryRjctn"@, path)
            + optional_reports(self.canc, "Canc"@, path)
            + optional_reports(self.umtchd, "Umtchd"@, path)
    }

    fn validate_into(
        &self,
        path: &Vec<PathSegment>,
        patterns: &IdentifierPatterns,
        out: &mut Vec<ValidationViolation>,
    ) {
        let ghost before = reports_model(out@);
        let ghost here = path_model(path@);
        let ghost mut expected = Seq::<ReportModel>::empty();
        proof {
            lemma_nothing_added(before);
        }
        let mut present: Vec<String> = Vec::new();
        let ghost mut names = Seq::<Seq<char>>::empty();
        proof {
            assert(names_model(present@) =~= names);
        }
        note_present(self.sspd.is_some(), "Sspd", &mut present);
        proof {
            names = names + name_if(self.sspd.is_some(), "Sspd"@);
        }
        note_present(self.pdg_flng_sttlm.is_some(), "PdgFlngSttlm", &mut present);
        proof {
            names = names + name_if(self.pdg_flng_sttlm.is_some(), "PdgFlngSttlm"@);
        }
        note_present(self.pdg_sttlm.is_some(), "PdgSttlm", &mut present);
        proof {
            names = names + name_if(self.pdg_sttlm.is_some(), "PdgSttlm"@);
        }
        note_present(self.prtry.is_some(), "Prtry", &mut present);
        proof {
            names = names + name_if(self.prtry.is_some(), "Prtry"@);
        }
        note_present(self.prtry_rjctn.is_some(), "PrtryRjctn", &mut present);
        proof {
            names = names + name_if(self.prtry_rjctn.is_some(), "PrtryRjctn"@);
        }
        note_present(self.canc.is_some(), "Canc", &mut present);
        proof {
            names = names + name_if(self.canc.is_some(), "Canc"@);
        }
        note_present(self.umtchd.is_some(), "Umtchd", &mut present);
        proof {
            names = names + name_if(self.umtchd.is_some(), "Umtchd"@);
        }
        report_choice(present, path, out);
        proof {
            let added = choice_reports(names, here);
            lemma_more_added(before, expected, added);
            expected = expected + added;
        }
        validate_optional(&self.sspd, "Sspd", path, patterns, out);
        proof {
            let added = optional_reports(self.sspd, "Sspd"@, here);
            lemma_more_added(before, expected, added);
            expected = expected + added;
        }
        validate_optional(&self.pdg_flng_sttlm, "PdgFlngSttlm", path, patterns, out);
        proof {
            let added = optional_reports(self.pdg_flng_sttlm, "PdgFlngSttlm"@, here);
            lemma_more_added(before, expected, added);
            expected = expected + added;
        }
        validate_optional(&self.pdg_sttlm, "PdgSttlm", path, patterns, out);
        proof {
            let added = optional_reports(self.pdg_sttlm, "PdgSttlm"@, here);
            lemma_more_added(before, expected, added);
            expected = expected + added;
        }
        validate_optional(&self.prtry, "Prtry", path, patterns, out);
        proof {
            let added = optional_reports(self.prtry, "Prtry"@, here);
            lemma_more_added(before, expected, added);
            expected = expected + added;
        }
        validate_optional(&self.prtry_rjctn, "PrtryRjctn", path, patterns, out);
        proof {
            let added = optional_reports(self.prtry_rjctn, "PrtryRjctn"@, here);
            lemma_more_added(before, expected, added);
            expected = expected + added;
        }
        validate_optional(&self.canc, "Canc", path, patterns, out);
        proof {
            let added = optional_reports(self.canc, "Canc"@, here);
            lemma_more_added(before, expected, added);
            expected = expected + added;
        }
        validate_optional(&self.umtchd, "Umtchd", path, patterns, out);
        proof {
            let added = optional_reports(self.umtchd, "Umtchd"@, here);
            lemma_more_added(before, expected, added);
            expected = expected + added;
        }
    }
}

/// A choice, serialized as its populated alternative.
#[derive(Debug, Default, Clone, PartialEq)]
pub struct PaymentStatusReason1Choice {
    /// Serialized in place, without an element of its own.
    pub value: PaymentStatusReason1ChoiceEnum,
}

impl Validate for PaymentStatusReason1Choice {
    open spec fn violations(&self, path: Seq<SegmentModel>) -> Seq<ReportModel> {
        Seq::empty()
            + self.value.violations(path)
    }

    fn validate_into(
        &self,
        path: &Vec<PathSegment>,
        patterns: &IdentifierPatterns,
        out: &mut Vec<ValidationViolation>,
    ) {
        let ghost before = reports_model(out@);
        let ghost here = path_model(path@);
        let ghost mut expected = Seq::<ReportModel>::empty();
        proof {
            lemma_nothing_added(before);
        }
        self.value.validate_into(path, patterns, out);
        proof {
            let added = self.value.violations(here);
            lemma_more_added(before, expected, added);
            expected = expected + added;
        }
    }
}

/// Text that matches `[A-Z0-9]{4,4}[A-Z]{2,2}[A-Z0-9]{2,2}([A-Z0-9]{3,3}){0,1}`.
#[derive(Debug, Default, Clone, PartialEq)]
pub struct AnyBicDec2014Identifier {
    /// The text of the element.
    pub value: String,
}

impl Validate for AnyBicDec2014Identifier {
    open spec fn violations(&self, path: Seq<SegmentModel>) -> Seq<ReportModel> {
        Seq::empty()
            + pattern_reports(self.value@, "[A-Z0-9]{4,4}[A-Z]{2,2}[A-Z0-9]{2,2}([A-Z0-9]{3,3}){0,1}"@, path)
    }

    fn validate_into(
        &self,
        path: &Vec<PathSegment>,
        patterns: &IdentifierPatterns,
        out: &mut Vec<ValidationViolation>,
    ) {
        let ghost before = reports_model(out@);
        let ghost here = path_model(path@);
        let ghost mut expected = Seq::<ReportModel>::empty();
        proof {
            lemma_nothing_added(before);
        }
        report_pattern(self.value.as_str(), patterns.any_bic_dec_2014_identifier(), path, out);
        proof {
            let added = pattern_reports(self.value@, "[A-Z0-9]{4,4}[A-Z]{2,2}[A-Z0-9]{2,2}([A-Z0-9]{3,3}){0,1}"@, here);
            lemma_more_added(before, expected, added);
            expected = expected + added;
        }
    }
}

#[derive(Debug, Default, Clone, PartialEq)]
pub enum UnmatchedStatusReason1Code {
    /// Serialized as `CMIS`.
    Cmis,
    /// Serialized as `DDAT`.
    Ddat,
    /// Serialized as `DELN`.
    Deln,
    /// Serialized as `DEPT`.
    Dept,
    /// Serialized as `DMON`.
    Dmon,
    /// Serialized as `DDEA`.
    Ddea,
    /// Serialized as `DQUA`.
    Dqua,
    /// Serialized as `CADE`.
    Cade,
    /// Serialized as `SETR`.
    Setr,
    /// Serialized as `DSEC`.
    Dsec,
    /// Serialized as `VASU`.
    Vasu,
    /// Serialized as `DTRA`.
    Dtra,
    /// Serialized as `RSPR`.
    Rspr,
    /// Serialized as `REPO`.
    Repo,
    /// Serialized as `CLAT`.
    Clat,
    /// Serialized as `RERT`.
    Rert,
    /// Serialized as `REPA`.
    Repa,
    /// Serialized as `REPP`.
    Repp,
    /// Serialized as `PHYS`.
    Phys,
    /// Serialized as `IIND`.
    Iind,
    /// Serialized as `FRAP`.
    Frap,
    /// Serialized as `PLCE`.
    Plce,
    /// Serialized as `PODU`.
    Podu,
    /// Serialized as `FORF`.
    Forf,
    /// Serialized as `REGD`.
    Regd,
    /// Serialized as `RTGS`.
    Rtgs,
    /// Serialized as `ICAG`.
    Icag,
    /// Serialized as `CPCA`.
    Cpca,
    /// Serialized as `CHAR`.
    Char,
    /// Serialized as `IEXE`.
    Iexe,
    /// Serialized as `NCRR`.
    Ncrr,
    /// Serialized as `NMAS`.
    Nmas,
    /// Serialized as `SAFE`.
    Safe,
    /// Serialized as `DTRD`.
    Dtrd,
    /// Serialized as `LATE`.
    Late,
    /// Serialized as `TERM`.
    Term,
    /// Serialized as `ICUS`.
    Icus,
    #[default]
    Unknown,
}

impl Validate for UnmatchedStatusReason1Code {
    open spec fn violations(&self, path: Seq<SegmentModel>) -> Seq<ReportModel> {
        Seq::empty()
    }

    fn validate_into(
        &self,
        path: &Vec<PathSegment>,
        patterns: &IdentifierPatterns,
        out: &mut Vec<ValidationViolation>,
    ) {
        proof {
            lemma_nothing_added(reports_model(out@));
        }
    }
}

#[derive(Debug, Default, Clone, PartialEq)]
pub struct FinancialInstitutionIdentification18 {
    /// Serialized as `BICFI`.
    pub bicfi: Option<BicfiDec2014Identifier>,
    /// Serialized as `ClrSysMmbId`.
    pub clr_sys_mmb_id: Option<ClearingSystemMemberIdentification2>,
    /// Serialized as `LEI`.
    pub lei: Option<LeiIdentifier>,
    /// Serialized as `Nm`.
    pub nm: Option<Max140Text>,
    /// Serialized as `PstlAdr`.
    pub pstl_adr: Option<PostalAddress24>,
    /// Serialized as `Othr`.
    pub othr: Option<GenericFinancialIdentification1>,
}

impl Validate for FinancialInstitutionIdentification18 {
    open spec fn violations(&self, path: Seq<SegmentModel>) -> Seq<ReportModel> {
        Seq::empty()
            + optional_reports(self.bicfi, "BICFI"@, path)
            + optional_reports(self.clr_sys_mmb_id, "ClrSysMmbId"@, path)
            + optional_reports(self.lei, "LEI"@, path)
            + optional_reports(self.nm, "Nm"@, path)
            + optional_reports(self.pstl_adr, "PstlAdr"@, path)
            + optional_reports(self.othr, "Othr"@, path)
    }

    fn validate_into(
        &self,
        path: &Vec<PathSegment>,
        patterns: &IdentifierPatterns,
        out: &mut Vec<ValidationViolation>,
    ) {
        let ghost before = reports_model(out@);
        let ghost here = path_model(path@);
        let ghost mut expected = Seq::<ReportModel>::empty();
        proof {
            lemma_nothing_added(before);
        }
        validate_optional(&self.bicfi, "BICFI", path, patterns, out);
        proof {
            let added = optional_reports(self.bicfi, "BICFI"@, here);
            lemma_more_added(before, expected, added);
            expected = expected + added;
        }
        validate_optional(&self.clr_sys_mmb_id, "ClrSysMmbId", path, patterns, out);
        proof {
            let added = optional_reports(self.clr_sys_mmb_id, "ClrSysMmbId"@, here);
            lemma_more_added(before, expected, added);
            expected = expected + added;
        }
        validate_optional(&self.lei, "LEI", path, patterns, out);
        proof {
            let added = optional_reports(self.lei, "LEI"@, here);
            lemma_more_added(before, expected, added);
            expected = expected + added;
        }
        validate_optional(&self.nm, "Nm", path, patterns, out);
        proof {
            let added = optional_reports(self.nm, "Nm"@, here);
            lemma_more_added(before, expected, added);
            expected = expected + added;
        }
        validate_optional(&self.pstl_adr, "PstlAdr", path, patterns, out);
        proof {
            let added = optional_reports(self.pstl_adr, "PstlAdr"@, here);
            lemma_more_added(before, expected, added);
            expected = expected + added;
        }
        validate_optional(&self.othr, "Othr", path, patterns, out);
        proof {
            let added = optional_reports(self.othr, "Othr"@, here);
            lemma_more_added(before, expected, added);
            expected = expected + added;
        }
    }
}

#[derive(Debug, Default, Clone, PartialEq)]
pub struct SupplementaryData1<A> {
    /// Serialized as `PlcAndNm`.
    pub plc_and_nm: Option<Max350Text>,
    /// Serialized as `Envlp`.
    pub envlp: SupplementaryDataEnvelope1<A>,
}

impl<A: Validate> Validate for SupplementaryData1<A> {
    open spec fn violations(&self, path: Seq<SegmentModel>) -> Seq<ReportModel> {
        Seq::empty()
            + optional_reports(self.plc_and_nm, "PlcAndNm"@, path)
            + field_reports(self.envlp, "Envlp"@, path)
    }

    fn validate_into(
        &self,
        path: &Vec<PathSegment>,
        patterns: &IdentifierPatterns,
        out: &mut Vec<ValidationViolation>,
    ) {
        let ghost before = reports_model(out@);
        let ghost here = path_model(path@);
        let ghost mut expected = Seq::<ReportModel>::empty();
        proof {
            lemma_nothing_added(before);
        }
        validate_optional(&self.plc_and_nm, "PlcAndNm", path, patterns, out);
        proof {
            let added = optional_reports(self.plc_and_nm, "PlcAndNm"@, here);
            lemma_more_added(before, expected, added);
            expected = expected + added;
        }
        validate_field(&self.envlp, "Envlp", path, patterns, out);
        proof {
            let added = field_reports(self.envlp, "Envlp"@, here);
            lemma_more_added(before, expected, added);
            expected = expected + added;
        }
    }
}

#[derive(Debug, Default, Clone, PartialEq)]
pub enum CreditDebitCode {
    /// Serialized as `CRDT`.
    Crdt,
    /// Serialized as `DBIT`.
    Dbit,
    #[default]
    Unknown,
}

impl Validate for CreditDebitCode {
    open spec fn violations(&self, path: Seq<SegmentModel>) -> Seq<ReportModel> {
        Seq::empty()
    }

    fn validate_into(
        &self,
        path: &Vec<PathSegment>,
        patterns: &IdentifierPatterns,
        out: &mut Vec<ValidationViolation>,
    ) {
        proof {
            lemma_nothing_added(reports_model(out@));
        }
    }
}

#[derive(Debug, Default, Clone, PartialEq)]
pub struct PersonIdentification13 {
    /// Serialized as `DtAndPlcOfBirth`.
    pub dt_and_plc_of_birth: Option<DateAndPlaceOfBirth1>,
    /// Serialized as `Othr`.
    pub othr: Vec<GenericPersonIdentification1>,
}

impl Validate for PersonIdentification13 {
    open spec fn violations(&self, path: Seq<SegmentModel>) -> Seq<ReportModel> {
        Seq::empty()
            + optional_reports(self.dt_and_plc_of_birth, "DtAndPlcOfBirth"@, path)
            + list_reports(self.othr@, Some(0), None, "Othr"@, path)
    }

    fn validate_into(
        &self,
        path: &Vec<PathSegment>,
        patterns: &IdentifierPatterns,
        out: &mut Vec<ValidationViolation>,
    ) {
        let ghost before = reports_model(out@);
        let ghost here = path_model(path@);
        let ghost mut expected = Seq::<ReportModel>::empty();
        proof {
            lemma_nothing_added(before);
        }
        validate_optional(&self.dt_and_plc_of_birth, "DtAndPlcOfBirth", path, patterns, out);
        proof {
            let added = optional_reports(self.dt_and_plc_of_birth, "DtAndPlcOfBirth"@, here);
            lemma_more_added(before, expected, added);
            expected = expected + added;
        }
        validate_list(&self.othr, Some(0), None, "Othr", path, patterns, out);
        proof {
            let added = list_reports(self.othr@, Some(0), None, "Othr"@, here);
            lemma_more_added(before, expected, added);
            expected = expected + added;
        }
    }
}

#[derive(Debug, Default, Clone, PartialEq)]
pub struct ShortPaymentIdentification2 {
    /// Serialized as `TxId`.
    pub tx_id: Max35Text,
    /// Serialized as `IntrBkSttlmDt`.
    pub intr_bk_sttlm_dt: IsoDate,
    /// Serialized as `InstgAgt`.
    pub instg_agt: BranchAndFinancialInstitutionIdentification6,
}

impl Validate for ShortPaymentIdentification2 {
    open spec fn violations(&self, path: Seq<SegmentModel>) -> Seq<ReportModel> {
        Seq::empty()
            + field_reports(self.tx_id, "TxId"@, path)
            + field_reports(self.intr_bk_sttlm_dt, "IntrBkSttlmDt"@, path)
            + field_reports(self.instg_agt, "InstgAgt"@, path)
    }

    fn validate_into(
        &self,
        path: &Vec<PathSegment>,
        patterns: &IdentifierPatterns,
        out: &mut Vec<ValidationViolation>,
    ) {
        let ghost before = reports_model(out@);
        let ghost here = path_model(path@);
        let ghost mut expected = Seq::<ReportModel>::empty();
        proof {
            lemma_nothing_added(before);
        }
        validate_field(&self.tx_id, "TxId", path, patterns, out);
        proof {
            let added = field_reports(self.tx_id, "TxId"@, here);
            lemma_more_added(before, expected, added);
            expected = expected + added;
        }
        validate_field(&self.intr_bk_sttlm_dt, "IntrBkSttlmDt", path, patterns, out);
        proof {
            let added = field_reports(self.intr_bk_sttlm_dt, "IntrBkSttlmDt"@, here);
            lemma_more_added(before, expected, added);
            expected = expected + added;
        }
        validate_field(&self.instg_agt, "InstgAgt", path, patterns, out);
        proof {
            let added = field_reports(self.instg_agt, "InstgAgt"@, here);
            lemma_more_added(before, expected, added);
            expected = expected + added;
        }
    }
}

/// Text of 1 to 5 characters.
#[derive(Debug, Default, Clone, PartialEq)]
pub struct ExternalClearingSystemIdentification1Code {
    /// The text of the element.
    pub value: String,
}

impl Validate for ExternalClearingSystemIdentification1Code {
    open spec fn violations(&self, path: Seq<SegmentModel>) -> Seq<ReportModel> {
        Seq::empty()
            + length_reports(self.value@, Some(1), Some(5), path)
    }

    fn validate_into(
        &self,
        path: &Vec<PathSegment>,
        patterns: &IdentifierPatterns,
        out: &mut Vec<ValidationViolation>,
    ) {
        let ghost before = reports_model(out@);
        let ghost here = path_model(path@);
        let ghost mut expected = Seq::<ReportModel>::empty();
        proof {
            lemma_nothing_added(before);
        }
        report_length(self.value.as_str(), Some(1), Some(5), path, out);
        proof {
            let added = length_reports(self.value@, Some(1), Some(5), here);
            lemma_more_added(before, expected, added);
            expected = expected + added;
        }
    }
}

#[derive(Debug, Default, Clone, PartialEq)]
pub enum FinalStatus1Code {
    /// Serialized as `STLD`.
    Stld,
    /// Serialized as `RJTD`.
    Rjtd,
    /// Serialized as `CAND`.
    Cand,
    /// Serialized as `FNLD`.
    Fnld,
    #[default]
    Unknown,
}

impl Validate for FinalStatus1Code {
    open spec fn violations(&self, path: Seq<SegmentModel>) -> Seq<ReportModel> {
        Seq::empty()
    }

    fn validate_into(
        &self,
        path: &Vec<PathSegment>,
        patterns: &IdentifierPatterns,
        out: &mut Vec<ValidationViolation>,
    ) {
        proof {
            lemma_nothing_added(reports_model(out@));
        }
    }
}

/// Text that matches `[A-Z0-9]{18,18}[0-9]{2,2}`.
#[derive(Debug, Default, Clone, PartialEq)]
pub struct LeiIdentifier {
    /// The text of the element.
    pub value: String,
}

impl Validate for LeiIdentifier {
    open spec fn violations(&self, path: Seq<SegmentModel>) -> Seq<ReportModel> {
        Seq::empty()
            + pattern_reports(self.value@, "[A-Z0-9]{18,18}[0-9]{2,2}"@, path)
    }

    fn validate_into(
        &self,
        path: &Vec<PathSegment>,
        patterns: &IdentifierPatterns,
        out: &mut Vec<ValidationViolation>,
    ) {
        let ghost before = reports_model(out@);
        let ghost here = path_model(path@);
        let ghost mut expected = Seq::<ReportModel>::empty();
        proof {
            lemma_nothing_added(before);
        }
        report_pattern(self.value.as_str(), patterns.lei_identifier(), path, out);
        proof {
            let added = pattern_reports(self.value@, "[A-Z0-9]{18,18}[0-9]{2,2}"@, here);
            lemma_more_added(before, expected, added);
            expected = expected + added;
        }
    }
}

/// The alternatives of a choice: exactly one of them is populated.
#[derive(Debug, Default, Clone, PartialEq)]
pub struct DateAndDateTime2ChoiceEnum {
    /// Serialized as `Dt`.
    pub dt: Option<IsoDate>,
    /// Serialized as `DtTm`.
    pub dt_tm: Option<IsoDateTime>,
}

impl Validate for DateAndDateTime2ChoiceEnum {
    open spec fn violations(&self, path: Seq<SegmentModel>) -> Seq<ReportModel> {
        Seq::empty()
            + choice_reports(
                Seq::empty()
                    + name_if(self.dt.is_some(), "Dt"@)
                    + name_if(self.dt_tm.is_some(), "DtTm"@),
                path,
            )
            + optional_reports(self.dt, "Dt"@, path)
            + optional_reports(self.dt_tm, "DtTm"@, path)
    }

    fn validate_into(
        &self,
        path: &Vec<PathSegment>,
        patterns: &IdentifierPatterns,
        out: &mut Vec<ValidationViolation>,
    ) {
        let ghost before = reports_model(out@);
        let ghost here = path_model(path@);
        let ghost mut expected = Seq::<ReportModel>::empty();
        proof {
            lemma_nothing_added(before);
        }
        let mut present: Vec<String> = Vec::new();
        let ghost mut names = Seq::<Seq<char>>::empty();
        proof {
            assert(names_model(present@) =~= names);
        }
        note_present(self.dt.is_some(), "Dt", &mut present);
        proof {
            names = names + name_if(self.dt.is_some(), "Dt"@);
        }
        note_present(self.dt_tm.is_some(), "DtTm", &mut present);
        proof {
            names = names + name_if(self.dt_tm.is_some(), "DtTm"@);
        }
        report_choice(present, path, out);
        proof {
            let added = choice_reports(names, here);
            lemma_more_added(before, expected, added);
            expected = expected + added;
        }
        validate_optional(&self.dt, "Dt", path, patterns, out);
        proof {
            let added = optional_reports(self.dt, "Dt"@, here);
            lemma_more_added(before, expected, added);
            expected = expected + added;
        }
        validate_optional(&self.dt_tm, "DtTm", path, patterns, out);
        proof {
            let added = optional_reports(self.dt_tm, "DtTm"@, here);
            lemma_more_added(before, expected, added);
            expected = expected + added;
        }
    }
}

/// A choice, serialized as its populated alternative.
#[derive(Debug, Default, Clone, PartialEq)]
pub struct DateAndDateTime2Choice {
    /// Serialized in place, without an element of its own.
    pub value: DateAndDateTime2ChoiceEnum,
}

impl Validate for DateAndDateTime2Choice {
    open spec fn violations(&self, path: Seq<SegmentModel>) -> Seq<ReportModel> {
        Seq::empty()
            + self.value.violations(path)
    }

    fn validate_into(
        &self,
        path: &Vec<PathSegment>,
        patterns: &IdentifierPatterns,
        out: &mut Vec<ValidationViolation>,
    ) {
        let ghost before = reports_model(out@);
        let ghost here = path_model(path@);
        let ghost mut expected = Seq::<ReportModel>::empty();
        proof {
            lemma_nothing_added(before);
        }
        self.value.validate_into(path, patterns, out);
        proof {
            let added = self.value.violations(here);
            lemma_more_added(before, expected, added);
            expected = expected + added;
        }
    }
}

#[derive(Debug, Default, Clone, PartialEq)]
pub struct GenericFinancialIdentification1 {
    /// Serialized as `Id`.
    pub id: Max35Text,
    /// Serialized as `SchmeNm`.
    pub schme_nm: Option<FinancialIdentificationSchemeName1Choice>,
    /// Serialized as `Issr`.
    pub issr: Option<Max35Text>,
}

impl Validate for GenericFinancialIdentification1 {
    open spec fn violations(&self, path: Seq<SegmentModel>) -> Seq<ReportModel> {
        Seq::empty()
            + field_reports(self.id, "Id"@, path)
            + optional_reports(self.schme_nm, "SchmeNm"@, path)
            + optional_reports(self.issr, "Issr"@, path)
    }

    fn validate_into(
        &self,
        path: &Vec<PathSegment>,
        patterns: &IdentifierPatterns,
        out: &mut Vec<ValidationViolation>,
    ) {
        let ghost before = reports_model(out@);
        let ghost here = path_model(path@);
        let ghost mut expected = Seq::<ReportModel>::empty();
        proof {
            lemma_nothing_added(before);
        }
        validate_field(&self.id, "Id", path, patterns, out);
        proof {
            let added = field_reports(self.id, "Id"@, here);
            lemma_more_added(before, expected, added);
            expected = expected + added;
        }
        validate_optional(&self.schme_nm, "SchmeNm", path, patterns, out);
        proof {
            let added = optional_reports(self.schme_nm, "SchmeNm"@, here);
            lemma_more_added(before, expected, added);
            expected = expected + added;
        }
        validate_optional(&self.issr, "Issr", path, patterns, out);
        proof {
            let added = optional_reports(self.issr, "Issr"@, here);
            lemma_more_added(before, expected, added);
            expected = expected + added;
        }
    }
}

/// Text of 1 to 4 characters.
#[derive(Debug, Default, Clone, PartialEq)]
pub struct Max4Text {
    /// The text of the element.
    pub value: String,
}

impl Validate for Max4Text {
    open spec fn violations(&self, path: Seq<SegmentModel>) -> Seq<ReportModel> {
        Seq::empty()
            + length_reports(self.value@, Some(1), Some(4), path)
    }

    fn validate_into(
        &self,
        path: &Vec<PathSegment>,
        patterns: &IdentifierPatterns,
        out: &mut Vec<ValidationViolation>,
    ) {
        let ghost before = reports_model(out@);
        let ghost here = path_model(path@);
        let ghost mut expected = Seq::<ReportModel>::empty();
        proof {
            lemma_nothing_added(before);
        }
        report_length(self.value.as_str(), Some(1), Some(4), path, out);
        proof {
            let added = length_reports(self.value@, Some(1), Some(4), here);
            lemma_more_added(before, expected, added);
            expected = expected + added;
        }
    }
}

#[derive(Debug, Default, Clone, PartialEq)]
pub enum PreferredContactMethod1Code {
    /// Serialized as `LETT`.
    Lett,
    /// Serialized as `MAIL`.
    Mail,
    /// Serialized as `PHON`.
    Phon,
    /// Serialized as `FAXX`.
    Faxx,
    /// Serialized as `CELL`.
    Cell,
    #[default]
    Unknown,
}

impl Validate for PreferredContactMethod1Code {
    open spec fn violations(&self, path: Seq<SegmentModel>) -> Seq<ReportModel> {
        Seq::empty()
    }

    fn validate_into(
        &self,
        path: &Vec<PathSegment>,
        patterns: &IdentifierPatterns,
        out: &mut Vec<ValidationViolation>,
    ) {
        proof {
            lemma_nothing_added(reports_model(out@));
        }
    }
}

/// Text of 1 to 35 characters.
#[derive(Debug, Default, Clone, PartialEq)]
pub struct Max35Text {
    /// The text of the element.
    pub value: String,
}

impl Validate for Max35Text {
    open spec fn violations(&self, path: Seq<SegmentModel>) -> Seq<ReportModel> {
        Seq::empty()
            + length_reports(self.value@, Some(1), Some(35), path)
    }

    fn validate_into(
        &self,
        path: &Vec<PathSegment>,
        patterns: &IdentifierPatterns,
        out: &mut Vec<ValidationViolation>,
    ) {
        let ghost before = reports_model(out@);
        let ghost here = path_model(path@);
        let ghost mut expected = Seq::<ReportModel>::empty();
        proof {
            lemma_nothing_added(before);
        }
        report_length(self.value.as_str(), Some(1), Some(35), path, out);
        proof {
            let added = length_reports(self.value@, Some(1), Some(35), here);
            lemma_more_added(before, expected, added);
            expected = expected + added;
        }
    }
}

#[derive(Debug, Default, Clone, PartialEq)]
pub enum NamePrefix2Code {
    /// Serialized as `DOCT`.
    Doct,
    /// Serialized as `MADM`.
    Madm,
    /// Serialized as `MISS`.
    Miss,
    /// Serialized as `MIST`.
    Mist,
    /// Serialized as `MIKS`.
    Miks,
    #[default]
    Unknown,
}

impl Validate for NamePrefix2Code {
    open spec fn violations(&self, path: Seq<SegmentModel>) -> Seq<ReportModel> {
        Seq::empty()
    }

    fn validate_into(
        &self,
        path: &Vec<PathSegment>,
        patterns: &IdentifierPatterns,
        out: &mut Vec<ValidationViolation>,
    ) {
        proof {
            lemma_nothing_added(reports_model(out@));
        }
    }
}

/// The alternatives of a choice: exactly one of them is populated.
#[derive(Debug, Default, Clone, PartialEq)]
pub struct TransactionReportOrError5ChoiceEnum {
    /// Serialized as `OprlErr`.
    pub oprl_err: Option<ErrorHandling5>,
    /// Serialized as `BizRpt`.
    pub biz_rpt: Option<Transactions9>,
}

impl Validate for TransactionReportOrError5ChoiceEnum {
    open spec fn violations(&self, path: Seq<SegmentModel>) -> Seq<ReportModel> {
        Seq::empty()
            + choice_reports(
                Seq::empty()
                    + name_if(self.oprl_err.is_some(), "OprlErr"@)
                    + name_if(self.biz_rpt.is_some(), "BizRpt"@),
                path,
            )
            + optional_reports(self.oprl_err, "OprlErr"@, path)
            + optional_reports(self.biz_rpt, "BizRpt"@, path)
    }

    fn validate_into(
        &self,
        path: &Vec<PathSegment>,
        patterns: &IdentifierPatterns,
        out: &mut Vec<ValidationViolation>,
    ) {
        let ghost before = reports_model(out@);
        let ghost here = path_model(path@);
        let ghost mut expected = Seq::<ReportModel>::empty();
        proof {
            lemma_nothing_added(before);
        }
        let mut present: Vec<String> = Vec::new();
        let ghost mut names = Seq::<Seq<char>>::empty();
        proof {
            assert(names_model(present@) =~= names);
        }
        note_present(self.oprl_err.is_some(), "OprlErr", &mut present);
        proof {
            names = names + name_if(self.oprl_err.is_some(), "OprlErr"@);
        }
        note_present(self.biz_rpt.is_some(), "BizRpt", &mut present);
        proof {
            names = names + name_if(self.biz_rpt.is_some(), "BizRpt"@);
        }
        report_choice(present, path, out);
        proof {
            let added = choice_reports(names, here);
            lemma_more_added(before, expected, added);
            expected = expected + added;
        }
        validate_optional(&self.oprl_err, "OprlErr", path, patterns, out);
        proof {
            let added = optional_reports(self.oprl_err, "OprlErr"@, here);
            lemma_more_added(before, expected, added);
            expected = expected + added;
        }
        validate_optional(&self.biz_rpt, "BizRpt", path, patterns, out);
        proof {
            let added = optional_reports(self.biz_rpt, "BizRpt"@, here);
            lemma_more_added(before, expected, added);
            expected = expected + added;
        }
    }
}

/// A choice, serialized as its populated alternative.
#[derive(Debug, Default, Clone, PartialEq)]
pub struct TransactionReportOrError5Choice {
    /// Serialized in place, without an element of its own.
    pub value: TransactionReportOrError5ChoiceEnum,
}

impl Validate for TransactionReportOrError5Choice {
    open spec fn violations(&self, path: Seq<SegmentModel>) -> Seq<ReportModel> {
        Seq::empty()
            + self.value.violations(path)
    }

    fn validate_into(
        &self,
        path: &Vec<PathSegment>,
        patterns: &IdentifierPatterns,
        out: &mut Vec<ValidationViolation>,
    ) {
        let ghost before = reports_model(out@);
        let ghost here = path_model(path@);
        let ghost mut expected = Seq::<ReportModel>::empty();
        proof {
            lemma_nothing_added(before);
        }
        self.value.validate_into(path, patterns, out);
        proof {
            let added = self.value.violations(here);
            lemma_more_added(before, expected, added);
            expected = expected + added;
        }
    }
}

#[derive(Debug, Default, Clone, PartialEq)]
pub struct PaymentStatus6 {
    /// Serialized as `Cd`.
    pub cd: Option<PaymentStatusCode6Choice>,
    /// Serialized as `DtTm`.
    pub dt_tm: Option<DateAndDateTime2Choice>,
    /// Serialized as `Rsn`.
    pub rsn: Vec<PaymentStatusReason1Choice>,
}

impl Validate for PaymentStatus6 {
    open spec fn violations(&self, path: Seq<SegmentModel>) -> Seq<ReportModel> {
        Seq::empty()
            + optional_reports(self.cd, "Cd"@, path)
            + optional_reports(self.dt_tm, "DtTm"@, path)
            + list_reports(self.rsn@, Some(0), None, "Rsn"@, path)
    }

    fn validate_into(
        &self,
        path: &Vec<PathSegment>,
        patterns: &IdentifierPatterns,
        out: &mut Vec<ValidationViolation>,
    ) {
        let ghost before = reports_model(out@);
        let ghost here = path_model(path@);
        let ghost mut expected = Seq::<ReportModel>::empty();
        proof {
            lemma_nothing_added(before);
        }
        validate_optional(&self.cd, "Cd", path, patterns, out);
        proof {
            let added = optional_reports(self.cd, "Cd"@, here);
            lemma_more_added(before, expected, added);
            expected = expected + added;
        }
        validate_optional(&self.dt_tm, "DtTm", path, patterns, out);
        proof {
            let added = optional_reports(self.dt_tm, "DtTm"@, here);
            lemma_more_added(before, expected, added);
            expected = expected + added;
        }
        validate_list(&self.rsn, Some(0), None, "Rsn", path, patterns, out);
        proof {
            let added = list_reports(self.rsn@, Some(0), None, "Rsn"@, here);
            lemma_more_added(before, expected, added);
            expected = expected + added;
        }
    }
}

#[derive(Debug, Default, Clone, PartialEq)]
pub struct GenericPersonIdentification1 {
    /// Serialized as `Id`.
    pub id: Max35Text,
    /// Serialized as `SchmeNm`.
    pub schme_nm: Option<PersonIdentificationSchemeName1Choice>,
    /// Serialized as `Issr`.
    pub issr: Option<Max35Text>,
}

impl Validate for GenericPersonIdentification1 {
    open spec fn violations(&self, path: Seq<SegmentModel>) -> Seq<ReportModel> {
        Seq::empty()
            + field_reports(self.id, "Id"@, path)
            + optional_reports(self.schme_nm, "SchmeNm"@, path)
            + optional_reports(self.issr, "Issr"@, path)
    }

    fn validate_into(
        &self,
        path: &Vec<PathSegment>,
        patterns: &IdentifierPatterns,
        out: &mut Vec<ValidationViolation>,
    ) {
        let ghost before = reports_model(out@);
        let ghost here = path_model(path@);
        let ghost mut expected = Seq::<ReportModel>::empty();
        proof {
            lemma_nothing_added(before);
        }
        validate_field(&self.id, "Id", path, patterns, out);
        proof {
            let added = field_reports(self.id, "Id"@, here);
            lemma_more_added(before, expected, added);
            expected = expected + added;
        }
        validate_optional(&self.schme_nm, "SchmeNm", path, patterns, out);
        proof {
            let added = optional_reports(self.schme_nm, "SchmeNm"@, here);
            lemma_more_added(before, expected, added);
            expected = expected + added;
        }
        validate_optional(&self.issr, "Issr", path, patterns, out);
        proof {
            let added = optional_reports(self.issr, "Issr"@, here);
            lemma_more_added(before, expected, added);
            expected = expected + added;
        }
    }
}

#[derive(Debug, Default, Clone, PartialEq)]
pub struct TransactionReport6 {
    /// Serialized as `PmtId`.
    pub pmt_id: PaymentIdentification6Choice,
    /// Serialized as `TxOrErr`.
    pub tx_or_err: TransactionOrError5Choice,
}

impl Validate for TransactionReport6 {
    open spec fn violations(&self, path: Seq<SegmentModel>) -> Seq<ReportModel> {
        Seq::empty()
            + field_reports(self.pmt_id, "PmtId"@, path)
            + field_reports(self.tx_or_err, "TxOrErr"@, path)
    }

    fn validate_into(
        &self,
        path: &Vec<PathSegment>,
        patterns: &IdentifierPatterns,
        out: &mut Vec<ValidationViolation>,
    ) {
        let ghost before = reports_model(out@);
        let ghost here = path_model(path@);
        let ghost mut expected = Seq::<ReportModel>::empty();
        proof {
            lemma_nothing_added(before);
        }
        validate_field(&self.pmt_id, "PmtId", path, patterns, out);
        proof {
            let added = field_reports(self.pmt_id, "PmtId"@, here);
            lemma_more_added(before, expected, added);
            expected = expected + added;
        }
        validate_field(&self.tx_or_err, "TxOrErr", path, patterns, out);
        proof {
            let added = field_reports(self.tx_or_err, "TxOrErr"@, here);
            lemma_more_added(before, expected, added);
            expected = expected + added;
        }
    }
}

#[derive(Debug, Default, Clone, PartialEq)]
pub enum PendingStatus4Code {
    /// Serialized as `ACPD`.
    Acpd,
    /// Serialized as `VALD`.
    Vald,
    /// Serialized as `MATD`.
    Matd,
    /// Serialized as `AUTD`.
    Autd,
    /// Serialized as `INVD`.
    Invd,
    /// Serialized as `UMAC`.
    Umac,
    /// Serialized as `STLE`.
    Stle,
    /// Serialized as `STLM`.
    Stlm,
    /// Serialized as `SSPD`.
    Sspd,
    /// Serialized as `PCAN`.
    Pcan,
    /// Serialized as `PSTL`.
    Pstl,
    /// Serialized as `PFST`.
    Pfst,
    /// Serialized as `SMLR`.
    Smlr,
    /// Serialized as `RMLR`.
    Rmlr,
    /// Serialized as `SRBL`.
    Srbl,
    /// Serialized as `AVLB`.
    Avlb,
    /// Serialized as `SRML`.
    Srml,
    #[default]
    Unknown,
}

impl Validate for PendingStatus4Code {
    open spec fn violations(&self, path: Seq<SegmentModel>) -> Seq<ReportModel> {
        Seq::empty()
    }

    fn validate_into(
        &self,
        path: &Vec<PathSegment>,
        patterns: &IdentifierPatterns,
        out: &mut Vec<ValidationViolation>,
    ) {
        proof {
            lemma_nothing_added(reports_model(out@));
        }
    }
}

/// The alternatives of a choice: exactly one of them is populated.
#[derive(Debug, Default, Clone, PartialEq)]
pub struct AccountIdentification4ChoiceEnum {
    /// Serialized as `Othr`.
    pub othr: Option<GenericAccountIdentification1>,
    /// Serialized as `IBAN`.
    pub iban: Option<Iban2007Identifier>,
}

impl Validate for AccountIdentification4ChoiceEnum {
    open spec fn violations(&self, path: Seq<SegmentModel>) -> Seq<ReportModel> {
        Seq::empty()
            + choice_reports(
                Seq::empty()
                    + name_if(self.othr.is_some(), "Othr"@)
                    + name_if(self.iban.is_some(), "IBAN"@),
                path,
            )
            + optional_reports(self.othr, "Othr"@, path)
            + optional_reports(self.iban, "IBAN"@, path)
    }

    fn validate_into(
        &self,
        path: &Vec<PathSegment>,
        patterns: &IdentifierPatterns,
        out: &mut Vec<ValidationViolation>,
    ) {
        let ghost before = reports_model(out@);
        let ghost here = path_model(path@);
        let ghost mut expected = Seq::<ReportModel>::empty();
        proof {
            lemma_nothing_added(before);
        }
        let mut present: Vec<String> = Vec::new();
        let ghost mut names = Seq::<Seq<char>>::empty();
        proof {
            assert(names_model(present@) =~= names);
        }
        note_present(self.othr.is_some(), "Othr", &mut present);
        proof {
            names = names + name_if(self.othr.is_some(), "Othr"@);
        }
        note_present(self.iban.is_some(), "IBAN", &mut present);
        proof {
            names = names + name_if(self.iban.is_some(), "IBAN"@);
        }
        report_choice(present, path, out);
        proof {
            let added = choice_reports(names, here);
            lemma_more_added(before, expected, added);
            expected = expected + added;
        }
        validate_optional(&self.othr, "Othr", path, patterns, out);
        proof {
            let added = optional_reports(self.othr, "Othr"@, here);
            lemma_more_added(before, expected, added);
            expected = expected + added;
        }
        validate_optional(&self.iban, "IBAN", path, patterns, out);
        proof {
            let added = optional_reports(self.iban, "IBAN"@, here);
            lemma_more_added(before, expected, added);
            expected = expected + added;
        }
    }
}

/// A choice, serialized as its populated alternative.
#[derive(Debug, Default, Clone, PartialEq)]
pub struct AccountIdentification4Choice {
    /// Serialized in place, without an element of its own.
    pub value: AccountIdentification4ChoiceEnum,
}

impl Validate for AccountIdentification4Choice {
    open spec fn violations(&self, path: Seq<SegmentModel>) -> Seq<ReportModel> {
        Seq::empty()
            + self.value.violations(path)
    }

    fn validate_into(
        &self,
        path: &Vec<PathSegment>,
        patterns: &IdentifierPatterns,
        out: &mut Vec<ValidationViolation>,
    ) {
        let ghost before = reports_model(out@);
        let ghost here = path_model(path@);
        let ghost mut expected = Seq::<ReportModel>::empty();
        proof {
            lemma_nothing_added(before);
        }
        self.value.validate_into(path, patterns, out);
        proof {
            let added = self.value.violations(here);
            lemma_more_added(before, expected, added);
            expected = expected + added;
        }
    }
}

#[derive(Debug, Default, Clone, PartialEq)]
pub struct ProxyAccountIdentification1 {
    /// Serialized as `Tp`.
    pub tp: Option<ProxyAccountType1Choice>,
    /// Serialized as `Id`.
    pub id: Max2048Text,
}

impl Validate for ProxyAccountIdentification1 {
    open spec fn violations(&self, path: Seq<SegmentModel>) -> Seq<ReportModel> {
        Seq::empty()
            + optional_reports(self.tp, "Tp"@, path)
            + field_reports(self.id, "Id"@, path)
    }

    fn validate_into(
        &self,
        path: &Vec<PathSegment>,
        patterns: &IdentifierPatterns,
        out: &mut Vec<ValidationViolation>,
    ) {
        let ghost before = reports_model(out@);
        let ghost here = path_model(path@);
        let ghost mut expected = Seq::<ReportModel>::empty();
        proof {
            lemma_nothing_added(before);
        }
        validate_optional(&self.tp, "Tp", path, patterns, out);
        proof {
            let added = optional_reports(self.tp, "Tp"@, here);
            lemma_more_added(before, expected, added);
            expected = expected + added;
        }
        validate_field(&self.id, "Id", path, patterns, out);
        proof {
            let added = field_reports(self.id, "Id"@, here);
            lemma_more_added(before, expected, added);
            expected = expected + added;
        }
    }
}

#[derive(Debug, Default, Clone, PartialEq)]
pub struct BranchData3 {
    /// Serialized as `Id`.
    pub id: Option<Max35Text>,
    /// Serialized as `LEI`.
    pub lei: Option<LeiIdentifier>,
    /// Serialized as `Nm`.
    pub nm: Option<Max140Text>,
    /// Serialized as `PstlAdr`.
    pub pstl_adr: Option<PostalAddress24>,
}

impl Validate for BranchData3 {
    open spec fn violations(&self, path: Seq<SegmentModel>) -> Seq<ReportModel> {
        Seq::empty()
            + optional_reports(self.id, "Id"@, path)
            + optional_reports(self.lei, "LEI"@, path)
            + optional_reports(self.nm, "Nm"@, path)
            + optional_reports(self.pstl_adr, "PstlAdr"@, path)
    }

    fn validate_into(
        &self,
        path: &Vec<PathSegment>,
        patterns: &IdentifierPatterns,
        out: &mut Vec<ValidationViolation>,
    ) {
        let ghost before = reports_model(out@);
        let ghost here = path_model(path@);
        let ghost mut expected = Seq::<ReportModel>::empty();
        proof {
            lemma_nothing_added(before);
        }
        validate_optional(&self.id, "Id", path, patterns, out);
        proof {
            let added = optional_reports(self.id, "Id"@, here);
            lemma_more_added(before, expected, added);
            expected = expected + added;
        }
        validate_optional(&self.lei, "LEI", path, patterns, out);
        proof {
            let added = optional_reports(self.lei, "LEI"@, here);
            lemma_more_added(before, expected, added);
            expected = expected + added;
        }
        validate_optional(&self.nm, "Nm", path, patterns, out);
        proof {
            let added = optional_reports(self.nm, "Nm"@, here);
            lemma_more_added(before, expected, added);
            expected = expected + added;
        }
        validate_optional(&self.pstl_adr, "PstlAdr", path, patterns, out);
        proof {
            let added = optional_reports(self.pstl_adr, "PstlAdr"@, here);
            lemma_more_added(before, expected, added);
            expected = expected + added;
        }
    }
}

/// Text of 1 to 4 characters.
#[derive(Debug, Default, Clone, PartialEq)]
pub struct ExternalOrganisationIdentification1Code {
    /// The text of the element.
    pub value: String,
}

impl Validate for ExternalOrganisationIdentification1Code {
    open spec fn violations(&self, path: Seq<SegmentModel>) -> Seq<ReportModel> {
        Seq::empty()
            + length_reports(self.value@, Some(1), Some(4), path)
    }

    fn validate_into(
        &self,
        path: &Vec<PathSegment>,
        patterns: &IdentifierPatterns,
        out: &mut Vec<ValidationViolation>,
    ) {
        let ghost before = reports_model(out@);
        let ghost here = path_model(path@);
        let ghost mut expected = Seq::<ReportModel>::empty();
        proof {
            lemma_nothing_added(before);
        }
        report_length(self.value.as_str(), Some(1), Some(4), path, out);
        proof {
            let added = length_reports(self.value@, Some(1), Some(4), here);
            lemma_more_added(before, expected, added);
            expected = expected + added;
        }
    }
}

/// The alternatives of a choice: exactly one of them is populated.
#[derive(Debug, Default, Clone, PartialEq)]
pub struct AddressType3ChoiceEnum {
    /// Serialized as `Prtry`.
    pub prtry: Option<GenericIdentification30>,
    /// Serialized as `Cd`.
    pub cd: Option<AddressType2Code>,
}

impl Validate for AddressType3ChoiceEnum {
    open spec fn violations(&self, path: Seq<SegmentModel>) -> Seq<ReportModel> {
        Seq::empty()
            + choice_reports(
                Seq::empty()
                    + name_if(self.prtry.is_some(), "Prtry"@)
                    + name_if(self.cd.is_some(), "Cd"@),
                path,
            )
            + optional_reports(self.prtry, "Prtry"@, path)
            + optional_reports(self.cd, "Cd"@, path)
    }

    fn validate_into(
        &self,
        path: &Vec<PathSegment>,
        patterns: &IdentifierPatterns,
        out: &mut Vec<ValidationViolation>,
    ) {
        let ghost before = reports_model(out@);
        let ghost here = path_model(path@);
        let ghost mut expected = Seq::<ReportModel>::empty();
        proof {
            lemma_nothing_added(before);
        }
        let mut present: Vec<String> = Vec::new();
        let ghost mut names = Seq::<Seq<char>>::empty();
        proof {
            assert(names_model(present@) =~= names);
        }
        note_present(self.prtry.is_some(), "Prtry", &mut present);
        proof {
            names = names + name_if(self.prtry.is_some(), "Prtry"@);
        }
        note_present(self.cd.is_some(), "Cd", &mut present);
        proof {
            names = names + name_if(self.cd.is_some(), "Cd"@);
        }
        report_choice(present, path, out);
        proof {
            let added = choice_reports(names, here);
            lemma_more_added(before, expected, added);
            expected = expected + added;
        }
        validate_optional(&self.prtry, "Prtry", path, patterns, out);
        proof {
            let added = optional_reports(self.prtry, "Prtry"@, here);
            lemma_more_added(before, expected, added);
            expected = expected + added;
        }
        validate_optional(&self.cd, "Cd", path, patterns, out);
        proof {
            let added = optional_reports(self.cd, "Cd"@, here);
            lemma_more_added(before, expected, added);
            expected = expected + added;
        }
    }
}

/// A choice, serialized as its populated alternative.
#[derive(Debug, Default, Clone, PartialEq)]
pub struct AddressType3Choice {
    /// Serialized in place, without an element of its own.
    pub value: AddressType3ChoiceEnum,
}

impl Validate for AddressType3Choice {
    open spec fn violations(&self, path: Seq<SegmentModel>) -> Seq<ReportModel> {
        Seq::empty()
            + self.value.violations(path)
    }

    fn validate_into(
        &self,
        path: &Vec<PathSegment>,
        patterns: &IdentifierPatterns,
        out: &mut Vec<ValidationViolation>,
    ) {
        let ghost before = reports_model(out@);
        let ghost here = path_model(path@);
        let ghost mut expected = Seq::<ReportModel>::empty();
        proof {
            lemma_nothing_added(before);
        }
        self.value.validate_into(path, patterns, out);
        proof {
            let added = self.value.violations(here);
            lemma_more_added(before, expected, added);
            expected = expected + added;
        }
    }
}

#[derive(Debug, Default, Clone, PartialEq)]
pub struct NumberAndSumOfTransactions2 {
    /// Serialized as `NbOfNtries`.
    pub nb_of_ntries: Option<Max15NumericText>,
    /// Serialized as `Sum`.
    pub sum: Option<DecimalNumber>,
    /// Serialized as `TtlNetNtryAmt`.
    pub ttl_net_ntry_amt: Option<DecimalNumber>,
    /// Serialized as `CdtDbtInd`.
    pub cdt_dbt_ind: Option<CreditDebitCode>,
}

impl Validate for NumberAndSumOfTransactions2 {
    open spec fn violations(&self, path: Seq<SegmentModel>) -> Seq<ReportModel> {
        Seq::empty()
            + optional_reports(self.nb_of_ntries, "NbOfNtries"@, path)
            + optional_reports(self.sum, "Sum"@, path)
            + optional_reports(self.ttl_net_ntry_amt, "TtlNetNtryAmt"@, path)
            + optional_reports(self.cdt_dbt_ind, "CdtDbtInd"@, path)
    }

    fn validate_into(
        &self,
        path: &Vec<PathSegment>,
        patterns: &IdentifierPatterns,
        out: &mut Vec<ValidationViolation>,
    ) {
        let ghost before = reports_model(out@);
        let ghost here = path_model(path@);
        let ghost mut expected = Seq::<ReportModel>::empty();
        proof {
            lemma_nothing_added(before);
        }
        validate_optional(&self.nb_of_ntries, "NbOfNtries", path, patterns, out);
        proof {
            let added = optional_reports(self.nb_of_ntries, "NbOfNtries"@, here);
            lemma_more_added(before, expected, added);
            expected = expected + added;
        }
        validate_optional(&self.sum, "Sum", path, patterns, out);
        proof {
            let added = optional_reports(self.sum, "Sum"@, here);
            lemma_more_added(before, expected, added);
            expected = expected + added;
        }
        validate_optional(&self.ttl_net_ntry_amt, "TtlNetNtryAmt", path, patterns, out);
        proof {
            let added = optional_reports(self.ttl_net_ntry_amt, "TtlNetNtryAmt"@, here);
            lemma_more_added(before, expected, added);
            expected = expected + added;
        }
        validate_optional(&self.cdt_dbt_ind, "CdtDbtInd", path, patterns, out);
        proof {
            let added = optional_reports(self.cdt_dbt_ind, "CdtDbtInd"@, here);
            lemma_more_added(before, expected, added);
            expected = expected + added;
        }
    }
}

#[derive(Debug, Default, Clone, PartialEq)]
pub struct ActiveCurrencyAndAmount {
    /// Serialized as `ActiveCurrencyAndAmount`.
    pub value: ActiveCurrencyAndAmountSimpleType,
    /// Serialized as the attribute `Ccy`.
    pub ccy: ActiveCurrencyCode,
}

impl Validate for ActiveCurrencyAndAmount {
    open spec fn violations(&self, path: Seq<SegmentModel>) -> Seq<ReportModel> {
        Seq::empty()
            + field_reports(self.value, "ActiveCurrencyAndAmount"@, path)
            + field_reports(self.ccy, "@Ccy"@, path)
    }

    fn validate_into(
        &self,
        path: &Vec<PathSegment>,
        patterns: &IdentifierPatterns,
        out: &mut Vec<ValidationViolation>,
    ) {
        let ghost before = reports_model(out@);
        let ghost here = path_model(path@);
        let ghost mut expected = Seq::<ReportModel>::empty();
        proof {
            lemma_nothing_added(before);
        }
        validate_field(&self.value, "ActiveCurrencyAndAmount", path, patterns, out);
        proof {
            let added = field_reports(self.value, "ActiveCurrencyAndAmount"@, here);
            lemma_more_added(before, expected, added);
            expected = expected + added;
        }
        validate_field(&self.ccy, "@Ccy", path, patterns, out);
        proof {
            let added = field_reports(self.ccy, "@Ccy"@, here);
            lemma_more_added(before, expected, added);
            expected = expected + added;
        }
    }
}

/// Text of 1 to 3 characters.
#[derive(Debug, Default, Clone, PartialEq)]
pub struct ExternalMarketInfrastructure1Code {
    /// The text of the element.
    pub value: String,
}

impl Validate for ExternalMarketInfrastructure1Code {
    open spec fn violations(&self, path: Seq<SegmentModel>) -> Seq<ReportModel> {
        Seq::empty()
            + length_reports(self.value@, Some(1), Some(3), path)
    }

    fn validate_into(
        &self,
        path: &Vec<PathSegment>,
        patterns: &IdentifierPatterns,
        out: &mut Vec<ValidationViolation>,
    ) {
        let ghost before = reports_model(out@);
        let ghost here = path_model(path@);
        let ghost mut expected = Seq::<ReportModel>::empty();
        proof {
            lemma_nothing_added(before);
        }
        report_length(self.value.as_str(), Some(1), Some(3), path, out);
        proof {
            let added = length_reports(self.value@, Some(1), Some(3), here);
            lemma_more_added(before, expected, added);
            expected = expected + added;
        }
    }
}

/// Text of 1 to 10 characters.
#[derive(Debug, Default, Clone, PartialEq)]
pub struct Max10Text {
    /// The text of the element.
    pub value: String,
}

impl Validate for Max10Text {
    open spec fn violations(&self, path: Seq<SegmentModel>) -> Seq<ReportModel> {
        Seq::empty()
            + length_reports(self.value@, Some(1), Some(10), path)
    }

    fn validate_into(
        &self,
        path: &Vec<PathSegment>,
        patterns: &IdentifierPatterns,
        out: &mut Vec<ValidationViolation>,
    ) {
        let ghost before = reports_model(out@);
        let ghost here = path_model(path@);
        let ghost mut expected = Seq::<ReportModel>::empty();
        proof {
            lemma_nothing_added(before);
        }
        report_length(self.value.as_str(), Some(1), Some(10), path, out);
        proof {
            let added = length_reports(self.value@, Some(1), Some(10), here);
            lemma_more_added(before, expected, added);
            expected = expected + added;
        }
    }
}

/// An instant.
#[derive(Debug, Default, Clone, PartialEq)]
pub struct IsoDateTime {
    /// The text of the element. An instant in ISO 8601 form.
    pub value: String,
}

impl Validate for IsoDateTime {
    open spec fn violations(&self, path: Seq<SegmentModel>) -> Seq<ReportModel> {
        Seq::empty()
    }

    fn validate_into(
        &self,
        path: &Vec<PathSegment>,
        patterns: &IdentifierPatterns,
        out: &mut Vec<ValidationViolation>,
    ) {
        proof {
            lemma_nothing_added(reports_model(out@));
        }
    }
}

/// Text of 1 to 4 characters.
#[derive(Debug, Default, Clone, PartialEq)]
pub struct ExternalSystemErrorHandling1Code {
    /// The text of the element.
    pub value: String,
}

impl Validate for ExternalSystemErrorHandling1Code {
    open spec fn violations(&self, path: Seq<SegmentModel>) -> Seq<ReportModel> {
        Seq::empty()
            + length_reports(self.value@, Some(1), Some(4), path)
    }

    fn validate_into(
        &self,
        path: &Vec<PathSegment>,
        patterns: &IdentifierPatterns,
        out: &mut Vec<ValidationViolation>,
    ) {
        let ghost before = reports_model(out@);
        let ghost here = path_model(path@);
        let ghost mut expected = Seq::<ReportModel>::empty();
        proof {
            lemma_nothing_added(before);
        }
        report_length(self.value.as_str(), Some(1), Some(4), path, out);
        proof {
            let added = length_reports(self.value@, Some(1), Some(4), here);
            lemma_more_added(before, expected, added);
            expected = expected + added;
        }
    }
}

/// The alternatives of a choice: exactly one of them is populated.
#[derive(Debug, Default, Clone, PartialEq)]
pub struct MarketInfrastructureIdentification1ChoiceEnum {
    /// Serialized as `Cd`.
    pub cd: Option<ExternalMarketInfrastructure1Code>,
    /// Serialized as `Prtry`.
    pub prtry: Option<Max35Text>,
}

impl Validate for MarketInfrastructureIdentification1ChoiceEnum {
    open spec fn violations(&self, path: Seq<SegmentModel>) -> Seq<ReportModel> {
        Seq::empty()
            + choice_reports(
                Seq::empty()
                    + name_if(self.cd.is_some(), "Cd"@)
                    + name_if(self.prtry.is_some(), "Prtry"@),
                path,
            )
            + optional_reports(self.cd, "Cd"@, path)
            + optional_reports(self.prtry, "Prtry"@, path)
    }

    fn validate_into(
        &self,
        path: &Vec<PathSegment>,
        patterns: &IdentifierPatterns,
        out: &mut Vec<ValidationViolation>,
    ) {
        let ghost before = reports_model(out@);
        let ghost here = path_model(path@);
        let ghost mut expected = Seq::<ReportModel>::empty();
        proof {
            lemma_nothing_added(before);
        }
        let mut present: Vec<String> = Vec::new();
        let ghost mut names = Seq::<Seq<char>>::empty();
        proof {
            assert(names_model(present@) =~= names);
        }
        note_present(self.cd.is_some(), "Cd", &mut present);
        proof {
            names = names + name_if(self.cd.is_some(), "Cd"@);
        }
        note_present(self.prtry.is_some(), "Prtry", &mut present);
        proof {
            names = names + name_if(self.prtry.is_some(), "Prtry"@);
        }
        report_choice(present, path, out);
        proof {
            let added = choice_reports(names, here);
            lemma_more_added(before, expected, added);
            expected = expected + added;
        }
        validate_optional(&self.cd, "Cd", path, patterns, out);
        proof {
            let added = optional_reports(self.cd, "Cd"@, here);
            lemma_more_added(before, expected, added);
            expected = expected + added;
        }
        validate_optional(&self.prtry, "Prtry", path, patterns, out);
        proof {
            let added = optional_reports(self.prtry, "Prtry"@, here);
            lemma_more_added(before, expected, added);
            expected = expected + added;
        }
    }
}

/// A choice, serialized as its populated alternative.
#[derive(Debug, Default, Clone, PartialEq)]
pub struct MarketInfrastructureIdentification1Choice {
    /// Serialized in place, without an element of its own.
    pub value: MarketInfrastructureIdentification1ChoiceEnum,
}

impl Validate for MarketInfrastructureIdentification1Choice {
    open spec fn violations(&self, path: Seq<SegmentModel>) -> Seq<ReportModel> {
        Seq::empty()
            + self.value.violations(path)
    }

    fn validate_into(
        &self,
        path: &Vec<PathSegment>,
        patterns: &IdentifierPatterns,
        out: &mut Vec<ValidationViolation>,
    ) {
        let ghost before = reports_model(out@);
        let ghost here = path_model(path@);
        let ghost mut expected = Seq::<ReportModel>::empty();
        proof {
            lemma_nothing_added(before);
        }
        self.value.validate_into(path, patterns, out);
        proof {
            let added = self.value.violations(here);
            lemma_more_added(before, expected, added);
            expected = expected + added;
        }
    }
}

/// The alternatives of a choice: exactly one of them is populated.
#[derive(Debug, Default, Clone, PartialEq)]
pub struct Amount2ChoiceEnum {
    /// Serialized as `AmtWthtCcy`.
    pub amt_wtht_ccy: Option<ImpliedCurrencyAndAmount>,
    /// Serialized as `AmtWthCcy`.
    pub amt_wth_ccy: Option<ActiveCurrencyAndAmount>,
}

impl Validate for Amount2ChoiceEnum {
    open spec fn violations(&self, path: Seq<SegmentModel>) -> Seq<ReportModel> {
        Seq::empty()
            + choice_reports(
                Seq::empty()
                    + name_if(self.amt_wtht_ccy.is_some(), "AmtWthtCcy"@)
                    + name_if(self.amt_wth_ccy.is_some(), "AmtWthCcy"@),
                path,
            )
            + optional_reports(self.amt_wtht_ccy, "AmtWthtCcy"@, path)
            + optional_reports(self.amt_wth_ccy, "AmtWthCcy"@, path)
    }

    fn validate_into(
        &self,
        path: &Vec<PathSegment>,
        patterns: &IdentifierPatterns,
        out: &mut Vec<ValidationViolation>,
    ) {
        let ghost before = reports_model(out@);
        let ghost here = path_model(path@);
        let ghost mut expected = Seq::<ReportModel>::empty();
        proof {
            lemma_nothing_added(before);
        }
        let mut present: Vec<String> = Vec::new();
        let ghost mut names = Seq::<Seq<char>>::empty();
        proof {
            assert(names_model(present@) =~= names);
        }
        note_present(self.amt_wtht_ccy.is_some(), "AmtWthtCcy", &mut present);
        proof {
            names = names + name_if(self.amt_wtht_ccy.is_some(), "AmtWthtCcy"@);
        }
        note_present(self.amt_wth_ccy.is_some(), "AmtWthCcy", &mut present);
        proof {
            names = names + name_if(self.amt_wth_ccy.is_some(), "AmtWthCcy"@);
        }
        report_choice(present, path, out);
        proof {
            let added = choice_reports(names, here);
            lemma_more_added(before, expected, added);
            expected = expected + added;
        }
        validate_optional(&self.amt_wtht_ccy, "AmtWthtCcy", path, patterns, out);
        proof {
            let added = optional_reports(self.amt_wtht_ccy, "AmtWthtCcy"@, here);
            lemma_more_added(before, expected, added);
            expected = expected + added;
        }
        validate_optional(&self.amt_wth_ccy, "AmtWthCcy", path, patterns, out);
        proof {
            let added = optional_reports(self.amt_wth_ccy, "AmtWthCcy"@, here);
            lemma_more_added(before, expected, added);
            expected = expected + added;
        }
    }
}

/// A choice, serialized as its populated alternative.
#[derive(Debug, Default, Clone, PartialEq)]
pub struct Amount2Choice {
    /// Serialized in place, without an element of its own.
    pub value: Amount2ChoiceEnum,
}

impl Validate for Amount2Choice {
    open spec fn violations(&self, path: Seq<SegmentModel>) -> Seq<ReportModel> {
        Seq::empty()
            + self.value.violations(path)
    }

    fn validate_into(
        &self,
        path: &Vec<PathSegment>,
        patterns: &IdentifierPatterns,
        out: &mut Vec<ValidationViolation>,
    ) {
        let ghost before = reports_model(out@);
        let ghost here = path_model(path@);
        let ghost mut expected = Seq::<ReportModel>::empty();
        proof {
            lemma_nothing_added(before);
        }
        self.value.validate_into(path, patterns, out);
        proof {
            let added = self.value.violations(here);
            lemma_more_added(before, expected, added);
            expected = expected + added;
        }
    }
}

#[derive(Debug, Default, Clone, PartialEq)]
pub struct SupplementaryDataEnvelope1<A> {
    /// Serialized in place, without an element of its own.
    pub value: A,
}

impl<A: Validate> Validate for SupplementaryDataEnvelope1<A> {
    open spec fn violations(&self, path: Seq<SegmentModel>) -> Seq<ReportModel> {
        Seq::empty()
            + self.value.violations(path)
    }

    fn validate_into(
        &self,
        path: &Vec<PathSegment>,
        patterns: &IdentifierPatterns,
        out: &mut Vec<ValidationViolation>,
    ) {
        let ghost before = reports_model(out@);
        let ghost here = path_model(path@);
        let ghost mut expected = Seq::<ReportModel>::empty();
        proof {
            lemma_nothing_added(before);
        }
        self.value.validate_into(path, patterns, out);
        proof {
            let added = self.value.violations(here);
            lemma_more_added(before, expected, added);
            expected = expected + added;
        }
    }
}

/// A number of at least 0.
#[derive(Debug, Default, Clone, PartialEq)]
pub struct ActiveOrHistoricCurrencyAndAmountSimpleType {
    /// The text of the element.
    pub value: Decimal,
}

impl Validate for ActiveOrHistoricCurrencyAndAmountSimpleType {
    open spec fn violations(&self, path: Seq<SegmentModel>) -> Seq<ReportModel> {
        Seq::empty()
            + range_reports(self.value, Some(Decimal::whole_spec(0)), None, path)
    }

    fn validate_into(
        &self,
        path: &Vec<PathSegment>,
        patterns: &IdentifierPatterns,
        out: &mut Vec<ValidationViolation>,
    ) {
        let ghost before = reports_model(out@);
        let ghost here = path_model(path@);
        let ghost mut expected = Seq::<ReportModel>::empty();
        proof {
            lemma_nothing_added(before);
        }
        report_range(self.value, Some(Decimal::whole(0)), None, path, out);
        proof {
            let added = range_reports(self.value, Some(Decimal::whole_spec(0)), None, here);
            lemma_more_added(before, expected, added);
            expected = expected + added;
        }
    }
}

#[derive(Debug, Default, Clone, PartialEq)]
pub struct PaymentTransactionParty3 {
    /// Serialized as `InstgAgt`.
    pub instg_agt: Option<BranchAndFinancialInstitutionIdentification6>,
    /// Serialized as `InstdAgt`.
    pub instd_agt: Option<BranchAndFinancialInstitutionIdentification6>,
    /// Serialized as `UltmtDbtr`.
    pub ultmt_dbtr: Option<Party40Choice>,
    /// Serialized as `Dbtr`.
    pub dbtr: Option<Party40Choice>,
    /// Serialized as `DbtrAgt`.
    pub dbtr_agt: Option<BranchAndFinancialInstitutionIdentification6>,
    /// Serialized as `InstgRmbrsmntAgt`.
    pub instg_rmbrsmnt_agt: Option<BranchAndFinancialInstitutionIdentification6>,
    /// Serialized as `InstdRmbrsmntAgt`.
    pub instd_rmbrsmnt_agt: Option<BranchAndFinancialInstitutionIdentification6>,
    /// Serialized as `IntrmyAgt1`.
    pub intrmy_agt_1: Option<BranchAndFinancialInstitutionIdentification6>,
    /// Serialized as `IntrmyAgt2`.
    pub intrmy_agt_2: Option<BranchAndFinancialInstitutionIdentification6>,
    /// Serialized as `IntrmyAgt3`.
    pub intrmy_agt_3: Option<BranchAndFinancialInstitutionIdentification6>,
    /// Serialized as `CdtrAgt`.
    pub cdtr_agt: Option<BranchAndFinancialInstitutionIdentification6>,
    /// Serialized as `Cdtr`.
    pub cdtr: Option<Party40Choice>,
    /// Serialized as `UltmtCdtr`.
    pub ultmt_cdtr: Option<Party40Choice>,
}

impl Validate for PaymentTransactionParty3 {
    open spec fn violations(&self, path: Seq<SegmentModel>) -> Seq<ReportModel> {
        Seq::empty()
            + optional_reports(self.instg_agt, "InstgAgt"@, path)
            + optional_reports(self.instd_agt, "InstdAgt"@, path)
            + optional_reports(self.ultmt_dbtr, "UltmtDbtr"@, path)
            + optional_reports(self.dbtr, "Dbtr"@, path)
            + optional_reports(self.dbtr_agt, "DbtrAgt"@, path)
            + optional_reports(self.instg_rmbrsmnt_agt, "InstgRmbrsmntAgt"@, path)
            + optional_reports(self.instd_rmbrsmnt_agt, "InstdRmbrsmntAgt"@, path)
            + optional_reports(self.intrmy_agt_1, "IntrmyAgt1"@, path)
            + optional_reports(self.intrmy_agt_2, "IntrmyAgt2"@, path)
            + optional_reports(self.intrmy_agt_3, "IntrmyAgt3"@, path)
            + optional_reports(self.cdtr_agt, "CdtrAgt"@, path)
            + optional_reports(self.cdtr, "Cdtr"@, path)
            + optional_reports(self.ultmt_cdtr, "UltmtCdtr"@, path)
    }

    fn validate_into(
        &self,
        path: &Vec<PathSegment>,
        patterns: &IdentifierPatterns,
        out: &mut Vec<ValidationViolation>,
    ) {
        let ghost before = reports_model(out@);
        let ghost here = path_model(path@);
        let ghost mut expected = Seq::<ReportModel>::empty();
        proof {
            lemma_nothing_added(before);
        }
        validate_optional(&self.instg_agt, "InstgAgt", path, patterns, out);
        proof {
            let added = optional_reports(self.instg_agt, "InstgAgt"@, here);
            lemma_more_added(before, expected, added);
            expected = expected + added;
        }
        validate_optional(&self.instd_agt, "InstdAgt", path, patterns, out);
        proof {
            let added = optional_reports(self.instd_agt, "InstdAgt"@, here);
            lemma_more_added(before, expected, added);
            expected = expected + added;
        }
        validate_optional(&self.ultmt_dbtr, "UltmtDbtr", path, patterns, out);
        proof {
            let added = optional_reports(self.ultmt_dbtr, "UltmtDbtr"@, here);
            lemma_more_added(before, expected, added);
            expected = expected + added;
        }
        validate_optional(&self.dbtr, "Dbtr", path, patterns, out);
        proof {
            let added = optional_reports(self.dbtr, "Dbtr"@, here);
            lemma_more_added(before, expected, added);
            expected = expected + added;
        }
        validate_optional(&self.dbtr_agt, "DbtrAgt", path, patterns, out);
        proof {
            let added = optional_reports(self.dbtr_agt, "DbtrAgt"@, here);
            lemma_more_added(before, expected, added);
            expected = expected + added;
        }
        validate_optional(&self.instg_rmbrsmnt_agt, "InstgRmbrsmntAgt", path, patterns, out);
        proof {
            let added = optional_reports(self.instg_rmbrsmnt_agt, "InstgRmbrsmntAgt"@, here);
            lemma_more_added(before, expected, added);
            expected = expected + added;
        }
        validate_optional(&self.instd_rmbrsmnt_agt, "InstdRmbrsmntAgt", path, patterns, out);
        proof {
            let added = optional_reports(self.instd_rmbrsmnt_agt, "InstdRmbrsmntAgt"@, here);
            lemma_more_added(before, expected, added);
            expected = expected + added;
        }
        validate_optional(&self.intrmy_agt_1, "IntrmyAgt1", path, patterns, out);
        proof {
            let added = optional_reports(self.intrmy_agt_1, "IntrmyAgt1"@, here);
            lemma_more_added(before, expected, added);
            expected = expected + added;
        }
        validate_optional(&self.intrmy_agt_2, "IntrmyAgt2", path, patterns, out);
        proof {
            let added = optional_reports(self.intrmy_agt_2, "IntrmyAgt2"@, here);
            lemma_more_added(before, expected, added);
            expected = expected + added;
        }
        validate_optional(&self.intrmy_agt_3, "IntrmyAgt3", path, patterns, out);
        proof {
            let added = optional_reports(self.intrmy_agt_3, "IntrmyAgt3"@, here);
            lemma_more_added(before, expected, added);
            expected = expected + added;
        }
        validate_optional(&self.cdtr_agt, "CdtrAgt", path, patterns, out);
        proof {
            let added = optional_reports(self.cdtr_agt, "CdtrAgt"@, here);
            lemma_more_added(before, expected, added);
            expected = expected + added;
        }
        validate_optional(&self.cdtr, "Cdtr", path, patterns, out);
        proof {
            let added = optional_reports(self.cdtr, "Cdtr"@, here);
            lemma_more_added(before, expected, added);
            expected = expected + added;
        }
        validate_optional(&self.ultmt_cdtr, "UltmtCdtr", path, patterns, out);
        proof {
            let added = optional_reports(self.ultmt_cdtr, "UltmtCdtr"@, here);
            lemma_more_added(before, expected, added);
            expected = expected + added;
        }
    }
}

/// Text that matches `[A-Z]{3,3}`.
#[derive(Debug, Default, Clone, PartialEq)]
pub struct ActiveOrHistoricCurrencyCode {
    /// The text of the element.
    pub value: String,
}

impl Validate for ActiveOrHistoricCurrencyCode {
    open spec fn violations(&self, path: Seq<SegmentModel>) -> Seq<ReportModel> {
        Seq::empty()
            + pattern_reports(self.value@, "[A-Z]{3,3}"@, path)
    }

    fn validate_into(
        &self,
        path: &Vec<PathSegment>,
        patterns: &IdentifierPatterns,
        out: &mut Vec<ValidationViolation>,
    ) {
        let ghost before = reports_model(out@);
        let ghost here = path_model(path@);
        let ghost mut expected = Seq::<ReportModel>::empty();
        proof {
            lemma_nothing_added(before);
        }
        report_pattern(self.value.as_str(), patterns.active_or_historic_currency_code(), path, out);
        proof {
            let added = pattern_reports(self.value@, "[A-Z]{3,3}"@, here);
            lemma_more_added(before, expected, added);
            expected = expected + added;
        }
    }
}

#[derive(Debug, Default, Clone, PartialEq)]
pub struct GenericOrganisationIdentification1 {
    /// Serialized as `Id`.
    pub id: Max35Text,
    /// Serialized as `SchmeNm`.
    pub schme_nm: Option<OrganisationIdentificationSchemeName1Choice>,
    /// Serialized as `Issr`.
    pub issr: Option<Max35Text>,
}

impl Validate for GenericOrganisationIdentification1 {
    open spec fn violations(&self, path: Seq<SegmentModel>) -> Seq<ReportModel> {
        Seq::empty()
            + field_reports(self.id, "Id"@, path)
            + optional_reports(self.schme_nm, "SchmeNm"@, path)
            + optional_reports(self.issr, "Issr"@, path)
    }

    fn validate_into(
        &self,
        path: &Vec<PathSegment>,
        patterns: &IdentifierPatterns,
        out: &mut Vec<ValidationViolation>,
    ) {
        let ghost before = reports_model(out@);
        let ghost here = path_model(path@);
        let ghost mut expected = Seq::<ReportModel>::empty();
        proof {
            lemma_nothing_added(before);
        }
        validate_field(&self.id, "Id", path, patterns, out);
        proof {
            let added = field_reports(self.id, "Id"@, here);
            lemma_more_added(before, expected, added);
            expected = expected + added;
        }
        validate_optional(&self.schme_nm, "SchmeNm", path, patterns, out);
        proof {
            let added = optional_reports(self.schme_nm, "SchmeNm"@, here);
            lemma_more_added(before, expected, added);
            expected = expected + added;
        }
        validate_optional(&self.issr, "Issr", path, patterns, out);
        proof {
            let added = optional_reports(self.issr, "Issr"@, here);
            lemma_more_added(before, expected, added);
            expected = expected + added;
        }
    }
}

/// A number.
#[derive(Debug, Default, Clone, PartialEq)]
pub struct DecimalNumber {
    /// The text of the element.
    pub value: Decimal,
}

impl Validate for DecimalNumber {
    open spec fn violations(&self, path: Seq<SegmentModel>) -> Seq<ReportModel> {
        Seq::empty()
    }

    fn validate_into(
        &self,
        path: &Vec<PathSegment>,
        patterns: &IdentifierPatterns,
        out: &mut Vec<ValidationViolation>,
    ) {
        proof {
            lemma_nothing_added(reports_model(out@));
        }
    }
}

#[derive(Debug, Default, Clone, PartialEq)]
pub struct CashAccount41 {
    /// Serialized as `Id`.
    pub id: Option<AccountIdentification4Choice>,
    /// Serialized as `Tp`.
    pub tp: Option<CashAccountType2Choice>,
    /// Serialized as `Ccy`.
    pub ccy: Option<ActiveOrHistoricCurrencyCode>,
    /// Serialized as `Nm`.
    pub nm: Option<Max70Text>,
    /// Serialized as `Prxy`.
    pub prxy: Option<ProxyAccountIdentification1>,
    /// Serialized as `Ownr`.
    pub ownr: Option<PartyIdentification135>,
    /// Serialized as `Svcr`.
    pub svcr: Option<BranchAndFinancialInstitutionIdentification6>,
}

impl Validate for CashAccount41 {
    open spec fn violations(&self, path: Seq<SegmentModel>) -> Seq<ReportModel> {
        Seq::empty()
            + optional_reports(self.id, "Id"@, path)
            + optional_reports(self.tp, "Tp"@, path)
            + optional_reports(self.ccy, "Ccy"@, path)
            + optional_reports(self.nm, "Nm"@, path)
            + optional_reports(self.prxy, "Prxy"@, path)
            + optional_reports(self.ownr, "Ownr"@, path)
            + optional_reports(self.svcr, "Svcr"@, path)
    }

    fn validate_into(
        &self,
        path: &Vec<PathSegment>,
        patterns: &IdentifierPatterns,
        out: &mut Vec<ValidationViolation>,
    ) {
        let ghost before = reports_model(out@);
        let ghost here = path_model(path@);
        let ghost mut expected = Seq::<ReportModel>::empty();
        proof {
            lemma_nothing_added(before);
        }
        validate_optional(&self.id, "Id", path, patterns, out);
        proof {
            let added = optional_reports(self.id, "Id"@, here);
            lemma_more_added(before, expected, added);
            expected = expected + added;
        }
        validate_optional(&self.tp, "Tp", path, patterns, out);
        proof {
            let added = optional_reports(self.tp, "Tp"@, here);
            lemma_more_added(before, expected, added);
            expected = expected + added;
        }
        validate_optional(&self.ccy, "Ccy", path, patterns, out);
        proof {
            let added = optional_reports(self.ccy, "Ccy"@, here);
            lemma_more_added(before, expected, added);
            expected = expected + added;
        }
        validate_optional(&self.nm, "Nm", path, patterns, out);
        proof {
            let added = optional_reports(self.nm, "Nm"@, here);
            lemma_more_added(before, expected, added);
            expected = expected + added;
        }
        validate_optional(&self.prxy, "Prxy", path, patterns, out);
        proof {
            let added = optional_reports(self.prxy, "Prxy"@, here);
            lemma_more_added(before, expected, added);
            expected = expected + added;
        }
        validate_optional(&self.ownr, "Ownr", path, patterns, out);
        proof {
            let added = optional_reports(self.ownr, "Ownr"@, here);
            lemma_more_added(before, expected, added);
            expected = expected + added;
        }
        validate_optional(&self.svcr, "Svcr", path, patterns, out);
        proof {
            let added = optional_reports(self.svcr, "Svcr"@, here);
            lemma_more_added(before, expected, added);
            expected = expected + added;
        }
    }
}

} // verus!
