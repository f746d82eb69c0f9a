//! Meeting entitlement notification (`seev.003.001.08`).

use vstd::prelude::*;
use vstd::string::StringExecFns;
use crate::decimal::Decimal;
use crate::identifiers::IdentifierPatterns;
use crate::validate::Validate;
use crate::validate::choice_reports;
use crate::validate::field_reports;
use crate::validate::lemma_more_added;
use crate::validate::lemma_nothing_added;
use crate::validate::length_reports;
use crate::validate::list_reports;
use crate::validate::name_if;
use crate::validate::note_present;
use crate::validate::optional_reports;
use crate::validate::pattern_reports;
use crate::validate::range_reports;
use crate::validate::report_choice;
use crate::validate::report_length;
use crate::validate::report_pattern;
use crate::validate::report_range;
use crate::validate::validate_field;
use crate::validate::validate_list;
use crate::validate::validate_optional;
use crate::violation::PathSegment;
use crate::violation::ReportModel;
use crate::violation::SegmentModel;
use crate::violation::ValidationViolation;
use crate::violation::names_model;
use crate::violation::path_model;
use crate::violation::reports_model;

verus! {

/// The namespace of the schema.
pub fn namespace() -> (name: String)
    ensures
        name@ == "urn:iso:std:iso:20022:tech:xsd:seev.003.001.08"@,
{
    String::from_str("urn:iso:std:iso:20022:tech:xsd:seev.003.001.08")
}

#[derive(Debug, Default, Clone, PartialEq)]
pub struct OrganisationIdentification5 {
    /// Serialized as `RegnNb`.
    pub regn_nb: Max35Text,
    /// Serialized as `RegrNm`.
    pub regr_nm: Option<Max35Text>,
}

impl Validate for OrganisationIdentification5 {
    open spec fn violations(&self, path: Seq<SegmentModel>) -> Seq<ReportModel> {
        Seq::empty()
            + field_reports(self.regn_nb, "RegnNb"@, path)
            + optional_reports(self.regr_nm, "RegrNm"@, path)
    }

    fn validate_into(
        &self,
        path: &Vec<PathSegment>,
        patterns: &IdentifierPatterns,
        out: &mut Vec<ValidationViolation>,
    ) {
        let ghost before = reports_model(out@);
        let ghost here = path_model(path@);
        let ghost mut expected = Seq::<ReportModel>::empty();
        proof {
            lemma_nothing_added(before);
        }
        validate_field(&self.regn_nb, "RegnNb", path, patterns, out);
        proof {
            let added = field_reports(self.regn_nb, "RegnNb"@, here);
            lemma_more_added(before, expected, added);
            expected = expected + added;
        }
        validate_optional(&self.regr_nm, "RegrNm", path, patterns, out);
        proof {
            let added = optional_reports(self.regr_nm, "RegrNm"@, here);
            lemma_more_added(before, expected, added);
            expected = expected + added;
        }
    }
}

#[derive(Debug, Default, Clone, PartialEq)]
pub enum SecuritiesEntryType2Code {
    /// Serialized as `BLOK`.
    Blok,
    /// Serialized as `ELIG`.
    Elig,
    /// Serialized as `PEND`.
    Pend,
    /// Serialized as `PENR`.
    Penr,
    /// Serialized as `NOMI`.
    Nomi,
    /// Serialized as `SETD`.
    Setd,
    /// Serialized as `BORR`.
    Borr,
    /// Serialized as `LOAN`.
    Loan,
    /// Serialized as `SPOS`.
    Spos,
    /// Serialized as `TRAD`.
    Trad,
    /// Serialized as `COLI`.
    Coli,
    /// Serialized as `COLO`.
    Colo,
    /// Serialized as `UNBA`.
    Unba,
    /// Serialized as `INBA`.
    Inba,
    /// Serialized as `REGO`.
    Rego,
    #[default]
    Unknown,
}

impl Validate for SecuritiesEntryType2Code {
    open spec fn violations(&self, path: Seq<SegmentModel>) -> Seq<ReportModel> {
        Seq::empty()
    }

    fn validate_into(
        &self,
        path: &Vec<PathSegment>,
        patterns: &IdentifierPatterns,
        out: &mut Vec<ValidationViolation>,
    ) {
        proof {
            lemma_nothing_added(reports_model(out@));
        }
    }
}

#[derive(Debug, Default, Clone, PartialEq)]
pub enum TypeOfIdentification4Code {
    /// Serialized as `ARNU`.
    Arnu,
    /// Serialized as `CUST`.
    Cust,
    /// Serialized as `CORP`.
    Corp,
    /// Serialized as `DRLC`.
    Drlc,
    /// Serialized as `IDCD`.
    Idcd,
    /// Serialized as `NRIN`.
    Nrin,
    /// Serialized as `CCPT`.
    Ccpt,
    /// Serialized as `SOCS`.
    Socs,
    /// Serialized as `TXID`.
    Txid,
    #[default]
    Unknown,
}

impl Validate for TypeOfIdentification4Code {
    open spec fn violations(&self, path: Seq<SegmentModel>) -> Seq<ReportModel> {
        Seq::empty()
    }

    fn validate_into(
        &self,
        path: &Vec<PathSegment>,
        patterns: &IdentifierPatterns,
        out: &mut Vec<ValidationViolation>,
    ) {
        proof {
            lemma_nothing_added(reports_model(out@));
        }
    }
}

#[derive(Debug, Default, Clone, PartialEq)]
pub struct GenericIdentification36 {
    /// Serialized as `Id`.
    pub id: Max35Text,
    /// Serialized as `Issr`.
    pub issr: Max35Text,
    /// Serialized as `SchmeNm`.
    pub schme_nm: Option<Max35Text>,
}

impl Validate for GenericIdentification36 {
    open spec fn violations(&self, path: Seq<SegmentModel>) -> Seq<ReportModel> {
        Seq::empty()
            + field_reports(self.id, "Id"@, path)
            + field_reports(self.issr, "Issr"@, path)
            + optional_reports(self.schme_nm, "SchmeNm"@, path)
    }

    fn validate_into(
        &self,
        path: &Vec<PathSegment>,
        patterns: &IdentifierPatterns,
        out: &mut Vec<ValidationViolation>,
    ) {
        let ghost before = reports_model(out@);
        let ghost here = path_model(path@);
        let ghost mut expected = Seq::<ReportModel>::empty();
        proof {
            lemma_nothing_added(before);
        }
        validate_field(&self.id, "Id", path, patterns, out);
        proof {
            let added = field_reports(self.id, "Id"@, here);
            lemma_more_added(before, expected, added);
            expected = expected + added;
        }
        validate_field(&self.issr, "Issr", path, patterns, out);
        proof {
            let added = field_reports(self.issr, "Issr"@, here);
            lemma_more_added(before, expected, added);
            expected = expected + added;
        }
        validate_optional(&self.schme_nm, "SchmeNm", path, patterns, out);
        proof {
            let added = optional_reports(self.schme_nm, "SchmeNm"@, here);
            lemma_more_added(before, expected, added);
            expected = expected + added;
        }
    }
}

/// The alternatives of a choice: exactly one of them is populated.
#[derive(Debug, Default, Clone, PartialEq)]
pub struct PartyIdentification198ChoiceEnum {
    /// Serialized as `AnyBIC`.
    pub any_bic: Option<AnyBicDec2014Identifier>,
    /// Serialized as `ClntId`.
    pub clnt_id: Option<Max50Text>,
    /// Serialized as `NtlRegnNb`.
    pub ntl_regn_nb: Option<Max35Text>,
    /// Serialized as `LEI`.
    pub lei: Option<LeiIdentifier>,
    /// Serialized as `PrtryId`.
    pub prtry_id: Option<GenericIdentification36>,
}

impl Validate for PartyIdentification198ChoiceEnum {
    open spec fn violations(&self, path: Seq<SegmentModel>) -> Seq<ReportModel> {
        Seq::empty()
            + choice_reports(
                Seq::empty()
                    + name_if(self.any_bic.is_some(), "AnyBIC"@)
                    + name_if(self.clnt_id.is_some(), "ClntId"@)
                    + name_if(self.ntl_regn_nb.is_some(), "NtlRegnNb"@)
                    + name_if(self.lei.is_some(), "LEI"@)
                    + name_if(self.prtry_id.is_some(), "PrtryId"@),
                path,
            )
            + optional_reports(self.any_bic, "AnyBIC"@, path)
            + optional_reports(self.clnt_id, "ClntId"@, path)
            + optional_reports(self.ntl_regn_nb, "NtlRegnNb"@, path)
            + optional_reports(self.lei, "LEI"@, path)
            + optional_reports(self.prtry_id, "PrtryId"@, path)
    }

    fn validate_into(
        &self,
        path: &Vec<PathSegment>,
        patterns: &IdentifierPatterns,
        out: &mut Vec<ValidationViolation>,
    ) {
        let ghost before = reports_model(out@);
        let ghost here = path_model(path@);
        let ghost mut expected = Seq::<ReportModel>::empty();
        proof {
            lemma_nothing_added(before);
        }
        let mut present: Vec<String> = Vec::new();
        let ghost mut names = Seq::<Seq<char>>::empty();
        proof {
            assert(names_model(present@) =~= names);
        }
        note_present(self.any_bic.is_some(), "AnyBIC", &mut present);
        proof {
            names = names + name_if(self.any_bic.is_some(), "AnyBIC"@);
        }
        note_present(self.clnt_id.is_some(), "ClntId", &mut present);
        proof {
            names = names + name_if(self.clnt_id.is_some(), "ClntId"@);
        }
        note_present(self.ntl_regn_nb.is_some(), "NtlRegnNb", &mut present);
        proof {
            names = names + name_if(self.ntl_regn_nb.is_some(), "NtlRegnNb"@);
        }
        note_present(self.lei.is_some(), "LEI", &mut present);
        proof {
            names = names + name_if(self.lei.is_some(), "LEI"@);
        }
        note_present(self.prtry_id.is_some(), "PrtryId", &mut present);
        proof {
            names = names + name_if(self.prtry_id.is_some(), "PrtryId"@);
        }
        report_choice(present, path, out);
        proof {
            let added = choice_reports(names, here);
            lemma_more_added(before, expected, added);
            expected = expected + added;
        }
        validate_optional(&self.any_bic, "AnyBIC", path, patterns, out);
        proof {
            let added = optional_reports(self.any_bic, "AnyBIC"@, here);
            lemma_more_added(before, expected, added);
            expected = expected + added;
        }
        validate_optional(&self.clnt_id, "ClntId", path, patterns, out);
        proof {
            let added = optional_reports(self.clnt_id, "ClntId"@, here);
            lemma_more_added(before, expected, added);
            expected = expected + added;
        }
        validate_optional(&self.ntl_regn_nb, "NtlRegnNb", path, patterns, out);
        proof {
            let added = optional_reports(self.ntl_regn_nb, "NtlRegnNb"@, here);
            lemma_more_added(before, expected, added);
            expected = expected + added;
        }
        validate_optional(&self.lei, "LEI", path, patterns, out);
        proof {
            let added = optional_reports(self.lei, "LEI"@, here);
            lemma_more_added(before, expected, added);
            expected = expected + added;
        }
        validate_optional(&self.prtry_id, "PrtryId", path, patterns, out);
        proof {
            let added = optional_reports(self.prtry_id, "PrtryId"@, here);
            lemma_more_added(before, expected, added);
            expected = expected + added;
        }
    }
}

/// A choice, serialized as its populated alternative.
#[derive(Debug, Default, Clone, PartialEq)]
pub struct PartyIdentification198Choice {
    /// Serialized in place, without an element of its own.
    pub value: PartyIdentification198ChoiceEnum,
}

impl Validate for PartyIdentification198Choice {
    open spec fn violations(&self, path: Seq<SegmentModel>) -> Seq<ReportModel> {
        Seq::empty()
            + self.value.violations(path)
    }

    fn validate_into(
        &self,
        path: &Vec<PathSegment>,
        patterns: &IdentifierPatterns,
        out: &mut Vec<ValidationViolation>,
    ) {
        let ghost before = reports_model(out@);
        let ghost here = path_model(path@);
        let ghost mut expected = Seq::<ReportModel>::empty();
        proof {
            lemma_nothing_added(before);
        }
        self.value.validate_into(path, patterns, out);
        proof {
            let added = self.value.violations(here);
            lemma_more_added(before, expected, added);
            expected = expected + added;
        }
    }
}

/// A calendar date.
#[derive(Debug, Default, Clone, PartialEq)]
pub struct IsoDate {
    /// The text of the element. A calendar date in ISO 8601 form.
    pub value: String,
}

impl Validate for IsoDate {
    open spec fn violations(&self, path: Seq<SegmentModel>) -> Seq<ReportModel> {
        Seq::empty()
    }

    fn validate_into(
        &self,
        path: &Vec<PathSegment>,
        patterns: &IdentifierPatterns,
        out: &mut Vec<ValidationViolation>,
    ) {
        proof {
            lemma_nothing_added(reports_model(out@));
        }
    }
}

/// Text of 1 to 350 characters.
#[derive(Debug, Default, Clone, PartialEq)]
pub struct Max350Text {
    /// The text of the element.
    pub value: String,
}

impl Validate for Max350Text {
    open spec fn violations(&self, path: Seq<SegmentModel>) -> Seq<ReportModel> {
        Seq::empty()
            + length_reports(self.value@, Some(1), Some(350), path)
    }

    fn validate_into(
        &self,
        path: &Vec<PathSegment>,
        patterns: &IdentifierPatterns,
        out: &mut Vec<ValidationViolation>,
    ) {
        let ghost before = reports_model(out@);
        let ghost here = path_model(path@);
        let ghost mut expected = Seq::<ReportModel>::empty();
        proof {
            lemma_nothing_added(before);
        }
        report_length(self.value.as_str(), Some(1), Some(350), path, out);
        proof {
            let added = length_reports(self.value@, Some(1), Some(350), here);
            lemma_more_added(before, expected, added);
            expected = expected + added;
        }
    }
}

#[derive(Debug, Default, Clone, PartialEq)]
pub struct OtherIdentification1 {
    /// Serialized as `Id`.
    pub id: Max35Text,
    /// Serialized as `Sfx`.
    pub sfx: Option<Max16Text>,
    /// Serialized as `Tp`.
    pub tp: IdentificationSource3Choice,
}

impl Validate for OtherIdentification1 {
    open spec fn violations(&self, path: Seq<SegmentModel>) -> Seq<ReportModel> {
        Seq::empty()
            + field_reports(self.id, "Id"@, path)
            + optional_reports(self.sfx, "Sfx"@, path)
            + field_reports(self.tp, "Tp"@, path)
    }

    fn validate_into(
        &self,
        path: &Vec<PathSegment>,
        patterns: &IdentifierPatterns,
        out: &mut Vec<ValidationViolation>,
    ) {
        let ghost before = reports_model(out@);
        let ghost here = path_model(path@);
        let ghost mut expected = Seq::<ReportModel>::empty();
        proof {
            lemma_nothing_added(before);
        }
        validate_field(&self.id, "Id", path, patterns, out);
        proof {
            let added = field_reports(self.id, "Id"@, here);
            lemma_more_added(before, expected, added);
            expected = expected + added;
        }
        validate_optional(&self.sfx, "Sfx", path, patterns, out);
        proof {
            let added = optional_reports(self.sfx, "Sfx"@, here);
            lemma_more_added(before, expected, added);
            expected = expected + added;
        }
        validate_field(&self.tp, "Tp", path, patterns, out);
        proof {
            let added = field_reports(self.tp, "Tp"@, here);
            lemma_more_added(before, expected, added);
            expected = expected + added;
        }
    }
}

#[derive(Debug, Default, Clone, PartialEq)]
pub struct GenericIdentification13 {
    /// Serialized as `Id`.
    pub id: Max4AlphaNumericText,
    /// Serialized as `SchmeNm`.
    pub schme_nm: Option<Max35Text>,
    /// Serialized as `Issr`.
    pub issr: Max35Text,
}

impl Validate for GenericIdentification13 {
    open spec fn violations(&self, path: Seq<SegmentModel>) -> Seq<ReportModel> {
        Seq::empty()
            + field_reports(self.id, "Id"@, path)
            + optional_reports(self.schme_nm, "SchmeNm"@, path)
            + field_reports(self.issr, "Issr"@, path)
    }

    fn validate_into(
        &self,
        path: &Vec<PathSegment>,
        patterns: &IdentifierPatterns,
        out: &mut Vec<ValidationViolation>,
    ) {
        let ghost before = reports_model(out@);
        let ghost here = path_model(path@);
        let ghost mut expected = Seq::<ReportModel>::empty();
        proof {
            lemma_nothing_added(before);
        }
        validate_field(&self.id, "Id", path, patterns, out);
        proof {
            let added = field_reports(self.id, "Id"@, here);
            lemma_more_added(before, expected, added);
            expected = expected + added;
        }
        validate_optional(&self.schme_nm, "SchmeNm", path, patterns, out);
        proof {
            let added = optional_reports(self.schme_nm, "SchmeNm"@, here);
            lemma_more_added(before, expected, added);
            expected = expected + added;
        }
        validate_field(&self.issr, "Issr", path, patterns, out);
        proof {
            let added = field_reports(self.issr, "Issr"@, here);
            lemma_more_added(before, expected, added);
            expected = expected + added;
        }
    }
}

/// Text of 1 to 140 characters.
#[derive(Debug, Default, Clone, PartialEq)]
pub struct Max140Text {
    /// The text of the element.
    pub value: String,
}

impl Validate for Max140Text {
    open spec fn violations(&self, path: Seq<SegmentModel>) -> Seq<ReportModel> {
        Seq::empty()
            + length_reports(self.value@, Some(1), Some(140), path)
    }

    fn validate_into(
        &self,
        path: &Vec<PathSegment>,
        patterns: &IdentifierPatterns,
        out: &mut Vec<ValidationViolation>,
    ) {
        let ghost before = reports_model(out@);
        let ghost here = path_model(path@);
        let ghost mut expected = Seq::<ReportModel>::empty();
        proof {
            lemma_nothing_added(before);
        }
        report_length(self.value.as_str(), Some(1), Some(140), path, out);
        proof {
            let added = length_reports(self.value@, Some(1), Some(140), here);
            lemma_more_added(before, expected, added);
            expected = expected + added;
        }
    }
}

#[derive(Debug, Default, Clone, PartialEq)]
pub struct PostalAddress1 {
    /// Serialized as `AdrTp`.
    pub adr_tp: Option<AddressType2Code>,
    /// Serialized as `AdrLine`.
    pub adr_line: Vec<Max70Text>,
    /// Serialized as `StrtNm`.
    pub strt_nm: Option<Max70Text>,
    /// Serialized as `BldgNb`.
    pub bldg_nb: Option<Max16Text>,
    /// Serialized as `PstCd`.
    pub pst_cd: Option<Max16Text>,
    /// Serialized as `TwnNm`.
    pub twn_nm: Option<Max35Text>,
    /// Serialized as `CtrySubDvsn`.
    pub ctry_sub_dvsn: Option<Max35Text>,
    /// Serialized as `Ctry`.
    pub ctry: CountryCode,
}

impl Validate for PostalAddress1 {
    open spec fn violations(&self, path: Seq<SegmentModel>) -> Seq<ReportModel> {
        Seq::empty()
            + optional_reports(self.adr_tp, "AdrTp"@, path)
            + list_reports(self.adr_line@, Some(0), Some(5), "AdrLine"@, path)
            + optional_reports(self.strt_nm, "StrtNm"@, path)
            + optional_reports(self.bldg_nb, "BldgNb"@, path)
            + optional_reports(self.pst_cd, "PstCd"@, path)
            + optional_reports(self.twn_nm, "TwnNm"@, path)
            + optional_reports(self.ctry_sub_dvsn, "CtrySubDvsn"@, path)
            + field_reports(self.ctry, "Ctry"@, path)
    }

    fn validate_into(
        &self,
        path: &Vec<PathSegment>,
        patterns: &IdentifierPatterns,
        out: &mut Vec<ValidationViolation>,
    ) {
        let ghost before = reports_model(out@);
        let ghost here = path_model(path@);
        let ghost mut expected = Seq::<ReportModel>::empty();
        proof {
            lemma_nothing_added(before);
        }
        validate_optional(&self.adr_tp, "AdrTp", path, patterns, out);
        proof {
            let added = optional_reports(self.adr_tp, "AdrTp"@, here);
            lemma_more_added(before, expected, added);
            expected = expected + added;
        }
        validate_list(&self.adr_line, Some(0), Some(5), "AdrLine", path, patterns, out);
        proof {
            let added = list_reports(self.adr_line@, Some(0), Some(5), "AdrLine"@, here);
            lemma_more_added(before, expected, added);
            expected = expected + added;
        }
        validate_optional(&self.strt_nm, "StrtNm", path, patterns, out);
        proof {
            let added = optional_reports(self.strt_nm, "StrtNm"@, here);
            lemma_more_added(before, expected, added);
            expected = expected + added;
        }
        validate_optional(&self.bldg_nb, "BldgNb", path, patterns, out);
        proof {
            let added = optional_reports(self.bldg_nb, "BldgNb"@, here);
            lemma_more_added(before, expected, added);
            expected = expected + added;
        }
        validate_optional(&self.pst_cd, "PstCd", path, patterns, out);
        proof {
            let added = optional_reports(self.pst_cd, "PstCd"@, here);
            lemma_more_added(before, expected, added);
            expected = expected + added;
        }
        validate_optional(&self.twn_nm, "TwnNm", path, patterns, out);
        proof {
            let added = optional_reports(self.twn_nm, "TwnNm"@, here);
            lemma_more_added(before, expected, added);
            expected = expected + added;
        }
        validate_optional(&self.ctry_sub_dvsn, "CtrySubDvsn", path, patterns, out);
        proof {
            let added = optional_reports(self.ctry_sub_dvsn, "CtrySubDvsn"@, here);
            lemma_more_added(before, expected, added);
            expected = expected + added;
        }
        validate_field(&self.ctry, "Ctry", path, patterns, out);
        proof {
            let added = field_reports(self.ctry, "Ctry"@, here);
            lemma_more_added(before, expected, added);
            expected = expected + added;
        }
    }
}

/// Text of 1 to 70 characters.
#[derive(Debug, Default, Clone, PartialEq)]
pub struct Max70Text {
    /// The text of the element.
    pub value: String,
}

impl Validate for Max70Text {
    open spec fn violations(&self, path: Seq<SegmentModel>) -> Seq<ReportModel> {
        Seq::empty()
            + length_reports(self.value@, Some(1), Some(70), path)
    }

    fn validate_into(
        &self,
        path: &Vec<PathSegment>,
        patterns: &IdentifierPatterns,
        out: &mut Vec<ValidationViolation>,
    ) {
        let ghost before = reports_model(out@);
        let ghost here = path_model(path@);
        let ghost mut expected = Seq::<ReportModel>::empty();
        proof {
            lemma_nothing_added(before);
        }
        report_length(self.value.as_str(), Some(1), Some(70), path, out);
        proof {
            let added = length_reports(self.value@, Some(1), Some(70), here);
            lemma_more_added(before, expected, added);
            expected = expected + added;
        }
    }
}

#[derive(Debug, Default, Clone, PartialEq)]
pub struct SecurityIdentification19 {
    /// Serialized as `ISIN`.
    pub isin: Option<IsinOct2015Identifier>,
    /// Serialized as `OthrId`.
    pub othr_id: Vec<OtherIdentification1>,
    /// Serialized as `Desc`.
    pub desc: Option<Max140Text>,
}

impl Validate for SecurityIdentification19 {
    open spec fn violations(&self, path: Seq<SegmentModel>) -> Seq<ReportModel> {
        Seq::empty()
            + optional_reports(self.isin, "ISIN"@, path)
            + list_reports(self.othr_id@, Some(0), None, "OthrId"@, path)
            + optional_reports(self.desc, "Desc"@, path)
    }

    fn validate_into(
        &self,
        path: &Vec<PathSegment>,
        patterns: &IdentifierPatterns,
        out: &mut Vec<ValidationViolation>,
    ) {
        let ghost before = reports_model(out@);
        let ghost here = path_model(path@);
        let ghost mut expected = Seq::<ReportModel>::empty();
        proof {
            lemma_nothing_added(before);
        }
        validate_optional(&self.isin, "ISIN", path, patterns, out);
        proof {
            let added = optional_reports(self.isin, "ISIN"@, here);
            lemma_more_added(before, expected, added);
            expected = expected + added;
        }
        validate_list(&self.othr_id, Some(0), None, "OthrId", path, patterns, out);
        proof {
            let added = list_reports(self.othr_id@, Some(0), None, "OthrId"@, here);
            lemma_more_added(before, expected, added);
            expected = expected + added;
        }
        validate_optional(&self.desc, "Desc", path, patterns, out);
        proof {
            let added = optional_reports(self.desc, "Desc"@, here);
            lemma_more_added(before, expected, added);
            expected = expected + added;
        }
    }
}

#[derive(Debug, Default, Clone, PartialEq)]
pub struct NameAndAddress5 {
    /// Serialized as `Nm`.
    pub nm: Max350Text,
    /// Serialized as `Adr`.
    pub adr: Option<PostalAddress1>,
}

impl Validate for NameAndAddress5 {
    open spec fn violations(&self, path: Seq<SegmentModel>) -> Seq<ReportModel> {
        Seq::empty()
            + field_reports(self.nm, "Nm"@, path)
            + optional_reports(self.adr, "Adr"@, path)
    }

    fn validate_into(
        &self,
        path: &Vec<PathSegment>,
        patterns: &IdentifierPatterns,
        out: &mut Vec<ValidationViolation>,
    ) {
        let ghost before = reports_model(out@);
        let ghost here = path_model(path@);
        let ghost mut expected = Seq::<ReportModel>::empty();
        proof {
            lemma_nothing_added(before);
        }
        validate_field(&self.nm, "Nm", path, patterns, out);
        proof {
            let added = field_reports(self.nm, "Nm"@, here);
            lemma_more_added(before, expected, added);
            expected = expected + added;
        }
        validate_optional(&self.adr, "Adr", path, patterns, out);
        proof {
            let added = optional_reports(self.adr, "Adr"@, here);
            lemma_more_added(before, expected, added);
            expected = expected + added;
        }
    }
}

/// Text that matches `[A-Z0-9]{4,4}[A-Z]{2,2}[A-Z0-9]{2,2}([A-Z0-9]{3,3}){0,1}`.
#[derive(Debug, Default, Clone, PartialEq)]
pub struct AnyBicDec2014Identifier {
    /// The text of the element.
    pub value: String,
}

impl Validate for AnyBicDec2014Identifier {
    open spec fn violations(&self, path: Seq<SegmentModel>) -> Seq<ReportModel> {
        Seq::empty()
            + pattern_reports(self.value@, "[A-Z0-9]{4,4}[A-Z]{2,2}[A-Z0-9]{2,2}([A-Z0-9]{3,3}){0,1}"@, path)
    }

    fn validate_into(
        &self,
        path: &Vec<PathSegment>,
        patterns: &IdentifierPatterns,
        out: &mut Vec<ValidationViolation>,
    ) {
        let ghost before = reports_model(out@);
        let ghost here = path_model(path@);
        let ghost mut expected = Seq::<ReportModel>::empty();
        proof {
            lemma_nothing_added(before);
        }
        report_pattern(self.value.as_str(), patterns.any_bic_dec_2014_identifier(), path, out);
        proof {
            let added = pattern_reports(self.value@, "[A-Z0-9]{4,4}[A-Z]{2,2}[A-Z0-9]{2,2}([A-Z0-9]{3,3}){0,1}"@, here);
            lemma_more_added(before, expected, added);
            expected = expected + added;
        }
    }
}

/// The alternatives of a choice: exactly one of them is populated.
#[derive(Debug, Default, Clone, PartialEq)]
pub struct PartyIdentification237ChoiceEnum {
    /// Serialized as `LglPrsn`.
    pub lgl_prsn: Option<PartyIdentification248>,
    /// Serialized as `NtrlPrsn`.
    pub ntrl_prsn: Option<PartyIdentification250>,
}

impl Validate for PartyIdentification237ChoiceEnum {
    open spec fn violations(&self, path: Seq<SegmentModel>) -> Seq<ReportModel> {
        Seq::empty()
            + choice_reports(
                Seq::empty()
                    + name_if(self.lgl_prsn.is_some(), "LglPrsn"@)
                    + name_if(self.ntrl_prsn.is_some(), "NtrlPrsn"@),
                path,
            )
            + optional_reports(self.lgl_prsn, "LglPrsn"@, path)
            + optional_reports(self.ntrl_prsn, "NtrlPrsn"@, path)
    }

    fn validate_into(
        &self,
        path: &Vec<PathSegment>,
        patterns: &IdentifierPatterns,
        out: &mut Vec<ValidationViolation>,
    ) {
        let ghost before = reports_model(out@);
        let ghost here = path_model(path@);
        let ghost mut expected = Seq::<ReportModel>::empty();
        proof {
            lemma_nothing_added(before);
        }
        let mut present: Vec<String> = Vec::new();
        let ghost mut names = Seq::<Seq<char>>::empty();
        proof {
            assert(names_model(present@) =~= names);
        }
        note_present(self.lgl_prsn.is_some(), "LglPrsn", &mut present);
        proof {
            names = names + name_if(self.lgl_prsn.is_some(), "LglPrsn"@);
        }
        note_present(self.ntrl_prsn.is_some(), "NtrlPrsn", &mut present);
        proof {
            names = names + name_if(self.ntrl_prsn.is_some(), "NtrlPrsn"@);
        }
        report_choice(present, path, out);
        proof {
            let added = choice_reports(names, here);
            lemma_more_added(before, expected, added);
            expected = expected + added;
        }
        validate_optional(&self.lgl_prsn, "LglPrsn", path, patterns, out);
        proof {
            let added = optional_reports(self.lgl_prsn, "LglPrsn"@, here);
            lemma_more_added(before, expected, added);
            expected = expected + added;
        }
        validate_optional(&self.ntrl_prsn, "NtrlPrsn", path, patterns, out);
        proof {
            let added = optional_reports(self.ntrl_prsn, "NtrlPrsn"@, here);
            lemma_more_added(before, expected, added);
            expected = expected + added;
        }
    }
}

/// A choice, serialized as its populated alternative.
#[derive(Debug, Default, Clone, PartialEq)]
pub struct PartyIdentification237Choice {
    /// Serialized in place, without an element of its own.
    pub value: PartyIdentification237ChoiceEnum,
}

impl Validate for PartyIdentification237Choice {
    open spec fn violations(&self, path: Seq<SegmentModel>) -> Seq<ReportModel> {
        Seq::empty()
            + self.value.violations(path)
    }

    fn validate_into(
        &self,
        path: &Vec<PathSegment>,
        patterns: &IdentifierPatterns,
        out: &mut Vec<ValidationViolation>,
    ) {
        let ghost before = reports_model(out@);
        let ghost here = path_model(path@);
        let ghost mut expected = Seq::<ReportModel>::empty();
        proof {
            lemma_nothing_added(before);
        }
        self.value.validate_into(path, patterns, out);
        proof {
            let added = self.value.violations(here);
            lemma_more_added(before, expected, added);
            expected = expected + added;
        }
    }
}

#[derive(Debug, Default, Clone, PartialEq)]
pub struct EligibilityDates1 {
    /// Serialized as `EntitlmntFxgDt`.
    pub entitlmnt_fxg_dt: IsoDate,
}

impl Validate for EligibilityDates1 {
    open spec fn violations(&self, path: Seq<SegmentModel>) -> Seq<ReportModel> {
        Seq::empty()
            + field_reports(self.entitlmnt_fxg_dt, "EntitlmntFxgDt"@, path)
    }

    fn validate_into(
        &self,
        path: &Vec<PathSegment>,
        patterns: &IdentifierPatterns,
        out: &mut Vec<ValidationViolation>,
    ) {
        let ghost before = reports_model(out@);
        let ghost here = path_model(path@);
        let ghost mut expected = Seq::<ReportModel>::empty();
        proof {
            lemma_nothing_added(before);
        }
        validate_field(&self.entitlmnt_fxg_dt, "EntitlmntFxgDt", path, patterns, out);
        proof {
            let added = field_reports(self.entitlmnt_fxg_dt, "EntitlmntFxgDt"@, here);
            lemma_more_added(before, expected, added);
            expected = expected + added;
        }
    }
}

/// A number of at least 0.
#[derive(Debug, Default, Clone, PartialEq)]
pub struct ImpliedCurrencyAndAmount {
    /// The text of the element.
    pub value: Decimal,
}

impl Validate for ImpliedCurrencyAndAmount {
    open spec fn violations(&self, path: Seq<SegmentModel>) -> Seq<ReportModel> {
        Seq::empty()
            + range_reports(self.value, Some(Decimal::whole_spec(0)), None, path)
    }

    fn validate_into(
        &self,
        path: &Vec<PathSegment>,
        patterns: &IdentifierPatterns,
        out: &mut Vec<ValidationViolation>,
    ) {
        let ghost before = reports_model(out@);
        let ghost here = path_model(path@);
        let ghost mut expected = Seq::<ReportModel>::empty();
        proof {
            lemma_nothing_added(before);
        }
        report_range(self.value, Some(Decimal::whole(0)), None, path, out);
        proof {
            let added = range_reports(self.value, Some(Decimal::whole_spec(0)), None, here);
            lemma_more_added(before, expected, added);
            expected = expected + added;
        }
    }
}

#[derive(Debug, Default, Clone, PartialEq)]
pub struct NaturalPersonIdentification1 {
    /// Serialized as `Id`.
    pub id: Max35Text,
    /// Serialized as `IdTp`.
    pub id_tp: Option<IdentificationType45Choice>,
}

impl Validate for NaturalPersonIdentification1 {
    open spec fn violations(&self, path: Seq<SegmentModel>) -> Seq<ReportModel> {
        Seq::empty()
            + field_reports(self.id, "Id"@, path)
            + optional_reports(self.id_tp, "IdTp"@, path)
    }

    fn validate_into(
        &self,
        path: &Vec<PathSegment>,
        patterns: &IdentifierPatterns,
        out: &mut Vec<ValidationViolation>,
    ) {
        let ghost before = reports_model(out@);
        let ghost here = path_model(path@);
        let ghost mut expected = Seq::<ReportModel>::empty();
        proof {
            lemma_nothing_added(before);
        }
        validate_field(&self.id, "Id", path, patterns, out);
        proof {
            let added = field_reports(self.id, "Id"@, here);
            lemma_more_added(before, expected, added);
            expected = expected + added;
        }
        validate_optional(&self.id_tp, "IdTp", path, patterns, out);
        proof {
            let added = optional_reports(self.id_tp, "IdTp"@, here);
            lemma_more_added(before, expected, added);
            expected = expected + added;
        }
    }
}

#[derive(Debug, Default, Clone, PartialEq)]
pub struct PartyIdentification238 {
    /// Serialized as `NmAndAdr`.
    pub nm_and_adr: PersonName3,
    /// Serialized as `EmailAdr`.
    pub email_adr: Option<Max256Text>,
    /// Serialized as `Id`.
    pub id: NaturalPersonIdentification1,
    /// Serialized as `Ntlty`.
    pub ntlty: Option<CountryCode>,
    /// Serialized as `DtAndPlcOfBirth`.
    pub dt_and_plc_of_birth: Option<DateAndPlaceOfBirth2>,
}

impl Validate for PartyIdentification238 {
    open spec fn violations(&self, path: Seq<SegmentModel>) -> Seq<ReportModel> {
        Seq::empty()
            + field_reports(self.nm_and_adr, "NmAndAdr"@, path)
            + optional_reports(self.email_adr, "EmailAdr"@, path)
            + field_reports(self.id, "Id"@, path)
            + optional_reports(self.ntlty, "Ntlty"@, path)
            + optional_reports(self.dt_and_plc_of_birth, "DtAndPlcOfBirth"@, path)
    }

    fn validate_into(
        &self,
        path: &Vec<PathSegment>,
        patterns: &IdentifierPatterns,
        out: &mut Vec<ValidationViolation>,
    ) {
        let ghost before = reports_model(out@);
        let ghost here = path_model(path@);
        let ghost mut expected = Seq::<ReportModel>::empty();
        proof {
            lemma_nothing_added(before);
        }
        validate_field(&self.nm_and_adr, "NmAndAdr", path, patterns, out);
        proof {
            let added = field_reports(self.nm_and_adr, "NmAndAdr"@, here);
            lemma_more_added(before, expected, added);
            expected = expected + added;
        }
        validate_optional(&self.email_adr, "EmailAdr", path, patterns, out);
        proof {
            let added = optional_reports(self.email_adr, "EmailAdr"@, here);
            lemma_more_added(before, expected, added);
            expected = expected + added;
        }
        validate_field(&self.id, "Id", path, patterns, out);
        proof {
            let added = field_reports(self.id, "Id"@, here);
            lemma_more_added(before, expected, added);
            expected = expected + added;
        }
        validate_optional(&self.ntlty, "Ntlty", path, patterns, out);
        proof {
            let added = optional_reports(self.ntlty, "Ntlty"@, here);
            lemma_more_added(before, expected, added);
            expected = expected + added;
        }
        validate_optional(&self.dt_and_plc_of_birth, "DtAndPlcOfBirth", path, patterns, out);
        proof {
            let added = optional_reports(self.dt_and_plc_of_birth, "DtAndPlcOfBirth"@, here);
            lemma_more_added(before, expected, added);
            expected = expected + added;
        }
    }
}

#[derive(Debug, Default, Clone, PartialEq)]
pub struct PartyIdentification249 {
    /// Serialized as `Id`.
    pub id: PartyIdentification237Choice,
    /// Serialized as `AddtlIdInf`.
    pub addtl_id_inf: Option<PartyAdditionalIdentification2Choice>,
}

impl Validate for PartyIdentification249 {
    open spec fn violations(&self, path: Seq<SegmentModel>) -> Seq<ReportModel> {
        Seq::empty()
            + field_reports(self.id, "Id"@, path)
            + optional_reports(self.addtl_id_inf, "AddtlIdInf"@, path)
    }

    fn validate_into(
        &self,
        path: &Vec<PathSegment>,
        patterns: &IdentifierPatterns,
        out: &mut Vec<ValidationViolation>,
    ) {
        let ghost before = reports_model(out@);
        let ghost here = path_model(path@);
        let ghost mut expected = Seq::<ReportModel>::empty();
        proof {
            lemma_nothing_added(before);
        }
        validate_field(&self.id, "Id", path, patterns, out);
        proof {
            let added = field_reports(self.id, "Id"@, here);
            lemma_more_added(before, expected, added);
            expected = expected + added;
        }
        validate_optional(&self.addtl_id_inf, "AddtlIdInf", path, patterns, out);
        proof {
            let added = optional_reports(self.addtl_id_inf, "AddtlIdInf"@, here);
            lemma_more_added(before, expected, added);
            expected = expected + added;
        }
    }
}

#[derive(Debug, Default, Clone, PartialEq)]
pub struct PostalAddress26 {
    /// Serialized as `AdrTp`.
    pub adr_tp: Option<AddressType2Code>,
    /// Serialized as `AdrLine`.
    pub adr_line: Vec<Max70Text>,
    /// Serialized as `StrtNm`.
    pub strt_nm: Option<Max70Text>,
    /// Serialized as `BldgNb`.
    pub bldg_nb: Option<Max16Text>,
    /// Serialized as `PstBx`.
    pub pst_bx: Option<Max16Text>,
    /// Serialized as `PstCd`.
    pub pst_cd: Option<Max16Text>,
    /// Serialized as `TwnNm`.
    pub twn_nm: Option<Max35Text>,
    /// Serialized as `CtrySubDvsn`.
    pub ctry_sub_dvsn: Option<Max35Text>,
    /// Serialized as `Ctry`.
    pub ctry: CountryCode,
}

impl Validate for PostalAddress26 {
    open spec fn violations(&self, path: Seq<SegmentModel>) -> Seq<ReportModel> {
        Seq::empty()
            + optional_reports(self.adr_tp, "AdrTp"@, path)
            + list_reports(self.adr_line@, Some(0), Some(5), "AdrLine"@, path)
            + optional_reports(self.strt_nm, "StrtNm"@, path)
            + optional_reports(self.bldg_nb, "BldgNb"@, path)
            + optional_reports(self.pst_bx, "PstBx"@, path)
            + optional_reports(self.pst_cd, "PstCd"@, path)
            + optional_reports(self.twn_nm, "TwnNm"@, path)
            + optional_reports(self.ctry_sub_dvsn, "CtrySubDvsn"@, path)
            + field_reports(self.ctry, "Ctry"@, path)
    }

    fn validate_into(
        &self,
        path: &Vec<PathSegment>,
        patterns: &IdentifierPatterns,
        out: &mut Vec<ValidationViolation>,
    ) {
        let ghost before = reports_model(out@);
        let ghost here = path_model(path@);
        let ghost mut expected = Seq::<ReportModel>::empty();
        proof {
            lemma_nothing_added(before);
        }
        validate_optional(&self.adr_tp, "AdrTp", path, patterns, out);
        proof {
            let added = optional_reports(self.adr_tp, "AdrTp"@, here);
            lemma_more_added(before, expected, added);
            expected = expected + added;
        }
        validate_list(&self.adr_line, Some(0), Some(5), "AdrLine", path, patterns, out);
        proof {
            let added = list_reports(self.adr_line@, Some(0), Some(5), "AdrLine"@, here);
            lemma_more_added(before, expected, added);
            expected = expected + added;
        }
        validate_optional(&self.strt_nm, "StrtNm", path, patterns, out);
        proof {
            let added = optional_reports(self.strt_nm, "StrtNm"@, here);
            lemma_more_added(before, expected, added);
            expected = expected + added;
        }
        validate_optional(&self.bldg_nb, "BldgNb", path, patterns, out);
        proof {
            let added = optional_reports(self.bldg_nb, "BldgNb"@, here);
            lemma_more_added(before, expected, added);
            expected = expected + added;
        }
        validate_optional(&self.pst_bx, "PstBx", path, patterns, out);
        proof {
            let added = optional_reports(self.pst_bx, "PstBx"@, here);
            lemma_more_added(before, expected, added);
            expected = expected + added;
        }
        validate_optional(&self.pst_cd, "PstCd", path, patterns, out);
        proof {
            let added = optional_reports(self.pst_cd, "PstCd"@, here);
            lemma_more_added(before, expected, added);
            expected = expected + added;
        }
        validate_optional(&self.twn_nm, "TwnNm", path, patterns, out);
        proof {
            let added = optional_reports(self.twn_nm, "TwnNm"@, here);
            lemma_more_added(before, expected, added);
            expected = expected + added;
        }
        validate_optional(&self.ctry_sub_dvsn, "CtrySubDvsn", path, patterns, out);
        proof {
            let added = optional_reports(self.ctry_sub_dvsn, "CtrySubDvsn"@, here);
            lemma_more_added(before, expected, added);
            expected = expected + added;
        }
        validate_field(&self.ctry, "Ctry", path, patterns, out);
        proof {
            let added = field_reports(self.ctry, "Ctry"@, here);
            lemma_more_added(before, expected, added);
            expected = expected + added;
        }
    }
}

#[derive(Debug, Default, Clone, PartialEq)]
pub enum MeetingTypeClassification2Code {
    /// Serialized as `AMET`.
    Amet,
    /// Serialized as `CLAS`.
    Clas,
    /// Serialized as `ISSU`.
    Issu,
    /// Serialized as `OMET`.
    Omet,
    /// Serialized as `VRHI`.
    Vrhi,
    #[default]
    Unknown,
}

impl Validate for MeetingTypeClassification2Code {
    open spec fn violations(&self, path: Seq<SegmentModel>) -> Seq<ReportModel> {
        Seq::empty()
    }

    fn validate_into(
        &self,
        path: &Vec<PathSegment>,
        patterns: &IdentifierPatterns,
        out: &mut Vec<ValidationViolation>,
    ) {
        proof {
            lemma_nothing_added(reports_model(out@));
        }
    }
}

#[derive(Debug, Default, Clone, PartialEq)]
pub enum AddressType2Code {
    /// Serialized as `ADDR`.
    Addr,
    /// Serialized as `PBOX`.
    Pbox,
    /// Serialized as `HOME`.
    Home,
    /// Serialized as `BIZZ`.
    Bizz,
    /// Serialized as `MLTO`.
    Mlto,
    /// Serialized as `DLVY`.
    Dlvy,
    #[default]
    Unknown,
}

impl Validate for AddressType2Code {
    open spec fn violations(&self, path: Seq<SegmentModel>) -> Seq<ReportModel> {
        Seq::empty()
    }

    fn validate_into(
        &self,
        path: &Vec<PathSegment>,
        patterns: &IdentifierPatterns,
        out: &mut Vec<ValidationViolation>,
    ) {
        proof {
            lemma_nothing_added(reports_model(out@));
        }
    }
}

#[derive(Debug, Default, Clone, PartialEq)]
pub enum NotificationType2Code {
    /// Serialized as `NEWM`.
    Newm,
    /// Serialized as `REPL`.
    Repl,
    #[default]
    Unknown,
}

impl Validate for NotificationType2Code {
    open spec fn violations(&self, path: Seq<SegmentModel>) -> Seq<ReportModel> {
        Seq::empty()
    }

    fn validate_into(
        &self,
        path: &Vec<PathSegment>,
        patterns: &IdentifierPatterns,
        out: &mut Vec<ValidationViolation>,
    ) {
        proof {
            lemma_nothing_added(reports_model(out@));
        }
    }
}

#[derive(Debug, Default, Clone, PartialEq)]
pub struct PersonName3 {
    /// Serialized as `NmPrfx`.
    pub nm_prfx: Option<NamePrefix2Code>,
    /// Serialized as `FrstNm`.
    pub frst_nm: Max350Text,
    /// Serialized as `Srnm`.
    pub srnm: Max350Text,
    /// Serialized as `Adr`.
    pub adr: Option<PostalAddress26>,
}

impl Validate for PersonName3 {
    open spec fn violations(&self, path: Seq<SegmentModel>) -> Seq<ReportModel> {
        Seq::empty()
            + optional_reports(self.nm_prfx, "NmPrfx"@, path)
            + field_reports(self.frst_nm, "FrstNm"@, path)
            + field_reports(self.srnm, "Srnm"@, path)
            + optional_reports(self.adr, "Adr"@, path)
    }

    fn validate_into(
        &self,
        path: &Vec<PathSegment>,
        patterns: &IdentifierPatterns,
        out: &mut Vec<ValidationViolation>,
    ) {
        let ghost before = reports_model(out@);
        let ghost here = path_model(path@);
        let ghost mut expected = Seq::<ReportModel>::empty();
        proof {
            lemma_nothing_added(before);
        }
        validate_optional(&self.nm_prfx, "NmPrfx", path, patterns, out);
        proof {
            let added = optional_reports(self.nm_prfx, "NmPrfx"@, here);
            lemma_more_added(before, expected, added);
            expected = expected + added;
        }
        validate_field(&self.frst_nm, "FrstNm", path, patterns, out);
        proof {
            let added = field_reports(self.frst_nm, "FrstNm"@, here);
            lemma_more_added(before, expected, added);
            expected = expected + added;
        }
        validate_field(&self.srnm, "Srnm", path, patterns, out);
        proof {
            let added = field_reports(self.srnm, "Srnm"@, here);
            lemma_more_added(before, expected, added);
            expected = expected + added;
        }
        validate_optional(&self.adr, "Adr", path, patterns, out);
        proof {
            let added = optional_reports(self.adr, "Adr"@, here);
            lemma_more_added(before, expected, added);
            expected = expected + added;
        }
    }
}

#[derive(Debug, Default, Clone, PartialEq)]
pub struct MeetingEntitlementNotificationV08<A> {
    /// Serialized as `NtfctnTp`.
    pub ntfctn_tp: NotificationType2Code,
    /// Serialized as `PrvsEntitlmntNtfctnId`.
    pub prvs_entitlmnt_ntfctn_id: Option<Max35Text>,
    /// Serialized as `MtgRef`.
    pub mtg_ref: MeetingReference10,
    /// Serialized as `Issr`.
    pub issr: PartyIdentification129Choice,
    /// Serialized as `Scty`.
    pub scty: Vec<SecurityPosition14>,
    /// Serialized as `Elgblty`.
    pub elgblty: EligibilityDates1,
    /// Serialized as `MtgAttndee`.
    pub mtg_attndee: Option<PartyIdentification232Choice>,
    /// Serialized as `Prxy`.
    pub prxy: Option<PartyIdentification232Choice>,
    /// Serialized as `SplmtryData`.
    pub splmtry_data: Vec<SupplementaryData1<A>>,
}

impl<A: Validate> Validate for MeetingEntitlementNotificationV08<A> {
    open spec fn violations(&self, path: Seq<SegmentModel>) -> Seq<ReportModel> {
        Seq::empty()
            + field_reports(self.ntfctn_tp, "NtfctnTp"@, path)
            + optional_reports(self.prvs_entitlmnt_ntfctn_id, "PrvsEntitlmntNtfctnId"@, path)
            + field_reports(self.mtg_ref, "MtgRef"@, path)
            + field_reports(self.issr, "Issr"@, path)
            + list_reports(self.scty@, Some(1), Some(200), "Scty"@, path)
            + field_reports(self.elgblty, "Elgblty"@, path)
            + optional_reports(self.mtg_attndee, "MtgAttndee"@, path)
            + optional_reports(self.prxy, "Prxy"@, path)
            + list_reports(self.splmtry_data@, Some(0), None, "SplmtryData"@, path)
    }

    fn validate_into(
        &self,
        path: &Vec<PathSegment>,
        patterns: &IdentifierPatterns,
        out: &mut Vec<ValidationViolation>,
    ) {
        let ghost before = reports_model(out@);
        let ghost here = path_model(path@);
        let ghost mut expected = Seq::<ReportModel>::empty();
        proof {
            lemma_nothing_added(before);
        }
        validate_field(&self.ntfctn_tp, "NtfctnTp", path, patterns, out);
        proof {
            let added = field_reports(self.ntfctn_tp, "NtfctnTp"@, here);
            lemma_more_added(before, expected, added);
            expected = expected + added;
        }
        validate_optional(&self.prvs_entitlmnt_ntfctn_id, "PrvsEntitlmntNtfctnId", path, patterns, out);
        proof {
            let added = optional_reports(self.prvs_entitlmnt_ntfctn_id, "PrvsEntitlmntNtfctnId"@, here);
            lemma_more_added(before, expected, added);
            expected = expected + added;
        }
        validate_field(&self.mtg_ref, "MtgRef", path, patterns, out);
        proof {
            let added = field_reports(self.mtg_ref, "MtgRef"@, here);
            lemma_more_added(before, expected, added);
            expected = expected + added;
        }
        validate_field(&self.issr, "Issr", path, patterns, out);
        proof {
            let added = field_reports(self.issr, "Issr"@, here);
            lemma_more_added(before, expected, added);
            expected = expected + added;
        }
        validate_list(&self.scty, Some(1), Some(200), "Scty", path, patterns, out);
        proof {
            let added = list_reports(self.scty@, Some(1), Some(200), "Scty"@, here);
            lemma_more_added(before, expected, added);
            expected = expected + added;
        }
        validate_field(&self.elgblty, "Elgblty", path, patterns, out);
        proof {
            let added = field_reports(self.elgblty, "Elgblty"@, here);
            lemma_more_added(before, expected, added);
            expected = expected + added;
        }
        validate_optional(&self.mtg_attndee, "MtgAttndee", path, patterns, out);
        proof {
            let added = optional_reports(self.mtg_attndee, "MtgAttndee"@, here);
            lemma_more_added(before, expected, added);
            expected = expected + added;
        }
        validate_optional(&self.prxy, "Prxy", path, patterns, out);
        proof {
            let added = optional_reports(self.prxy, "Prxy"@, here);
            lemma_more_added(before, expected, added);
            expected = expected + added;
        }
        validate_list(&self.splmtry_data, Some(0), None, "SplmtryData", path, patterns, out);
        proof {
            let added = list_reports(self.splmtry_data@, Some(0), None, "SplmtryData"@, here);
            lemma_more_added(before, expected, added);
            expected = expected + added;
        }
    }
}

#[derive(Debug, Default, Clone, PartialEq)]
pub struct PartyIdentification248 {
    /// Serialized as `NmAndAdr`.
    pub nm_and_adr: PersonName2,
    /// Serialized as `EmailAdr`.
    pub email_adr: Option<Max256Text>,
    /// Serialized as `Id`.
    pub id: Option<PartyIdentification198Choice>,
    /// Serialized as `CpnyRegrShrhldrId`.
    pub cpny_regr_shrhldr_id: Option<Max35Text>,
}

impl Validate for PartyIdentification248 {
    open spec fn violations(&self, path: Seq<SegmentModel>) -> Seq<ReportModel> {
        Seq::empty()
            + field_reports(self.nm_and_adr, "NmAndAdr"@, path)
            + optional_reports(self.email_adr, "EmailAdr"@, path)
            + optional_reports(self.id, "Id"@, path)
            + optional_reports(self.cpny_regr_shrhldr_id, "CpnyRegrShrhldrId"@, path)
    }

    fn validate_into(
        &self,
        path: &Vec<PathSegment>,
        patterns: &IdentifierPatterns,
        out: &mut Vec<ValidationViolation>,
    ) {
        let ghost before = reports_model(out@);
        let ghost here = path_model(path@);
        let ghost mut expected = Seq::<ReportModel>::empty();
        proof {
            lemma_nothing_added(before);
        }
        validate_field(&self.nm_and_adr, "NmAndAdr", path, patterns, out);
        proof {
            let added = field_reports(self.nm_and_adr, "NmAndAdr"@, here);
            lemma_more_added(before, expected, added);
            expected = expected + added;
        }
        validate_optional(&self.email_adr, "EmailAdr", path, patterns, out);
        proof {
            let added = optional_reports(self.email_adr, "EmailAdr"@, here);
            lemma_more_added(before, expected, added);
            expected = expected + added;
        }
        validate_optional(&self.id, "Id", path, patterns, out);
        proof {
            let added = optional_reports(self.id, "Id"@, here);
            lemma_more_added(before, expected, added);
            expected = expected + added;
        }
        validate_optional(&self.cpny_regr_shrhldr_id, "CpnyRegrShrhldrId", path, patterns, out);
        proof {
            let added = optional_reports(self.cpny_regr_shrhldr_id, "CpnyRegrShrhldrId"@, here);
            lemma_more_added(before, expected, added);
            expected = expected + added;
        }
    }
}

/// Text of 1 to 4 characters.
#[derive(Debug, Default, Clone, PartialEq)]
pub struct ExternalFinancialInstrumentIdentificationType1Code {
    /// The text of the element.
    pub value: String,
}

impl Validate for ExternalFinancialInstrumentIdentificationType1Code {
    open spec fn violations(&self, path: Seq<SegmentModel>) -> Seq<ReportModel> {
        Seq::empty()
            + length_reports(self.value@, Some(1), Some(4), path)
    }

    fn validate_into(
        &self,
        path: &Vec<PathSegment>,
        patterns: &IdentifierPatterns,
        out: &mut Vec<ValidationViolation>,
    ) {
        let ghost before = reports_model(out@);
        let ghost here = path_model(path@);
        let ghost mut expected = Seq::<ReportModel>::empty();
        proof {
            lemma_nothing_added(before);
        }
        report_length(self.value.as_str(), Some(1), Some(4), path, out);
        proof {
            let added = length_reports(self.value@, Some(1), Some(4), here);
            lemma_more_added(before, expected, added);
            expected = expected + added;
        }
    }
}

/// Text that matches `[A-Z]{2,2}[A-Z0-9]{9,9}[0-9]{1,1}`.
#[derive(Debug, Default, Clone, PartialEq)]
pub struct IsinOct2015Identifier {
    /// The text of the element.
    pub value: String,
}

impl Validate for IsinOct2015Identifier {
    open spec fn violations(&self, path: Seq<SegmentModel>) -> Seq<ReportModel> {
        Seq::empty()
            + pattern_reports(self.value@, "[A-Z]{2,2}[A-Z0-9]{9,9}[0-9]{1,1}"@, path)
    }

    fn validate_into(
        &self,
        path: &Vec<PathSegment>,
        patterns: &IdentifierPatterns,
        out: &mut Vec<ValidationViolation>,
    ) {
        let ghost before = reports_model(out@);
        let ghost here = path_model(path@);
        let ghost mut expected = Seq::<ReportModel>::empty();
        proof {
            lemma_nothing_added(before);
        }
        report_pattern(self.value.as_str(), patterns.isin_oct_2015_identifier(), path, out);
        proof {
            let added = pattern_reports(self.value@, "[A-Z]{2,2}[A-Z0-9]{9,9}[0-9]{1,1}"@, here);
            lemma_more_added(before, expected, added);
            expected = expected + added;
        }
    }
}

#[derive(Debug, Default, Clone, PartialEq)]
pub struct SafekeepingPlaceTypeAndText6 {
    /// Serialized as `SfkpgPlcTp`.
    pub sfkpg_plc_tp: SafekeepingPlace2Code,
    /// Serialized as `Id`.
    pub id: Option<Max35Text>,
}

impl Validate for SafekeepingPlaceTypeAndText6 {
    open spec fn violations(&self, path: Seq<SegmentModel>) -> Seq<ReportModel> {
        Seq::empty()
            + field_reports(self.sfkpg_plc_tp, "SfkpgPlcTp"@, path)
            + optional_reports(self.id, "Id"@, path)
    }

    fn validate_into(
        &self,
        path: &Vec<PathSegment>,
        patterns: &IdentifierPatterns,
        out: &mut Vec<ValidationViolation>,
    ) {
        let ghost before = reports_model(out@);
        let ghost here = path_model(path@);
        let ghost mut expected = Seq::<ReportModel>::empty();
        proof {
            lemma_nothing_added(before);
        }
        validate_field(&self.sfkpg_plc_tp, "SfkpgPlcTp", path, patterns, out);
        proof {
            let added = field_reports(self.sfkpg_plc_tp, "SfkpgPlcTp"@, here);
            lemma_more_added(before, expected, added);
            expected = expected + added;
        }
        validate_optional(&self.id, "Id", path, patterns, out);
        proof {
            let added = optional_reports(self.id, "Id"@, here);
            lemma_more_added(before, expected, added);
            expected = expected + added;
        }
    }
}

/// The alternatives of a choice: exactly one of them is populated.
#[derive(Debug, Default, Clone, PartialEq)]
pub struct PartyIdentification129ChoiceEnum {
    /// Serialized as `AnyBIC`.
    pub any_bic: Option<AnyBicDec2014Identifier>,
    /// Serialized as `PrtryId`.
    pub prtry_id: Option<GenericIdentification36>,
    /// Serialized as `NmAndAdr`.
    pub nm_and_adr: Option<NameAndAddress5>,
    /// Serialized as `LEI`.
    pub lei: Option<LeiIdentifier>,
}

impl Validate for PartyIdentification129ChoiceEnum {
    open spec fn violations(&self, path: Seq<SegmentModel>) -> Seq<ReportModel> {
        Seq::empty()
            + choice_reports(
                Seq::empty()
                    + name_if(self.any_bic.is_some(), "AnyBIC"@)
                    + name_if(self.prtry_id.is_some(), "PrtryId"@)
                    + name_if(self.nm_and_adr.is_some(), "NmAndAdr"@)
                    + name_if(self.lei.is_some(), "LEI"@),
                path,
            )
            + optional_reports(self.any_bic, "AnyBIC"@, path)
            + optional_reports(self.prtry_id, "PrtryId"@, path)
            + optional_reports(self.nm_and_adr, "NmAndAdr"@, path)
            + optional_reports(self.lei, "LEI"@, path)
    }

    fn validate_into(
        &self,
        path: &Vec<PathSegment>,
        patterns: &IdentifierPatterns,
        out: &mut Vec<ValidationViolation>,
    ) {
        let ghost before = reports_model(out@);
        let ghost here = path_model(path@);
        let ghost mut expected = Seq::<ReportModel>::empty();
        proof {
            lemma_nothing_added(before);
        }
        let mut present: Vec<String> = Vec::new();
        let ghost mut names = Seq::<Seq<char>>::empty();
        proof {
            assert(names_model(present@) =~= names);
        }
        note_present(self.any_bic.is_some(), "AnyBIC", &mut present);
        proof {
            names = names + name_if(self.any_bic.is_some(), "AnyBIC"@);
        }
        note_present(self.prtry_id.is_some(), "PrtryId", &mut present);
        proof {
            names = names + name_if(self.prtry_id.is_some(), "PrtryId"@);
        }
        note_present(self.nm_and_adr.is_some(), "NmAndAdr", &mut present);
        proof {
            names = names + name_if(self.nm_and_adr.is_some(), "NmAndAdr"@);
        }
        note_present(self.lei.is_some(), "LEI", &mut present);
        proof {
            names = names + name_if(self.lei.is_some(), "LEI"@);
        }
        report_choice(present, path, out);
        proof {
            let added = choice_reports(names, here);
            lemma_more_added(before, expected, added);
            expected = expected + added;
        }
        validate_optional(&self.any_bic, "AnyBIC", path, patterns, out);
        proof {
            let added = optional_reports(self.any_bic, "AnyBIC"@, here);
            lemma_more_added(before, expected, added);
            expected = expected + added;
        }
        validate_optional(&self.prtry_id, "PrtryId", path, patterns, out);
        proof {
            let added = optional_reports(self.prtry_id, "PrtryId"@, here);
            lemma_more_added(before, expected, added);
            expected = expected + added;
        }
        validate_optional(&self.nm_and_adr, "NmAndAdr", path, patterns, out);
        proof {
            let added = optional_reports(self.nm_and_adr, "NmAndAdr"@, here);
            lemma_more_added(before, expected, added);
            expected = expected + added;
        }
        validate_optional(&self.lei, "LEI", path, patterns, out);
        proof {
            let added = optional_reports(self.lei, "LEI"@, here);
            lemma_more_added(before, expected, added);
            expected = expected + added;
        }
    }
}

/// A choice, serialized as its populated alternative.
#[derive(Debug, Default, Clone, PartialEq)]
pub struct PartyIdentification129Choice {
    /// Serialized in place, without an element of its own.
    pub value: PartyIdentification129ChoiceEnum,
}

impl Validate for PartyIdentification129Choice {
    open spec fn violations(&self, path: Seq<SegmentModel>) -> Seq<ReportModel> {
        Seq::empty()
            + self.value.violations(path)
    }

    fn validate_into(
        &self,
        path: &Vec<PathSegment>,
        patterns: &IdentifierPatterns,
        out: &mut Vec<ValidationViolation>,
    ) {
        let ghost before = reports_model(out@);
        let ghost here = path_model(path@);
        let ghost mut expected = Seq::<ReportModel>::empty();
        proof {
            lemma_nothing_added(before);
        }
        self.value.validate_into(path, patterns, out);
        proof {
            let added = self.value.violations(here);
            lemma_more_added(before, expected, added);
            expected = expected + added;
        }
    }
}

/// The alternatives of a choice: exactly one of them is populated.
#[derive(Debug, Default, Clone, PartialEq)]
pub struct SafekeepingPlaceFormat28ChoiceEnum {
    /// Serialized as `Prtry`.
    pub prtry: Option<GenericIdentification78>,
    /// Serialized as `TpAndId`.
    pub tp_and_id: Option<SafekeepingPlaceTypeAndIdentification1>,
    /// Serialized as `Ctry`.
    pub ctry: Option<CountryCode>,
    /// Serialized as `Id`.
    pub id: Option<SafekeepingPlaceTypeAndText6>,
}

impl Validate for SafekeepingPlaceFormat28ChoiceEnum {
    open spec fn violations(&self, path: Seq<SegmentModel>) -> Seq<ReportModel> {
        Seq::empty()
            + choice_reports(
                Seq::empty()
                    + name_if(self.prtry.is_some(), "Prtry"@)
                    + name_if(self.tp_and_id.is_some(), "TpAndId"@)
                    + name_if(self.ctry.is_some(), "Ctry"@)
                    + name_if(self.id.is_some(), "Id"@),
                path,
            )
            + optional_reports(self.prtry, "Prtry"@, path)
            + optional_reports(self.tp_and_id, "TpAndId"@, path)
            + optional_reports(self.ctry, "Ctry"@, path)
            + optional_reports(self.id, "Id"@, path)
    }

    fn validate_into(
        &self,
        path: &Vec<PathSegment>,
        patterns: &IdentifierPatterns,
        out: &mut Vec<ValidationViolation>,
    ) {
        let ghost before = reports_model(out@);
        let ghost here = path_model(path@);
        let ghost mut expected = Seq::<ReportModel>::empty();
        proof {
            lemma_nothing_added(before);
        }
        let mut present: Vec<String> = Vec::new();
        let ghost mut names = Seq::<Seq<char>>::empty();
        proof {
            assert(names_model(present@) =~= names);
        }
        note_present(self.prtry.is_some(), "Prtry", &mut present);
        proof {
            names = names + name_if(self.prtry.is_some(), "Prtry"@);
        }
        note_present(self.tp_and_id.is_some(), "TpAndId", &mut present);
        proof {
            names = names + name_if(self.tp_and_id.is_some(), "TpAndId"@);
        }
        note_present(self.ctry.is_some(), "Ctry", &mut present);
        proof {
            names = names + name_if(self.ctry.is_some(), "Ctry"@);
        }
        note_present(self.id.is_some(), "Id", &mut present);
        proof {
            names = names + name_if(self.id.is_some(), "Id"@);
        }
        report_choice(present, path, out);
        proof {
            let added = choice_reports(names, here);
            lemma_more_added(before, expected, added);
            expected = expected + added;
        }
        validate_optional(&self.prtry, "Prtry", path, patterns, out);
        proof {
            let added = optional_reports(self.prtry, "Prtry"@, here);
            lemma_more_added(before, expected, added);
            expected = expected + added;
        }
        validate_optional(&self.tp_and_id, "TpAndId", path, patterns, out);
        proof {
            let added = optional_reports(self.tp_and_id, "TpAndId"@, here);
            lemma_more_added(before, expected, added);
            expected = expected + added;
        }
        validate_optional(&self.ctry, "Ctry", path, patterns, out);
        proof {
            let added = optional_reports(self.ctry, "Ctry"@, here);
            lemma_more_added(before, expected, added);
            expected = expected + added;
        }
        validate_optional(&self.id, "Id", path, patterns, out);
        proof {
            let added = optional_reports(self.id, "Id"@, here);
            lemma_more_added(before, expected, added);
            expected = expected + added;
        }
    }
}

/// A choice, serialized as its populated alternative.
#[derive(Debug, Default, Clone, PartialEq)]
pub struct SafekeepingPlaceFormat28Choice {
    /// Serialized in place, without an element of its own.
    pub value: SafekeepingPlaceFormat28ChoiceEnum,
}

impl Validate for SafekeepingPlaceFormat28Choice {
    open spec fn violations(&self, path: Seq<SegmentModel>) -> Seq<ReportModel> {
        Seq::empty()
            + self.value.violations(path)
    }

    fn validate_into(
        &self,
        path: &Vec<PathSegment>,
        patterns: &IdentifierPatterns,
        out: &mut Vec<ValidationViolation>,
    ) {
        let ghost before = reports_model(out@);
        let ghost here = path_model(path@);
        let ghost mut expected = Seq::<ReportModel>::empty();
        proof {
            lemma_nothing_added(before);
        }
        self.value.validate_into(path, patterns, out);
        proof {
            let added = self.value.violations(here);
            lemma_more_added(before, expected, added);
            expected = expected + added;
        }
    }
}

/// The alternatives of a choice: exactly one of them is populated.
#[derive(Debug, Default, Clone, PartialEq)]
pub struct PartyAdditionalIdentification2ChoiceEnum {
    /// Serialized as `BirthDt`.
    pub birth_dt: Option<IsoDate>,
    /// Serialized as `RegnId`.
    pub regn_id: Option<OrganisationIdentification5>,
}

impl Validate for PartyAdditionalIdentification2ChoiceEnum {
    open spec fn violations(&self, path: Seq<SegmentModel>) -> Seq<ReportModel> {
        Seq::empty()
            + choice_reports(
                Seq::empty()
                    + name_if(self.birth_dt.is_some(), "BirthDt"@)
                    + name_if(self.regn_id.is_some(), "RegnId"@),
                path,
            )
            + optional_reports(self.birth_dt, "BirthDt"@, path)
            + optional_reports(self.regn_id, "RegnId"@, path)
    }

    fn validate_into(
        &self,
        path: &Vec<PathSegment>,
        patterns: &IdentifierPatterns,
        out: &mut Vec<ValidationViolation>,
    ) {
        let ghost before = reports_model(out@);
        let ghost here = path_model(path@);
        let ghost mut expected = Seq::<ReportModel>::empty();
        proof {
            lemma_nothing_added(before);
        }
        let mut present: Vec<String> = Vec::new();
        let ghost mut names = Seq::<Seq<char>>::empty();
        proof {
            assert(names_model(present@) =~= names);
        }
        note_present(self.birth_dt.is_some(), "BirthDt", &mut present);
        proof {
            names = names + name_if(self.birth_dt.is_some(), "BirthDt"@);
        }
        note_present(self.regn_id.is_some(), "RegnId", &mut present);
        proof {
            names = names + name_if(self.regn_id.is_some(), "RegnId"@);
        }
        report_choice(present, path, out);
        proof {
            let added = choice_reports(names, here);
            lemma_more_added(before, expected, added);
            expected = expected + added;
        }
        validate_optional(&self.birth_dt, "BirthDt", path, patterns, out);
        proof {
            let added = optional_reports(self.birth_dt, "BirthDt"@, here);
            lemma_more_added(before, expected, added);
            expected = expected + added;
        }
        validate_optional(&self.regn_id, "RegnId", path, patterns, out);
        proof {
            let added = optional_reports(self.regn_id, "RegnId"@, here);
            lemma_more_added(before, expected, added);
            expected = expected + added;
        }
    }
}

/// A choice, serialized as its populated alternative.
#[derive(Debug, Default, Clone, PartialEq)]
pub struct PartyAdditionalIdentification2Choice {
    /// Serialized in place, without an element of its own.
    pub value: PartyAdditionalIdentification2ChoiceEnum,
}

impl Validate for PartyAdditionalIdentification2Choice {
    open spec fn violations(&self, path: Seq<SegmentModel>) -> Seq<ReportModel> {
        Seq::empty()
            + self.value.violations(path)
    }

    fn validate_into(
        &self,
        path: &Vec<PathSegment>,
        patterns: &IdentifierPatterns,
        out: &mut Vec<ValidationViolation>,
    ) {
        let ghost before = reports_model(out@);
        let ghost here = path_model(path@);
        let ghost mut expected = Seq::<ReportModel>::empty();
        proof {
            lemma_nothing_added(before);
        }
        self.value.validate_into(path, patterns, out);
        proof {
            let added = self.value.violations(here);
            lemma_more_added(before, expected, added);
            expected = expected + added;
        }
    }
}

/// The alternatives of a choice: exactly one of them is populated.
#[derive(Debug, Default, Clone, PartialEq)]
pub struct FinancialInstrumentQuantity18ChoiceEnum {
    /// Serialized as `Unit`.
    pub unit: Option<DecimalNumber>,
    /// Serialized as `FaceAmt`.
    pub face_amt: Option<ImpliedCurrencyAndAmount>,
}

impl Validate for FinancialInstrumentQuantity18ChoiceEnum {
    open spec fn violations(&self, path: Seq<SegmentModel>) -> Seq<ReportModel> {
        Seq::empty()
            + choice_reports(
                Seq::empty()
                    + name_if(self.unit.is_some(), "Unit"@)
                    + name_if(self.face_amt.is_some(), "FaceAmt"@),
                path,
            )
            + optional_reports(self.unit, "Unit"@, path)
            + optional_reports(self.face_amt, "FaceAmt"@, path)
    }

    fn validate_into(
        &self,
        path: &Vec<PathSegment>,
        patterns: &IdentifierPatterns,
        out: &mut Vec<ValidationViolation>,
    ) {
        let ghost before = reports_model(out@);
        let ghost here = path_model(path@);
        let ghost mut expected = Seq::<ReportModel>::empty();
        proof {
            lemma_nothing_added(before);
        }
        let mut present: Vec<String> = Vec::new();
        let ghost mut names = Seq::<Seq<char>>::empty();
        proof {
            assert(names_model(present@) =~= names);
        }
        note_present(self.unit.is_some(), "Unit", &mut present);
        proof {
            names = names + name_if(self.unit.is_some(), "Unit"@);
        }
        note_present(self.face_amt.is_some(), "FaceAmt", &mut present);
        proof {
            names = names + name_if(self.face_amt.is_some(), "FaceAmt"@);
        }
        report_choice(present, path, out);
        proof {
            let added = choice_reports(names, here);
            lemma_more_added(before, expected, added);
            expected = expected + added;
        }
        validate_optional(&self.unit, "Unit", path, patterns, out);
        proof {
            let added = optional_reports(self.unit, "Unit"@, here);
            lemma_more_added(before, expected, added);
            expected = expected + added;
        }
        validate_optional(&self.face_amt, "FaceAmt", path, patterns, out);
        proof {
            let added = optional_reports(self.face_amt, "FaceAmt"@, here);
            lemma_more_added(before, expected, added);
            expected = expected + added;
        }
    }
}

/// A choice, serialized as its populated alternative.
#[derive(Debug, Default, Clone, PartialEq)]
pub struct FinancialInstrumentQuantity18Choice {
    /// Serialized in place, without an element of its own.
    pub value: FinancialInstrumentQuantity18ChoiceEnum,
}

impl Validate for FinancialInstrumentQuantity18Choice {
    open spec fn violations(&self, path: Seq<SegmentModel>) -> Seq<ReportModel> {
        Seq::empty()
            + self.value.violations(path)
    }

    fn validate_into(
        &self,
        path: &Vec<PathSegment>,
        patterns: &IdentifierPatterns,
        out: &mut Vec<ValidationViolation>,
    ) {
        let ghost before = reports_model(out@);
        let ghost here = path_model(path@);
        let ghost mut expected = Seq::<ReportModel>::empty();
        proof {
            lemma_nothing_added(before);
        }
        self.value.validate_into(path, patterns, out);
        proof {
            let added = self.value.violations(here);
            lemma_more_added(before, expected, added);
            expected = expected + added;
        }
    }
}

#[derive(Debug, Default, Clone, PartialEq)]
pub struct GenericIdentification30 {
    /// Serialized as `Id`.
    pub id: Exact4AlphaNumericText,
    /// Serialized as `Issr`.
    pub issr: Max35Text,
    /// Serialized as `SchmeNm`.
    pub schme_nm: Option<Max35Text>,
}

impl Validate for GenericIdentification30 {
    open spec fn violations(&self, path: Seq<SegmentModel>) -> Seq<ReportModel> {
        Seq::empty()
            + field_reports(self.id, "Id"@, path)
            + field_reports(self.issr, "Issr"@, path)
            + optional_reports(self.schme_nm, "SchmeNm"@, path)
    }

    fn validate_into(
        &self,
        path: &Vec<PathSegment>,
        patterns: &IdentifierPatterns,
        out: &mut Vec<ValidationViolation>,
    ) {
        let ghost before = reports_model(out@);
        let ghost here = path_model(path@);
        let ghost mut expected = Seq::<ReportModel>::empty();
        proof {
            lemma_nothing_added(before);
        }
        validate_field(&self.id, "Id", path, patterns, out);
        proof {
            let added = field_reports(self.id, "Id"@, here);
            lemma_more_added(before, expected, added);
            expected = expected + added;
        }
        validate_field(&self.issr, "Issr", path, patterns, out);
        proof {
            let added = field_reports(self.issr, "Issr"@, here);
            lemma_more_added(before, expected, added);
            expected = expected + added;
        }
        validate_optional(&self.schme_nm, "SchmeNm", path, patterns, out);
        proof {
            let added = optional_reports(self.schme_nm, "SchmeNm"@, here);
            lemma_more_added(before, expected, added);
            expected = expected + added;
        }
    }
}

#[derive(Debug, Default, Clone, PartialEq)]
pub struct GenericIdentification78 {
    /// Serialized as `Tp`.
    pub tp: GenericIdentification30,
    /// Serialized as `Id`.
    pub id: Option<Max35Text>,
}

impl Validate for GenericIdentification78 {
    open spec fn violations(&self, path: Seq<SegmentModel>) -> Seq<ReportModel> {
        Seq::empty()
            + field_reports(self.tp, "Tp"@, path)
            + optional_reports(self.id, "Id"@, path)
    }

    fn validate_into(
        &self,
        path: &Vec<PathSegment>,
        patterns: &IdentifierPatterns,
        out: &mut Vec<ValidationViolation>,
    ) {
        let ghost before = reports_model(out@);
        let ghost here = path_model(path@);
        let ghost mut expected = Seq::<ReportModel>::empty();
        proof {
            lemma_nothing_added(before);
        }
        validate_field(&self.tp, "Tp", path, patterns, out);
        proof {
            let added = field_reports(self.tp, "Tp"@, here);
            lemma_more_added(before, expected, added);
            expected = expected + added;
        }
        validate_optional(&self.id, "Id", path, patterns, out);
        proof {
            let added = optional_reports(self.id, "Id"@, here);
            lemma_more_added(before, expected, added);
            expected = expected + added;
        }
    }
}

/// Text of 1 to 35 characters.
#[derive(Debug, Default, Clone, PartialEq)]
pub struct Max35Text {
    /// The text of the element.
    pub value: String,
}

impl Validate for Max35Text {
    open spec fn violations(&self, path: Seq<SegmentModel>) -> Seq<ReportModel> {
        Seq::empty()
            + length_reports(self.value@, Some(1), Some(35), path)
    }

    fn validate_into(
        &self,
        path: &Vec<PathSegment>,
        patterns: &IdentifierPatterns,
        out: &mut Vec<ValidationViolation>,
    ) {
        let ghost before = reports_model(out@);
        let ghost here = path_model(path@);
        let ghost mut expected = Seq::<ReportModel>::empty();
        proof {
            lemma_nothing_added(before);
        }
        report_length(self.value.as_str(), Some(1), Some(35), path, out);
        proof {
            let added = length_reports(self.value@, Some(1), Some(35), here);
            lemma_more_added(before, expected, added);
            expected = expected + added;
        }
    }
}

#[derive(Debug, Default, Clone, PartialEq)]
pub struct SupplementaryData1<A> {
    /// Serialized as `PlcAndNm`.
    pub plc_and_nm: Option<Max350Text>,
    /// Serialized as `Envlp`.
    pub envlp: SupplementaryDataEnvelope1<A>,
}

impl<A: Validate> Validate for SupplementaryData1<A> {
    open spec fn violations(&self, path: Seq<SegmentModel>) -> Seq<ReportModel> {
        Seq::empty()
            + optional_reports(self.plc_and_nm, "PlcAndNm"@, path)
            + field_reports(self.envlp, "Envlp"@, path)
    }

    fn validate_into(
        &self,
        path: &Vec<PathSegment>,
        patterns: &IdentifierPatterns,
        out: &mut Vec<ValidationViolation>,
    ) {
        let ghost before = reports_model(out@);
        let ghost here = path_model(path@);
        let ghost mut expected = Seq::<ReportModel>::empty();
        proof {
            lemma_nothing_added(before);
        }
        validate_optional(&self.plc_and_nm, "PlcAndNm", path, patterns, out);
        proof {
            let added = optional_reports(self.plc_and_nm, "PlcAndNm"@, here);
            lemma_more_added(before, expected, added);
            expected = expected + added;
        }
        validate_field(&self.envlp, "Envlp", path, patterns, out);
        proof {
            let added = field_reports(self.envlp, "Envlp"@, here);
            lemma_more_added(before, expected, added);
            expected = expected + added;
        }
    }
}

#[derive(Debug, Default, Clone, PartialEq)]
pub enum SafekeepingPlace2Code {
    /// Serialized as `SHHE`.
    Shhe,
    /// Serialized as `ALLP`.
    Allp,
    #[default]
    Unknown,
}

impl Validate for SafekeepingPlace2Code {
    open spec fn violations(&self, path: Seq<SegmentModel>) -> Seq<ReportModel> {
        Seq::empty()
    }

    fn validate_into(
        &self,
        path: &Vec<PathSegment>,
        patterns: &IdentifierPatterns,
        out: &mut Vec<ValidationViolation>,
    ) {
        proof {
            lemma_nothing_added(reports_model(out@));
        }
    }
}

/// Text that matches `[a-zA-Z0-9]{4}`.
#[derive(Debug, Default, Clone, PartialEq)]
pub struct Exact4AlphaNumericText {
    /// The text of the element.
    pub value: String,
}

impl Validate for Exact4AlphaNumericText {
    open spec fn violations(&self, path: Seq<SegmentModel>) -> Seq<ReportModel> {
        Seq::empty()
            + pattern_reports(self.value@, "[a-zA-Z0-9]{4}"@, path)
    }

    fn validate_into(
        &self,
        path: &Vec<PathSegment>,
        patterns: &IdentifierPatterns,
        out: &mut Vec<ValidationViolation>,
    ) {
        let ghost before = reports_model(out@);
        let ghost here = path_model(path@);
        let ghost mut expected = Seq::<ReportModel>::empty();
        proof {
            lemma_nothing_added(before);
        }
        report_pattern(self.value.as_str(), patterns.exact_4_alpha_numeric_text(), path, out);
        proof {
            let added = pattern_reports(self.value@, "[a-zA-Z0-9]{4}"@, here);
            lemma_more_added(before, expected, added);
            expected = expected + added;
        }
    }
}

/// The alternatives of a choice: exactly one of them is populated.
#[derive(Debug, Default, Clone, PartialEq)]
pub struct PartyIdentification231ChoiceEnum {
    /// Serialized as `LglPrsn`.
    pub lgl_prsn: Option<PartyIdentification221>,
    /// Serialized as `NtrlPrsn`.
    pub ntrl_prsn: Option<PartyIdentification238>,
}

impl Validate for PartyIdentification231ChoiceEnum {
    open spec fn violations(&self, path: Seq<SegmentModel>) -> Seq<ReportModel> {
        Seq::empty()
            + choice_reports(
                Seq::empty()
                    + name_if(self.lgl_prsn.is_some(), "LglPrsn"@)
                    + name_if(self.ntrl_prsn.is_some(), "NtrlPrsn"@),
                path,
            )
            + optional_reports(self.lgl_prsn, "LglPrsn"@, path)
            + optional_reports(self.ntrl_prsn, "NtrlPrsn"@, path)
    }

    fn validate_into(
        &self,
        path: &Vec<PathSegment>,
        patterns: &IdentifierPatterns,
        out: &mut Vec<ValidationViolation>,
    ) {
        let ghost before = reports_model(out@);
        let ghost here = path_model(path@);
        let ghost mut expected = Seq::<ReportModel>::empty();
        proof {
            lemma_nothing_added(before);
        }
        let mut present: Vec<String> = Vec::new();
        let ghost mut names = Seq::<Seq<char>>::empty();
        proof {
            assert(names_model(present@) =~= names);
        }
        note_present(self.lgl_prsn.is_some(), "LglPrsn", &mut present);
        proof {
            names = names + name_if(self.lgl_prsn.is_some(), "LglPrsn"@);
        }
        note_present(self.ntrl_prsn.is_some(), "NtrlPrsn", &mut present);
        proof {
            names = names + name_if(self.ntrl_prsn.is_some(), "NtrlPrsn"@);
        }
        report_choice(present, path, out);
        proof {
            let added = choice_reports(names, here);
            lemma_more_added(before, expected, added);
            expected = expected + added;
        }
        validate_optional(&self.lgl_prsn, "LglPrsn", path, patterns, out);
        proof {
            let added = optional_reports(self.lgl_prsn, "LglPrsn"@, here);
            lemma_more_added(before, expected, added);
            expected = expected + added;
        }
        validate_optional(&self.ntrl_prsn, "NtrlPrsn", path, patterns, out);
        proof {
            let added = optional_reports(self.ntrl_prsn, "NtrlPrsn"@, here);
            lemma_more_added(before, expected, added);
            expected = expected + added;
        }
    }
}

/// A choice, serialized as its populated alternative.
#[derive(Debug, Default, Clone, PartialEq)]
pub struct PartyIdentification231Choice {
    /// Serialized in place, without an element of its own.
    pub value: PartyIdentification231ChoiceEnum,
}

impl Validate for PartyIdentification231Choice {
    open spec fn violations(&self, path: Seq<SegmentModel>) -> Seq<ReportModel> {
        Seq::empty()
            + self.value.violations(path)
    }

    fn validate_into(
        &self,
        path: &Vec<PathSegment>,
        patterns: &IdentifierPatterns,
        out: &mut Vec<ValidationViolation>,
    ) {
        let ghost before = reports_model(out@);
        let ghost here = path_model(path@);
        let ghost mut expected = Seq::<ReportModel>::empty();
        proof {
            lemma_nothing_added(before);
        }
        self.value.validate_into(path, patterns, out);
        proof {
            let added = self.value.violations(here);
            lemma_more_added(before, expected, added);
            expected = expected + added;
        }
    }
}

/// The alternatives of a choice: exactly one of them is populated.
#[derive(Debug, Default, Clone, PartialEq)]
pub struct IdentificationSource3ChoiceEnum {
    /// Serialized as `Cd`.
    pub cd: Option<ExternalFinancialInstrumentIdentificationType1Code>,
    /// Serialized as `Prtry`.
    pub prtry: Option<Max35Text>,
}

impl Validate for IdentificationSource3ChoiceEnum {
    open spec fn violations(&self, path: Seq<SegmentModel>) -> Seq<ReportModel> {
        Seq::empty()
            + choice_reports(
                Seq::empty()
                    + name_if(self.cd.is_some(), "Cd"@)
                    + name_if(self.prtry.is_some(), "Prtry"@),
                path,
            )
            + optional_reports(self.cd, "Cd"@, path)
            + optional_reports(self.prtry, "Prtry"@, path)
    }

    fn validate_into(
        &self,
        path: &Vec<PathSegment>,
        patterns: &IdentifierPatterns,
        out: &mut Vec<ValidationViolation>,
    ) {
        let ghost before = reports_model(out@);
        let ghost here = path_model(path@);
        let ghost mut expected = Seq::<ReportModel>::empty();
        proof {
            lemma_nothing_added(before);
        }
        let mut present: Vec<String> = Vec::new();
        let ghost mut names = Seq::<Seq<char>>::empty();
        proof {
            assert(names_model(present@) =~= names);
        }
        note_present(self.cd.is_some(), "Cd", &mut present);
        proof {
            names = names + name_if(self.cd.is_some(), "Cd"@);
        }
        note_present(self.prtry.is_some(), "Prtry", &mut present);
        proof {
            names = names + name_if(self.prtry.is_some(), "Prtry"@);
        }
        report_choice(present, path, out);
        proof {
            let added = choice_reports(names, here);
            lemma_more_added(before, expected, added);
            expected = expected + added;
        }
        validate_optional(&self.cd, "Cd", path, patterns, out);
        proof {
            let added = optional_reports(self.cd, "Cd"@, here);
            lemma_more_added(before, expected, added);
            expected = expected + added;
        }
        validate_optional(&self.prtry, "Prtry", path, patterns, out);
        proof {
            let added = optional_reports(self.prtry, "Prtry"@, here);
            lemma_more_added(before, expected, added);
            expected = expected + added;
        }
    }
}

/// A choice, serialized as its populated alternative.
#[derive(Debug, Default, Clone, PartialEq)]
pub struct IdentificationSource3Choice {
    /// Serialized in place, without an element of its own.
    pub value: IdentificationSource3ChoiceEnum,
}

impl Validate for IdentificationSource3Choice {
    open spec fn violations(&self, path: Seq<SegmentModel>) -> Seq<ReportModel> {
        Seq::empty()
            + self.value.violations(path)
    }

    fn validate_into(
        &self,
        path: &Vec<PathSegment>,
        patterns: &IdentifierPatterns,
        out: &mut Vec<ValidationViolation>,
    ) {
        let ghost before = reports_model(out@);
        let ghost here = path_model(path@);
        let ghost mut expected = Seq::<ReportModel>::empty();
        proof {
            lemma_nothing_added(before);
        }
        self.value.validate_into(path, patterns, out);
        proof {
            let added = self.value.violations(here);
            lemma_more_added(before, expected, added);
            expected = expected + added;
        }
    }
}

/// Text that matches `[A-Z]{2,2}`.
#[derive(Debug, Default, Clone, PartialEq)]
pub struct CountryCode {
    /// The text of the element.
    pub value: String,
}

impl Validate for CountryCode {
    open spec fn violations(&self, path: Seq<SegmentModel>) -> Seq<ReportModel> {
        Seq::empty()
            + pattern_reports(self.value@, "[A-Z]{2,2}"@, path)
    }

    fn validate_into(
        &self,
        path: &Vec<PathSegment>,
        patterns: &IdentifierPatterns,
        out: &mut Vec<ValidationViolation>,
    ) {
        let ghost before = reports_model(out@);
        let ghost here = path_model(path@);
        let ghost mut expected = Seq::<ReportModel>::empty();
        proof {
            lemma_nothing_added(before);
        }
        report_pattern(self.value.as_str(), patterns.country_code(), path, out);
        proof {
            let added = pattern_reports(self.value@, "[A-Z]{2,2}"@, here);
            lemma_more_added(before, expected, added);
            expected = expected + added;
        }
    }
}

/// Text of 1 to 50 characters.
#[derive(Debug, Default, Clone, PartialEq)]
pub struct Max50Text {
    /// The text of the element.
    pub value: String,
}

impl Validate for Max50Text {
    open spec fn violations(&self, path: Seq<SegmentModel>) -> Seq<ReportModel> {
        Seq::empty()
            + length_reports(self.value@, Some(1), Some(50), path)
    }

    fn validate_into(
        &self,
        path: &Vec<PathSegment>,
        patterns: &IdentifierPatterns,
        out: &mut Vec<ValidationViolation>,
    ) {
        let ghost before = reports_model(out@);
        let ghost here = path_model(path@);
        let ghost mut expected = Seq::<ReportModel>::empty();
        proof {
            lemma_nothing_added(before);
        }
        report_length(self.value.as_str(), Some(1), Some(50), path, out);
        proof {
            let added = length_reports(self.value@, Some(1), Some(50), here);
            lemma_more_added(before, expected, added);
            expected = expected + added;
        }
    }
}

/// Text of 1 to 4 characters that matches `[a-zA-Z0-9]{1,4}`.
#[derive(Debug, Default, Clone, PartialEq)]
pub struct Max4AlphaNumericText {
    /// The text of the element.
    pub value: String,
}

impl Validate for Max4AlphaNumericText {
    open spec fn violations(&self, path: Seq<SegmentModel>) -> Seq<ReportModel> {
        Seq::empty()
            + length_reports(self.value@, Some(1), Some(4), path)
            + pattern_reports(self.value@, "[a-zA-Z0-9]{1,4}"@, path)
    }

    fn validate_into(
        &self,
        path: &Vec<PathSegment>,
        patterns: &IdentifierPatterns,
        out: &mut Vec<ValidationViolation>,
    ) {
        let ghost before = reports_model(out@);
        let ghost here = path_model(path@);
        let ghost mut expected = Seq::<ReportModel>::empty();
        proof {
            lemma_nothing_added(before);
        }
        report_length(self.value.as_str(), Some(1), Some(4), path, out);
        proof {
            let added = length_reports(self.value@, Some(1), Some(4), here);
            lemma_more_added(before, expected, added);
            expected = expected + added;
        }
        report_pattern(self.value.as_str(), patterns.max_4_alpha_numeric_text(), path, out);
        proof {
            let added = pattern_reports(self.value@, "[a-zA-Z0-9]{1,4}"@, here);
            lemma_more_added(before, expected, added);
            expected = expected + added;
        }
    }
}

#[derive(Debug, Default, Clone, PartialEq)]
pub struct HoldingBalance9 {
    /// Serialized as `Bal`.
    pub bal: FinancialInstrumentQuantity18Choice,
    /// Serialized as `BalTp`.
    pub bal_tp: SecuritiesEntryType2Code,
    /// Serialized as `SfkpgPlc`.
    pub sfkpg_plc: Option<SafekeepingPlaceFormat28Choice>,
    /// Serialized as `Dt`.
    pub dt: Option<IsoDate>,
}

impl Validate for HoldingBalance9 {
    open spec fn violations(&self, path: Seq<SegmentModel>) -> Seq<ReportModel> {
        Seq::empty()
            + field_reports(self.bal, "Bal"@, path)
            + field_reports(self.bal_tp, "BalTp"@, path)
            + optional_reports(self.sfkpg_plc, "SfkpgPlc"@, path)
            + optional_reports(self.dt, "Dt"@, path)
    }

    fn validate_into(
        &self,
        path: &Vec<PathSegment>,
        patterns: &IdentifierPatterns,
        out: &mut Vec<ValidationViolation>,
    ) {
        let ghost before = reports_model(out@);
        let ghost here = path_model(path@);
        let ghost mut expected = Seq::<ReportModel>::empty();
        proof {
            lemma_nothing_added(before);
        }
        validate_field(&self.bal, "Bal", path, patterns, out);
        proof {
            let added = field_reports(self.bal, "Bal"@, here);
            lemma_more_added(before, expected, added);
            expected = expected + added;
        }
        validate_field(&self.bal_tp, "BalTp", path, patterns, out);
        proof {
            let added = field_reports(self.bal_tp, "BalTp"@, here);
            lemma_more_added(before, expected, added);
            expected = expected + added;
        }
        validate_optional(&self.sfkpg_plc, "SfkpgPlc", path, patterns, out);
        proof {
            let added = optional_reports(self.sfkpg_plc, "SfkpgPlc"@, here);
            lemma_more_added(before, expected, added);
            expected = expected + added;
        }
        validate_optional(&self.dt, "Dt", path, patterns, out);
        proof {
            let added = optional_reports(self.dt, "Dt"@, here);
            lemma_more_added(before, expected, added);
            expected = expected + added;
        }
    }
}

#[derive(Debug, Default, Clone, PartialEq)]
pub struct PartyIdentification250 {
    /// Serialized as `NmAndAdr`.
    pub nm_and_adr: PersonName3,
    /// Serialized as `EmailAdr`.
    pub email_adr: Option<Max256Text>,
    /// Serialized as `Id`.
    pub id: Option<NaturalPersonIdentification1>,
    /// Serialized as `Ntlty`.
    pub ntlty: Option<CountryCode>,
    /// Serialized as `DtAndPlcOfBirth`.
    pub dt_and_plc_of_birth: Option<DateAndPlaceOfBirth2>,
    /// Serialized as `CpnyRegrShrhldrId`.
    pub cpny_regr_shrhldr_id: Option<Max35Text>,
}

impl Validate for PartyIdentification250 {
    open spec fn violations(&self, path: Seq<SegmentModel>) -> Seq<ReportModel> {
        Seq::empty()
            + field_reports(self.nm_and_adr, "NmAndAdr"@, path)
            + optional_reports(self.email_adr, "EmailAdr"@, path)
            + optional_reports(self.id, "Id"@, path)
            + optional_reports(self.ntlty, "Ntlty"@, path)
            + optional_reports(self.dt_and_plc_of_birth, "DtAndPlcOfBirth"@, path)
            + optional_reports(self.cpny_regr_shrhldr_id, "CpnyRegrShrhldrId"@, path)
    }

    fn validate_into(
        &self,
        path: &Vec<PathSegment>,
        patterns: &IdentifierPatterns,
        out: &mut Vec<ValidationViolation>,
    ) {
        let ghost before = reports_model(out@);
        let ghost here = path_model(path@);
        let ghost mut expected = Seq::<ReportModel>::empty();
        proof {
            lemma_nothing_added(before);
        }
        validate_field(&self.nm_and_adr, "NmAndAdr", path, patterns, out);
        proof {
            let added = field_reports(self.nm_and_adr, "NmAndAdr"@, here);
            lemma_more_added(before, expected, added);
            expected = expected + added;
        }
        validate_optional(&self.email_adr, "EmailAdr", path, patterns, out);
        proof {
            let added = optional_reports(self.email_adr, "EmailAdr"@, here);
            lemma_more_added(before, expected, added);
            expected = expected + added;
        }
        validate_optional(&self.id, "Id", path, patterns, out);
        proof {
            let added = optional_reports(self.id, "Id"@, here);
            lemma_more_added(before, expected, added);
            expected = expected + added;
        }
        validate_optional(&self.ntlty, "Ntlty", path, patterns, out);
        proof {
            let added = optional_reports(self.ntlty, "Ntlty"@, here);
            lemma_more_added(before, expected, added);
            expected = expected + added;
        }
        validate_optional(&self.dt_and_plc_of_birth, "DtAndPlcOfBirth", path, patterns, out);
        proof {
            let added = optional_reports(self.dt_and_plc_of_birth, "DtAndPlcOfBirth"@, here);
            lemma_more_added(before, expected, added);
            expected = expected + added;
        }
        validate_optional(&self.cpny_regr_shrhldr_id, "CpnyRegrShrhldrId", path, patterns, out);
        proof {
            let added = optional_reports(self.cpny_regr_shrhldr_id, "CpnyRegrShrhldrId"@, here);
            lemma_more_added(before, expected, added);
            expected = expected + added;
        }
    }
}

/// Text that matches `[A-Z0-9]{18,18}[0-9]{2,2}`.
#[derive(Debug, Default, Clone, PartialEq)]
pub struct LeiIdentifier {
    /// The text of the element.
    pub value: String,
}

impl Validate for LeiIdentifier {
    open spec fn violations(&self, path: Seq<SegmentModel>) -> Seq<ReportModel> {
        Seq::empty()
            + pattern_reports(self.value@, "[A-Z0-9]{18,18}[0-9]{2,2}"@, path)
    }

    fn validate_into(
        &self,
        path: &Vec<PathSegment>,
        patterns: &IdentifierPatterns,
        out: &mut Vec<ValidationViolation>,
    ) {
        let ghost before = reports_model(out@);
        let ghost here = path_model(path@);
        let ghost mut expected = Seq::<ReportModel>::empty();
        proof {
            lemma_nothing_added(before);
        }
        report_pattern(self.value.as_str(), patterns.lei_identifier(), path, out);
        proof {
            let added = pattern_reports(self.value@, "[A-Z0-9]{18,18}[0-9]{2,2}"@, here);
            lemma_more_added(before, expected, added);
            expected = expected + added;
        }
    }
}

#[derive(Debug, Default, Clone, PartialEq)]
pub enum MeetingType4Code {
    /// Serialized as `XMET`.
    Xmet,
    /// Serialized as `GMET`.
    Gmet,
    /// Serialized as `MIXD`.
    Mixd,
    /// Serialized as `SPCL`.
    Spcl,
    /// Serialized as `BMET`.
    Bmet,
    /// Serialized as `CMET`.
    Cmet,
    #[default]
    Unknown,
}

impl Validate for MeetingType4Code {
    open spec fn violations(&self, path: Seq<SegmentModel>) -> Seq<ReportModel> {
        Seq::empty()
    }

    fn validate_into(
        &self,
        path: &Vec<PathSegment>,
        patterns: &IdentifierPatterns,
        out: &mut Vec<ValidationViolation>,
    ) {
        proof {
            lemma_nothing_added(reports_model(out@));
        }
    }
}

#[derive(Debug, Default, Clone, PartialEq)]
pub struct SupplementaryDataEnvelope1<A> {
    /// Serialized in place, without an element of its own.
    pub value: A,
}

impl<A: Validate> Validate for SupplementaryDataEnvelope1<A> {
    open spec fn violations(&self, path: Seq<SegmentModel>) -> Seq<ReportModel> {
        Seq::empty()
            + self.value.violations(path)
    }

    fn validate_into(
        &self,
        path: &Vec<PathSegment>,
        patterns: &IdentifierPatterns,
        out: &mut Vec<ValidationViolation>,
    ) {
        let ghost before = reports_model(out@);
        let ghost here = path_model(path@);
        let ghost mut expected = Seq::<ReportModel>::empty();
        proof {
            lemma_nothing_added(before);
        }
        self.value.validate_into(path, patterns, out);
        proof {
            let added = self.value.violations(here);
            lemma_more_added(before, expected, added);
            expected = expected + added;
        }
    }
}

#[derive(Debug, Default, Clone, PartialEq)]
pub struct SecurityPosition14 {
    /// Serialized as `FinInstrmId`.
    pub fin_instrm_id: SecurityIdentification19,
    /// Serialized as `Pos`.
    pub pos: Vec<EligiblePosition11>,
}

impl Validate for SecurityPosition14 {
    open spec fn violations(&self, path: Seq<SegmentModel>) -> Seq<ReportModel> {
        Seq::empty()
            + field_reports(self.fin_instrm_id, "FinInstrmId"@, path)
            + list_reports(self.pos@, Some(0), Some(1000), "Pos"@, path)
    }

    fn validate_into(
        &self,
        path: &Vec<PathSegment>,
        patterns: &IdentifierPatterns,
        out: &mut Vec<ValidationViolation>,
    ) {
        let ghost before = reports_model(out@);
        let ghost here = path_model(path@);
        let ghost mut expected = Seq::<ReportModel>::empty();
        proof {
            lemma_nothing_added(before);
        }
        validate_field(&self.fin_instrm_id, "FinInstrmId", path, patterns, out);
        proof {
            let added = field_reports(self.fin_instrm_id, "FinInstrmId"@, here);
            lemma_more_added(before, expected, added);
            expected = expected + added;
        }
        validate_list(&self.pos, Some(0), Some(1000), "Pos", path, patterns, out);
        proof {
            let added = list_reports(self.pos@, Some(0), Some(1000), "Pos"@, here);
            lemma_more_added(before, expected, added);
            expected = expected + added;
        }
    }
}

#[derive(Debug, Default, Clone, PartialEq)]
pub struct PartyIdentification241 {
    /// Serialized as `Id`.
    pub id: PartyIdentification231Choice,
    /// Serialized as `AddtlIdInf`.
    pub addtl_id_inf: Option<PartyAdditionalIdentification2Choice>,
}

impl Validate for PartyIdentification241 {
    open spec fn violations(&self, path: Seq<SegmentModel>) -> Seq<ReportModel> {
        Seq::empty()
            + field_reports(self.id, "Id"@, path)
            + optional_reports(self.addtl_id_inf, "AddtlIdInf"@, path)
    }

    fn validate_into(
        &self,
        path: &Vec<PathSegment>,
        patterns: &IdentifierPatterns,
        out: &mut Vec<ValidationViolation>,
    ) {
        let ghost before = reports_model(out@);
        let ghost here = path_model(path@);
        let ghost mut expected = Seq::<ReportModel>::empty();
        proof {
            lemma_nothing_added(before);
        }
        validate_field(&self.id, "Id", path, patterns, out);
        proof {
            let added = field_reports(self.id, "Id"@, here);
            lemma_more_added(before, expected, added);
            expected = expected + added;
        }
        validate_optional(&self.addtl_id_inf, "AddtlIdInf", path, patterns, out);
        proof {
            let added = optional_reports(self.addtl_id_inf, "AddtlIdInf"@, here);
            lemma_more_added(before, expected, added);
            expected = expected + added;
        }
    }
}

#[derive(Debug, Default, Clone, PartialEq)]
pub struct PartyIdentification221 {
    /// Serialized as `NmAndAdr`.
    pub nm_and_adr: PersonName2,
    /// Serialized as `EmailAdr`.
    pub email_adr: Option<Max256Text>,
    /// Serialized as `Id`.
    pub id: PartyIdentification198Choice,
}

impl Validate for PartyIdentification221 {
    open spec fn violations(&self, path: Seq<SegmentModel>) -> Seq<ReportModel> {
        Seq::empty()
            + field_reports(self.nm_and_adr, "NmAndAdr"@, path)
            + optional_reports(self.email_adr, "EmailAdr"@, path)
            + field_reports(self.id, "Id"@, path)
    }

    fn validate_into(
        &self,
        path: &Vec<PathSegment>,
        patterns: &IdentifierPatterns,
        out: &mut Vec<ValidationViolation>,
    ) {
        let ghost before = reports_model(out@);
        let ghost here = path_model(path@);
        let ghost mut expected = Seq::<ReportModel>::empty();
        proof {
            lemma_nothing_added(before);
        }
        validate_field(&self.nm_and_adr, "NmAndAdr", path, patterns, out);
        proof {
            let added = field_reports(self.nm_and_adr, "NmAndAdr"@, here);
            lemma_more_added(before, expected, added);
            expected = expected + added;
        }
        validate_optional(&self.email_adr, "EmailAdr", path, patterns, out);
        proof {
            let added = optional_reports(self.email_adr, "EmailAdr"@, here);
            lemma_more_added(before, expected, added);
            expected = expected + added;
        }
        validate_field(&self.id, "Id", path, patterns, out);
        proof {
            let added = field_reports(self.id, "Id"@, here);
            lemma_more_added(before, expected, added);
            expected = expected + added;
        }
    }
}

/// Text of 1 to 16 characters.
#[derive(Debug, Default, Clone, PartialEq)]
pub struct Max16Text {
    /// The text of the element.
    pub value: String,
}

impl Validate for Max16Text {
    open spec fn violations(&self, path: Seq<SegmentModel>) -> Seq<ReportModel> {
        Seq::empty()
            + length_reports(self.value@, Some(1), Some(16), path)
    }

    fn validate_into(
        &self,
        path: &Vec<PathSegment>,
        patterns: &IdentifierPatterns,
        out: &mut Vec<ValidationViolation>,
    ) {
        let ghost before = reports_model(out@);
        let ghost here = path_model(path@);
        let ghost mut expected = Seq::<ReportModel>::empty();
        proof {
            lemma_nothing_added(before);
        }
        report_length(self.value.as_str(), Some(1), Some(16), path, out);
        proof {
            let added = length_reports(self.value@, Some(1), Some(16), here);
            lemma_more_added(before, expected, added);
            expected = expected + added;
        }
    }
}

#[derive(Debug, Default, Clone, PartialEq)]
pub struct Document<A> {
    /// Serialized as `MtgEntitlmntNtfctn`.
    pub mtg_entitlmnt_ntfctn: MeetingEntitlementNotificationV08<A>,
    /// Serialized as the attribute `xmlns`.
    pub xmlns: String,
}

impl<A: Validate> Validate for Document<A> {
    open spec fn violations(&self, path: Seq<SegmentModel>) -> Seq<ReportModel> {
        Seq::empty()
            + field_reports(self.mtg_entitlmnt_ntfctn, "MtgEntitlmntNtfctn"@, path)
    }

    fn validate_into(
        &self,
        path: &Vec<PathSegment>,
        patterns: &IdentifierPatterns,
        out: &mut Vec<ValidationViolation>,
    ) {
        let ghost before = reports_model(out@);
        let ghost here = path_model(path@);
        let ghost mut expected = Seq::<ReportModel>::empty();
        proof {
            lemma_nothing_added(before);
        }
        validate_field(&self.mtg_entitlmnt_ntfctn, "MtgEntitlmntNtfctn", path, patterns, out);
        proof {
            let added = field_reports(self.mtg_entitlmnt_ntfctn, "MtgEntitlmntNtfctn"@, here);
            lemma_more_added(before, expected, added);
            expected = expected + added;
        }
    }
}

/// The alternatives of a choice: exactly one of them is populated.
#[derive(Debug, Default, Clone, PartialEq)]
pub struct PartyIdentification232ChoiceEnum {
    /// Serialized as `LglPrsn`.
    pub lgl_prsn: Option<PartyIdentification221>,
    /// Serialized as `NtrlPrsn`.
    pub ntrl_prsn: Option<PartyIdentification238>,
}

impl Validate for PartyIdentification232ChoiceEnum {
    open spec fn violations(&self, path: Seq<SegmentModel>) -> Seq<ReportModel> {
        Seq::empty()
            + choice_reports(
                Seq::empty()
                    + name_if(self.lgl_prsn.is_some(), "LglPrsn"@)
                    + name_if(self.ntrl_prsn.is_some(), "NtrlPrsn"@),
                path,
            )
            + optional_reports(self.lgl_prsn, "LglPrsn"@, path)
            + optional_reports(self.ntrl_prsn, "NtrlPrsn"@, path)
    }

    fn validate_into(
        &self,
        path: &Vec<PathSegment>,
        patterns: &IdentifierPatterns,
        out: &mut Vec<ValidationViolation>,
    ) {
        let ghost before = reports_model(out@);
        let ghost here = path_model(path@);
        let ghost mut expected = Seq::<ReportModel>::empty();
        proof {
            lemma_nothing_added(before);
        }
        let mut present: Vec<String> = Vec::new();
        let ghost mut names = Seq::<Seq<char>>::empty();
        proof {
            assert(names_model(present@) =~= names);
        }
        note_present(self.lgl_prsn.is_some(), "LglPrsn", &mut present);
        proof {
            names = names + name_if(self.lgl_prsn.is_some(), "LglPrsn"@);
        }
        note_present(self.ntrl_prsn.is_some(), "NtrlPrsn", &mut present);
        proof {
            names = names + name_if(self.ntrl_prsn.is_some(), "NtrlPrsn"@);
        }
        report_choice(present, path, out);
        proof {
            let added = choice_reports(names, here);
            lemma_more_added(before, expected, added);
            expected = expected + added;
        }
        validate_optional(&self.lgl_prsn, "LglPrsn", path, patterns, out);
        proof {
            let added = optional_reports(self.lgl_prsn, "LglPrsn"@, here);
            lemma_more_added(before, expected, added);
            expected = expected + added;
        }
        validate_optional(&self.ntrl_prsn, "NtrlPrsn", path, patterns, out);
        proof {
            let added = optional_reports(self.ntrl_prsn, "NtrlPrsn"@, here);
            lemma_more_added(before, expected, added);
            expected = expected + added;
        }
    }
}

/// A choice, serialized as its populated alternative.
#[derive(Debug, Default, Clone, PartialEq)]
pub struct PartyIdentification232Choice {
    /// Serialized in place, without an element of its own.
    pub value: PartyIdentification232ChoiceEnum,
}

impl Validate for PartyIdentification232Choice {
    open spec fn violations(&self, path: Seq<SegmentModel>) -> Seq<ReportModel> {
        Seq::empty()
            + self.value.violations(path)
    }

    fn validate_into(
        &self,
        path: &Vec<PathSegment>,
        patterns: &IdentifierPatterns,
        out: &mut Vec<ValidationViolation>,
    ) {
        let ghost before = reports_model(out@);
        let ghost here = path_model(path@);
        let ghost mut expected = Seq::<ReportModel>::empty();
        proof {
            lemma_nothing_added(before);
        }
        self.value.validate_into(path, patterns, out);
        proof {
            let added = self.value.violations(here);
            lemma_more_added(before, expected, added);
            expected = expected + added;
        }
    }
}

/// Text of 1 to 256 characters.
#[derive(Debug, Default, Clone, PartialEq)]
pub struct Max256Text {
    /// The text of the element.
    pub value: String,
}

impl Validate for Max256Text {
    open spec fn violations(&self, path: Seq<SegmentModel>) -> Seq<ReportModel> {
        Seq::empty()
            + length_reports(self.value@, Some(1), Some(256), path)
    }

    fn validate_into(
        &self,
        path: &Vec<PathSegment>,
        patterns: &IdentifierPatterns,
        out: &mut Vec<ValidationViolation>,
    ) {
        let ghost before = reports_model(out@);
        let ghost here = path_model(path@);
        let ghost mut expected = Seq::<ReportModel>::empty();
        proof {
            lemma_nothing_added(before);
        }
        report_length(self.value.as_str(), Some(1), Some(256), path, out);
        proof {
            let added = length_reports(self.value@, Some(1), Some(256), here);
            lemma_more_added(before, expected, added);
            expected = expected + added;
        }
    }
}

#[derive(Debug, Default, Clone, PartialEq)]
pub struct EligiblePosition11 {
    /// Serialized as `AcctId`.
    pub acct_id: Max35Text,
    /// Serialized as `AcctOwnr`.
    pub acct_ownr: Option<PartyIdentification241>,
    /// Serialized as `HldgBal`.
    pub hldg_bal: Vec<HoldingBalance9>,
    /// Serialized as `RghtsHldr`.
    pub rghts_hldr: Vec<PartyIdentification249>,
}

impl Validate for EligiblePosition11 {
    open spec fn violations(&self, path: Seq<SegmentModel>) -> Seq<ReportModel> {
        Seq::empty()
            + field_reports(self.acct_id, "AcctId"@, path)
            + optional_reports(self.acct_ownr, "AcctOwnr"@, path)
            + list_reports(self.hldg_bal@, Some(0), Some(15), "HldgBal"@, path)
            + list_reports(self.rghts_hldr@, Some(0), Some(250), "RghtsHldr"@, path)
    }

    fn validate_into(
        &self,
        path: &Vec<PathSegment>,
        patterns: &IdentifierPatterns,
        out: &mut Vec<ValidationViolation>,
    ) {
        let ghost before = reports_model(out@);
        let ghost here = path_model(path@);
        let ghost mut expected = Seq::<ReportModel>::empty();
        proof {
            lemma_nothing_added(before);
        }
        validate_field(&self.acct_id, "AcctId", path, patterns, out);
        proof {
            let added = field_reports(self.acct_id, "AcctId"@, here);
            lemma_more_added(before, expected, added);
            expected = expected + added;
        }
        validate_optional(&self.acct_ownr, "AcctOwnr", path, patterns, out);
        proof {
            let added = optional_reports(self.acct_ownr, "AcctOwnr"@, here);
            lemma_more_added(before, expected, added);
            expected = expected + added;
        }
        validate_list(&self.hldg_bal, Some(0), Some(15), "HldgBal", path, patterns, out);
        proof {
            let added = list_reports(self.hldg_bal@, Some(0), Some(15), "HldgBal"@, here);
            lemma_more_added(before, expected, added);
            expected = expected + added;
        }
        validate_list(&self.rghts_hldr, Some(0), Some(250), "RghtsHldr", path, patterns, out);
        proof {
            let added = list_reports(self.rghts_hldr@, Some(0), Some(250), "RghtsHldr"@, here);
            lemma_more_added(before, expected, added);
            expected = expected + added;
        }
    }
}

#[derive(Debug, Default, Clone, PartialEq)]
pub enum NamePrefix2Code {
    /// Serialized as `DOCT`.
    Doct,
    /// Serialized as `MADM`.
    Madm,
    /// Serialized as `MISS`.
    Miss,
    /// Serialized as `MIST`.
    Mist,
    /// Serialized as `MIKS`.
    Miks,
    #[default]
    Unknown,
}

impl Validate for NamePrefix2Code {
    open spec fn violations(&self, path: Seq<SegmentModel>) -> Seq<ReportModel> {
        Seq::empty()
    }

    fn validate_into(
        &self,
        path: &Vec<PathSegment>,
        patterns: &IdentifierPatterns,
        out: &mut Vec<ValidationViolation>,
    ) {
        proof {
            lemma_nothing_added(reports_model(out@));
        }
    }
}

#[derive(Debug, Default, Clone, PartialEq)]
pub struct MeetingReference10 {
    /// Serialized as `MtgId`.
    pub mtg_id: Max35Text,
    /// Serialized as `IssrMtgId`.
    pub issr_mtg_id: Option<Max35Text>,
    /// Serialized as `MtgDtAndTm`.
    pub mtg_dt_and_tm: IsoDateTime,
    /// Serialized as `Tp`.
    pub tp: MeetingType4Code,
    /// Serialized as `Clssfctn`.
    pub clssfctn: Option<MeetingTypeClassification2Choice>,
    /// Serialized as `Lctn`.
    pub lctn: Vec<PostalAddress1>,
    /// Serialized as `Issr`.
    pub issr: Option<PartyIdentification129Choice>,
}

impl Validate for MeetingReference10 {
    open spec fn violations(&self, path: Seq<SegmentModel>) -> Seq<ReportModel> {
        Seq::empty()
            + field_reports(self.mtg_id, "MtgId"@, path)
            + optional_reports(self.issr_mtg_id, "IssrMtgId"@, path)
            + field_reports(self.mtg_dt_and_tm, "MtgDtAndTm"@, path)
            + field_reports(self.tp, "Tp"@, path)
            + optional_reports(self.clssfctn, "Clssfctn"@, path)
            + list_reports(self.lctn@, Some(0), Some(5), "Lctn"@, path)
            + optional_reports(self.issr, "Issr"@, path)
    }

    fn validate_into(
        &self,
        path: &Vec<PathSegment>,
        patterns: &IdentifierPatterns,
        out: &mut Vec<ValidationViolation>,
    ) {
        let ghost before = reports_model(out@);
        let ghost here = path_model(path@);
        let ghost mut expected = Seq::<ReportModel>::empty();
        proof {
            lemma_nothing_added(before);
        }
        validate_field(&self.mtg_id, "MtgId", path, patterns, out);
        proof {
            let added = field_reports(self.mtg_id, "MtgId"@, here);
            lemma_more_added(before, expected, added);
            expected = expected + added;
        }
        validate_optional(&self.issr_mtg_id, "IssrMtgId", path, patterns, out);
        proof {
            let added = optional_reports(self.issr_mtg_id, "IssrMtgId"@, here);
            lemma_more_added(before, expected, added);
            expected = expected + added;
        }
        validate_field(&self.mtg_dt_and_tm, "MtgDtAndTm", path, patterns, out);
        proof {
            let added = field_reports(self.mtg_dt_and_tm, "MtgDtAndTm"@, here);
            lemma_more_added(before, expected, added);
            expected = expected + added;
        }
        validate_field(&self.tp, "Tp", path, patterns, out);
        proof {
            let added = field_reports(self.tp, "Tp"@, here);
            lemma_more_added(before, expected, added);
            expected = expected + added;
        }
        validate_optional(&self.clssfctn, "Clssfctn", path, patterns, out);
        proof {
            let added = optional_reports(self.clssfctn, "Clssfctn"@, here);
            lemma_more_added(before, expected, added);
            expected = expected + added;
        }
        validate_list(&self.lctn, Some(0), Some(5), "Lctn", path, patterns, out);
        proof {
            let added = list_reports(self.lctn@, Some(0), Some(5), "Lctn"@, here);
            lemma_more_added(before, expected, added);
            expected = expected + added;
        }
        validate_optional(&self.issr, "Issr", path, patterns, out);
        proof {
            let added = optional_reports(self.issr, "Issr"@, here);
            lemma_more_added(before, expected, added);
            expected = expected + added;
        }
    }
}

/// A number.
#[derive(Debug, Default, Clone, PartialEq)]
pub struct DecimalNumber {
    /// The text of the element.
    pub value: Decimal,
}

impl Validate for DecimalNumber {
    open spec fn violations(&self, path: Seq<SegmentModel>) -> Seq<ReportModel> {
        Seq::empty()
    }

    fn validate_into(
        &self,
        path: &Vec<PathSegment>,
        patterns: &IdentifierPatterns,
        out: &mut Vec<ValidationViolation>,
    ) {
        proof {
            lemma_nothing_added(reports_model(out@));
        }
    }
}

/// The alternatives of a choice: exactly one of them is populated.
#[derive(Debug, Default, Clone, PartialEq)]
pub struct MeetingTypeClassification2ChoiceEnum {
    /// Serialized as `Cd`.
    pub cd: Option<MeetingTypeClassification2Code>,
    /// Serialized as `Prtry`.
    pub prtry: Option<GenericIdentification13>,
}

impl Validate for MeetingTypeClassification2ChoiceEnum {
    open spec fn violations(&self, path: Seq<SegmentModel>) -> Seq<ReportModel> {
        Seq::empty()
            + choice_reports(
                Seq::empty()
                    + name_if(self.cd.is_some(), "Cd"@)
                    + name_if(self.prtry.is_some(), "Prtry"@),
                path,
            )
            + optional_reports(self.cd, "Cd"@, path)
            + optional_reports(self.prtry, "Prtry"@, path)
    }

    fn validate_into(
        &self,
        path: &Vec<PathSegment>,
        patterns: &IdentifierPatterns,
        out: &mut Vec<ValidationViolation>,
    ) {
        let ghost before = reports_model(out@);
        let ghost here = path_model(path@);
        let ghost mut expected = Seq::<ReportModel>::empty();
        proof {
            lemma_nothing_added(before);
        }
        let mut present: Vec<String> = Vec::new();
        let ghost mut names = Seq::<Seq<char>>::empty();
        proof {
            assert(names_model(present@) =~= names);
        }
        note_present(self.cd.is_some(), "Cd", &mut present);
        proof {
            names = names + name_if(self.cd.is_some(), "Cd"@);
        }
        note_present(self.prtry.is_some(), "Prtry", &mut present);
        proof {
            names = names + name_if(self.prtry.is_some(), "Prtry"@);
        }
        report_choice(present, path, out);
        proof {
            let added = choice_reports(names, here);
            lemma_more_added(before, expected, added);
            expected = expected + added;
        }
        validate_optional(&self.cd, "Cd", path, patterns, out);
        proof {
            let added = optional_reports(self.cd, "Cd"@, here);
            lemma_more_added(before, expected, added);
            expected = expected + added;
        }
        validate_optional(&self.prtry, "Prtry", path, patterns, out);
        proof {
            let added = optional_reports(self.prtry, "Prtry"@, here);
            lemma_more_added(before, expected, added);
            expected = expected + added;
        }
    }
}

/// A choice, serialized as its populated alternative.
#[derive(Debug, Default, Clone, PartialEq)]
pub struct MeetingTypeClassification2Choice {
    /// Serialized in place, without an element of its own.
    pub value: MeetingTypeClassification2ChoiceEnum,
}

impl Validate for MeetingTypeClassification2Choice {
    open spec fn violations(&self, path: Seq<SegmentModel>) -> Seq<ReportModel> {
        Seq::empty()
            + self.value.violations(path)
    }

    fn validate_into(
        &self,
        path: &Vec<PathSegment>,
        patterns: &IdentifierPatterns,
        out: &mut Vec<ValidationViolation>,
    ) {
        let ghost before = reports_model(out@);
        let ghost here = path_model(path@);
        let ghost mut expected = Seq::<ReportModel>::empty();
        proof {
            lemma_nothing_added(before);
        }
        self.value.validate_into(path, patterns, out);
        proof {
            let added = self.value.violations(here);
            lemma_more_added(before, expected, added);
            expected = expected + added;
        }
    }
}

#[derive(Debug, Default, Clone, PartialEq)]
pub struct DateAndPlaceOfBirth2 {
    /// Serialized as `BirthDt`.
    pub birth_dt: IsoDate,
    /// Serialized as `PrvcOfBirth`.
    pub prvc_of_birth: Option<Max35Text>,
    /// Serialized as `CityOfBirth`.
    pub city_of_birth: Option<Max35Text>,
    /// Serialized as `CtryOfBirth`.
    pub ctry_of_birth: Option<CountryCode>,
}

impl Validate for DateAndPlaceOfBirth2 {
    open spec fn violations(&self, path: Seq<SegmentModel>) -> Seq<ReportModel> {
        Seq::empty()
            + field_reports(self.birth_dt, "BirthDt"@, path)
            + optional_reports(self.prvc_of_birth, "PrvcOfBirth"@, path)
            + optional_reports(self.city_of_birth, "CityOfBirth"@, path)
            + optional_reports(self.ctry_of_birth, "CtryOfBirth"@, path)
    }

    fn validate_into(
        &self,
        path: &Vec<PathSegment>,
        patterns: &IdentifierPatterns,
        out: &mut Vec<ValidationViolation>,
    ) {
        let ghost before = reports_model(out@);
        let ghost here = path_model(path@);
        let ghost mut expected = Seq::<ReportModel>::empty();
        proof {
            lemma_nothing_added(before);
        }
        validate_field(&self.birth_dt, "BirthDt", path, patterns, out);
        proof {
            let added = field_reports(self.birth_dt, "BirthDt"@, here);
            lemma_more_added(before, expected, added);
            expected = expected + added;
        }
        validate_optional(&self.prvc_of_birth, "PrvcOfBirth", path, patterns, out);
        proof {
            let added = optional_reports(self.prvc_of_birth, "PrvcOfBirth"@, here);
            lemma_more_added(before, expected, added);
            expected = expected + added;
        }
        validate_optional(&self.city_of_birth, "CityOfBirth", path, patterns, out);
        proof {
            let added = optional_reports(self.city_of_birth, "CityOfBirth"@, here);
            lemma_more_added(before, expected, added);
            expected = expected + added;
        }
        validate_optional(&self.ctry_of_birth, "CtryOfBirth", path, patterns, out);
        proof {
            let added = optional_reports(self.ctry_of_birth, "CtryOfBirth"@, here);
            lemma_more_added(before, expected, added);
            expected = expected + added;
        }
    }
}

#[derive(Debug, Default, Clone, PartialEq)]
pub enum SafekeepingPlace1Code {
    /// Serialized as `CUST`.
    Cust,
    /// Serialized as `ICSD`.
    Icsd,
    /// Serialized as `NCSD`.
    Ncsd,
    /// Serialized as `SHHE`.
    Shhe,
    #[default]
    Unknown,
}

impl Validate for SafekeepingPlace1Code {
    open spec fn violations(&self, path: Seq<SegmentModel>) -> Seq<ReportModel> {
        Seq::empty()
    }

    fn validate_into(
        &self,
        path: &Vec<PathSegment>,
        patterns: &IdentifierPatterns,
        out: &mut Vec<ValidationViolation>,
    ) {
        proof {
            lemma_nothing_added(reports_model(out@));
        }
    }
}

/// The alternatives of a choice: exactly one of them is populated.
#[derive(Debug, Default, Clone, PartialEq)]
pub struct IdentificationType45ChoiceEnum {
    /// Serialized as `Cd`.
    pub cd: Option<TypeOfIdentification4Code>,
    /// Serialized as `Prtry`.
    pub prtry: Option<GenericIdentification30>,
}

impl Validate for IdentificationType45ChoiceEnum {
    open spec fn violations(&self, path: Seq<SegmentModel>) -> Seq<ReportModel> {
        Seq::empty()
            + choice_reports(
                Seq::empty()
                    + name_if(self.cd.is_some(), "Cd"@)
                    + name_if(self.prtry.is_some(), "Prtry"@),
                path,
            )
            + optional_reports(self.cd, "Cd"@, path)
            + optional_reports(self.prtry, "Prtry"@, path)
    }

    fn validate_into(
        &self,
        path: &Vec<PathSegment>,
        patterns: &IdentifierPatterns,
        out: &mut Vec<ValidationViolation>,
    ) {
        let ghost before = reports_model(out@);
        let ghost here = path_model(path@);
        let ghost mut expected = Seq::<ReportModel>::empty();
        proof {
            lemma_nothing_added(before);
        }
        let mut present: Vec<String> = Vec::new();
        let ghost mut names = Seq::<Seq<char>>::empty();
        proof {
            assert(names_model(present@) =~= names);
        }
        note_present(self.cd.is_some(), "Cd", &mut present);
        proof {
            names = names + name_if(self.cd.is_some(), "Cd"@);
        }
        note_present(self.prtry.is_some(), "Prtry", &mut present);
        proof {
            names = names + name_if(self.prtry.is_some(), "Prtry"@);
        }
        report_choice(present, path, out);
        proof {
            let added = choice_reports(names, here);
            lemma_more_added(before, expected, added);
            expected = expected + added;
        }
        validate_optional(&self.cd, "Cd", path, patterns, out);
        proof {
            let added = optional_reports(self.cd, "Cd"@, here);
            lemma_more_added(before, expected, added);
            expected = expected + added;
        }
        validate_optional(&self.prtry, "Prtry", path, patterns, out);
        proof {
            let added = optional_reports(self.prtry, "Prtry"@, here);
            lemma_more_added(before, expected, added);
            expected = expected + added;
        }
    }
}

/// A choice, serialized as its populated alternative.
#[derive(Debug, Default, Clone, PartialEq)]
pub struct IdentificationType45Choice {
    /// Serialized in place, without an element of its own.
    pub value: IdentificationType45ChoiceEnum,
}

impl Validate for IdentificationType45Choice {
    open spec fn violations(&self, path: Seq<SegmentModel>) -> Seq<ReportModel> {
        Seq::empty()
            + self.value.violations(path)
    }

    fn validate_into(
        &self,
        path: &Vec<PathSegment>,
        patterns: &IdentifierPatterns,
        out: &mut Vec<ValidationViolation>,
    ) {
        let ghost before = reports_model(out@);
        let ghost here = path_model(path@);
        let ghost mut expected = Seq::<ReportModel>::empty();
        proof {
            lemma_nothing_added(before);
        }
        self.value.validate_into(path, patterns, out);
        proof {
            let added = self.value.violations(here);
            lemma_more_added(before, expected, added);
            expected = expected + added;
        }
    }
}

/// An instant.
#[derive(Debug, Default, Clone, PartialEq)]
pub struct IsoDateTime {
    /// The text of the element. An instant in ISO 8601 form.
    pub value: String,
}

impl Validate for IsoDateTime {
    open spec fn violations(&self, path: Seq<SegmentModel>) -> Seq<ReportModel> {
        Seq::empty()
    }

    fn validate_into(
        &self,
        path: &Vec<PathSegment>,
        patterns: &IdentifierPatterns,
        out: &mut Vec<ValidationViolation>,
    ) {
        proof {
            lemma_nothing_added(reports_model(out@));
        }
    }
}

#[derive(Debug, Default, Clone, PartialEq)]
pub struct SafekeepingPlaceTypeAndIdentification1 {
    /// Serialized as `SfkpgPlcTp`.
    pub sfkpg_plc_tp: SafekeepingPlace1Code,
    /// Serialized as `Id`.
    pub id: AnyBicDec2014Identifier,
}

impl Validate for SafekeepingPlaceTypeAndIdentification1 {
    open spec fn violations(&self, path: Seq<SegmentModel>) -> Seq<ReportModel> {
        Seq::empty()
            + field_reports(self.sfkpg_plc_tp, "SfkpgPlcTp"@, path)
            + field_reports(self.id, "Id"@, path)
    }

    fn validate_into(
        &self,
        path: &Vec<PathSegment>,
        patterns: &IdentifierPatterns,
        out: &mut Vec<ValidationViolation>,
    ) {
        let ghost before = reports_model(out@);
        let ghost here = path_model(path@);
        let ghost mut expected = Seq::<ReportModel>::empty();
        proof {
            lemma_nothing_added(before);
        }
        validate_field(&self.sfkpg_plc_tp, "SfkpgPlcTp", path, patterns, out);
        proof {
            let added = field_reports(self.sfkpg_plc_tp, "SfkpgPlcTp"@, here);
            lemma_more_added(before, expected, added);
            expected = expected + added;
        }
        validate_field(&self.id, "Id", path, patterns, out);
        proof {
            let added = field_reports(self.id, "Id"@, here);
            lemma_more_added(before, expected, added);
            expected = expected + added;
        }
    }
}

#[derive(Debug, Default, Clone, PartialEq)]
pub struct PersonName2 {
    /// Serialized as `Nm`.
    pub nm: Max350Text,
    /// Serialized as `Adr`.
    pub adr: Option<PostalAddress26>,
}

impl Validate for PersonName2 {
    open spec fn violations(&self, path: Seq<SegmentModel>) -> Seq<ReportModel> {
        Seq::empty()
            + field_reports(self.nm, "Nm"@, path)
            + optional_reports(self.adr, "Adr"@, path)
    }

    fn validate_into(
        &self,
        path: &Vec<PathSegment>,
        patterns: &IdentifierPatterns,
        out: &mut Vec<ValidationViolation>,
    ) {
        let ghost before = reports_model(out@);
        let ghost here = path_model(path@);
        let ghost mut expected = Seq::<ReportModel>::empty();
        proof {
            lemma_nothing_added(before);
        }
        validate_field(&self.nm, "Nm", path, patterns, out);
        proof {
            let added = field_reports(self.nm, "Nm"@, here);
            lemma_more_added(before, expected, added);
            expected = expected + added;
        }
        validate_optional(&self.adr, "Adr", path, patterns, out);
        proof {
            let added = optional_reports(self.adr, "Adr"@, here);
            lemma_more_added(before, expected, added);
            expected = expected + added;
        }
    }
}

} // verus!
