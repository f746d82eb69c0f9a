//! Status extension request (`tsmt.035.001.03`).

use vstd::prelude::*;
use vstd::string::StringExecFns;
use crate::identifiers::IdentifierPatterns;
use crate::validate::Validate;
use crate::validate::field_reports;
use crate::validate::lemma_more_added;
use crate::validate::lemma_nothing_added;
use crate::validate::length_reports;
use crate::validate::optional_reports;
use crate::validate::report_length;
use crate::validate::validate_field;
use crate::validate::validate_optional;
use crate::violation::PathSegment;
use crate::violation::ReportModel;
use crate::violation::SegmentModel;
use crate::violation::ValidationViolation;
use crate::violation::path_model;
use crate::violation::reports_model;

verus! {

/// The namespace of the schema.
pub fn namespace() -> (name: String)
    ensures
        name@ == "urn:iso:std:iso:20022:tech:xsd:tsmt.035.001.03"@,
{
    String::from_str("urn:iso:std:iso:20022:tech:xsd:tsmt.035.001.03")
}

#[derive(Debug, Default, Clone, PartialEq)]
pub struct StatusExtensionRequestV03 {
    /// Serialized as `ReqId`.
    pub req_id: MessageIdentification1,
    /// Serialized as `TxId`.
    pub tx_id: SimpleIdentificationInformation,
    /// Serialized as `SubmitrTxRef`.
    pub submitr_tx_ref: Option<SimpleIdentificationInformation>,
    /// Serialized as `StsToBeXtnded`.
    pub sts_to_be_xtnded: TransactionStatus5,
}

impl Validate for StatusExtensionRequestV03 {
    open spec fn violations(&self, path: Seq<SegmentModel>) -> Seq<ReportModel> {
        Seq::empty()
            + field_reports(self.req_id, "ReqId"@, path)
            + field_reports(self.tx_id, "TxId"@, path)
            + optional_reports(self.submitr_tx_ref, "SubmitrTxRef"@, path)
            + field_reports(self.sts_to_be_xtnded, "StsToBeXtnded"@, path)
    }

    fn validate_into(
        &self,
        path: &Vec<PathSegment>,
        patterns: &IdentifierPatterns,
        out: &mut Vec<ValidationViolation>,
    ) {
        let ghost before = reports_model(out@);
        let ghost here = path_model(path@);
        let ghost mut expected = Seq::<ReportModel>::empty();
        proof {
            lemma_nothing_added(before);
        }
        validate_field(&self.req_id, "ReqId", path, patterns, out);
        proof {
            let added = field_reports(self.req_id, "ReqId"@, here);
            lemma_more_added(before, expected, added);
            expected = expected + added;
        }
        validate_field(&self.tx_id, "TxId", path, patterns, out);
        proof {
            let added = field_reports(self.tx_id, "TxId"@, here);
            lemma_more_added(before, expected, added);
            expected = expected + added;
        }
        validate_optional(&self.submitr_tx_ref, "SubmitrTxRef", path, patterns, out);
        proof {
            let added = optional_reports(self.submitr_tx_ref, "SubmitrTxRef"@, here);
            lemma_more_added(before, expected, added);
            expected = expected + added;
        }
        validate_field(&self.sts_to_be_xtnded, "StsToBeXtnded", path, patterns, out);
        proof {
            let added = field_reports(self.sts_to_be_xtnded, "StsToBeXtnded"@, here);
            lemma_more_added(before, expected, added);
            expected = expected + added;
        }
    }
}

#[derive(Debug, Default, Clone, PartialEq)]
pub struct MessageIdentification1 {
    /// Serialized as `Id`.
    pub id: Max35Text,
    /// Serialized as `CreDtTm`.
    pub cre_dt_tm: IsoDateTime,
}

impl Validate for MessageIdentification1 {
    open spec fn violations(&self, path: Seq<SegmentModel>) -> Seq<ReportModel> {
        Seq::empty()
            + field_reports(self.id, "Id"@, path)
            + field_reports(self.cre_dt_tm, "CreDtTm"@, path)
    }

    fn validate_into(
        &self,
        path: &Vec<PathSegment>,
        patterns: &IdentifierPatterns,
        out: &mut Vec<ValidationViolation>,
    ) {
        let ghost before = reports_model(out@);
        let ghost here = path_model(path@);
        let ghost mut expected = Seq::<ReportModel>::empty();
        proof {
            lemma_nothing_added(before);
        }
        validate_field(&self.id, "Id", path, patterns, out);
        proof {
            let added = field_reports(self.id, "Id"@, here);
            lemma_more_added(before, expected, added);
            expected = expected + added;
        }
        validate_field(&self.cre_dt_tm, "CreDtTm", path, patterns, out);
        proof {
            let added = field_reports(self.cre_dt_tm, "CreDtTm"@, here);
            lemma_more_added(before, expected, added);
            expected = expected + added;
        }
    }
}

#[derive(Debug, Default, Clone, PartialEq)]
pub struct TransactionStatus5 {
    /// Serialized as `Sts`.
    pub sts: BaselineStatus3Code,
    /// Serialized as `ChngDtTm`.
    pub chng_dt_tm: IsoDateTime,
    /// Serialized as `Desc`.
    pub desc: Option<Max140Text>,
}

impl Validate for TransactionStatus5 {
    open spec fn violations(&self, path: Seq<SegmentModel>) -> Seq<ReportModel> {
        Seq::empty()
            + field_reports(self.sts, "Sts"@, path)
            + field_reports(self.chng_dt_tm, "ChngDtTm"@, path)
            + optional_reports(self.desc, "Desc"@, path)
    }

    fn validate_into(
        &self,
        path: &Vec<PathSegment>,
        patterns: &IdentifierPatterns,
        out: &mut Vec<ValidationViolation>,
    ) {
        let ghost before = reports_model(out@);
        let ghost here = path_model(path@);
        let ghost mut expected = Seq::<ReportModel>::empty();
        proof {
            lemma_nothing_added(before);
        }
        validate_field(&self.sts, "Sts", path, patterns, out);
        proof {
            let added = field_reports(self.sts, "Sts"@, here);
            lemma_more_added(before, expected, added);
            expected = expected + added;
        }
        validate_field(&self.chng_dt_tm, "ChngDtTm", path, patterns, out);
        proof {
            let added = field_reports(self.chng_dt_tm, "ChngDtTm"@, here);
            lemma_more_added(before, expected, added);
            expected = expected + added;
        }
        validate_optional(&self.desc, "Desc", path, patterns, out);
        proof {
            let added = optional_reports(self.desc, "Desc"@, here);
            lemma_more_added(before, expected, added);
            expected = expected + added;
        }
    }
}

#[derive(Debug, Default, Clone, PartialEq)]
pub struct Document {
    /// Serialized as `StsXtnsnReq`.
    pub sts_xtnsn_req: StatusExtensionRequestV03,
    /// Serialized as the attribute `xmlns`.
    pub xmlns: String,
}

impl Validate for Document {
    open spec fn violations(&self, path: Seq<SegmentModel>) -> Seq<ReportModel> {
        Seq::empty()
            + field_reports(self.sts_xtnsn_req, "StsXtnsnReq"@, path)
    }

    fn validate_into(
        &self,
        path: &Vec<PathSegment>,
        patterns: &IdentifierPatterns,
        out: &mut Vec<ValidationViolation>,
    ) {
        let ghost before = reports_model(out@);
        let ghost here = path_model(path@);
        let ghost mut expected = Seq::<ReportModel>::empty();
        proof {
            lemma_nothing_added(before);
        }
        validate_field(&self.sts_xtnsn_req, "StsXtnsnReq", path, patterns, out);
        proof {
            let added = field_reports(self.sts_xtnsn_req, "StsXtnsnReq"@, here);
            lemma_more_added(before, expected, added);
            expected = expected + added;
        }
    }
}

#[derive(Debug, Default, Clone, PartialEq)]
pub enum BaselineStatus3Code {
    /// Serialized as `PROP`.
    Prop,
    /// Serialized as `CLSD`.
    Clsd,
    /// Serialized as `PMTC`.
    Pmtc,
    /// Serialized as `ESTD`.
    Estd,
    /// Serialized as `ACTV`.
    Actv,
    /// Serialized as `COMP`.
    Comp,
    /// Serialized as `AMRQ`.
    Amrq,
    /// Serialized as `RARQ`.
    Rarq,
    /// Serialized as `CLRQ`.
    Clrq,
    /// Serialized as `SCRQ`.
    Scrq,
    /// Serialized as `SERQ`.
    Serq,
    /// Serialized as `DARQ`.
    Darq,
    #[default]
    Unknown,
}

impl Validate for BaselineStatus3Code {
    open spec fn violations(&self, path: Seq<SegmentModel>) -> Seq<ReportModel> {
        Seq::empty()
    }

    fn validate_into(
        &self,
        path: &Vec<PathSegment>,
        patterns: &IdentifierPatterns,
        out: &mut Vec<ValidationViolation>,
    ) {
        proof {
            lemma_nothing_added(reports_model(out@));
        }
    }
}

#[derive(Debug, Default, Clone, PartialEq)]
pub struct SimpleIdentificationInformation {
    /// Serialized as `Id`.
    pub id: Max35Text,
}

impl Validate for SimpleIdentificationInformation {
    open spec fn violations(&self, path: Seq<SegmentModel>) -> Seq<ReportModel> {
        Seq::empty()
            + field_reports(self.id, "Id"@, path)
    }

    fn validate_into(
        &self,
        path: &Vec<PathSegment>,
        patterns: &IdentifierPatterns,
        out: &mut Vec<ValidationViolation>,
    ) {
        let ghost before = reports_model(out@);
        let ghost here = path_model(path@);
        let ghost mut expected = Seq::<ReportModel>::empty();
        proof {
            lemma_nothing_added(before);
        }
        validate_field(&self.id, "Id", path, patterns, out);
        proof {
            let added = field_reports(self.id, "Id"@, here);
            lemma_more_added(before, expected, added);
            expected = expected + added;
        }
    }
}

/// Text of 1 to 140 characters.
#[derive(Debug, Default, Clone, PartialEq)]
pub struct Max140Text {
    /// The text of the element.
    pub value: String,
}

impl Validate for Max140Text {
    open spec fn violations(&self, path: Seq<SegmentModel>) -> Seq<ReportModel> {
        Seq::empty()
            + length_reports(self.value@, Some(1), Some(140), path)
    }

    fn validate_into(
        &self,
        path: &Vec<PathSegment>,
        patterns: &IdentifierPatterns,
        out: &mut Vec<ValidationViolation>,
    ) {
        let ghost before = reports_model(out@);
        let ghost here = path_model(path@);
        let ghost mut expected = Seq::<ReportModel>::empty();
        proof {
            lemma_nothing_added(before);
        }
        report_length(self.value.as_str(), Some(1), Some(140), path, out);
        proof {
            let added = length_reports(self.value@, Some(1), Some(140), here);
            lemma_more_added(before, expected, added);
            expected = expected + added;
        }
    }
}

/// An instant.
#[derive(Debug, Default, Clone, PartialEq)]
pub struct IsoDateTime {
    /// The text of the element. An instant in ISO 8601 form.
    pub value: String,
}

impl Validate for IsoDateTime {
    open spec fn violations(&self, path: Seq<SegmentModel>) -> Seq<ReportModel> {
        Seq::empty()
    }

    fn validate_into(
        &self,
        path: &Vec<PathSegment>,
        patterns: &IdentifierPatterns,
        out: &mut Vec<ValidationViolation>,
    ) {
        proof {
            lemma_nothing_added(reports_model(out@));
        }
    }
}

/// Text of 1 to 35 characters.
#[derive(Debug, Default, Clone, PartialEq)]
pub struct Max35Text {
    /// The text of the element.
    pub value: String,
}

impl Validate for Max35Text {
    open spec fn violations(&self, path: Seq<SegmentModel>) -> Seq<ReportModel> {
        Seq::empty()
            + length_reports(self.value@, Some(1), Some(35), path)
    }

    fn validate_into(
        &self,
        path: &Vec<PathSegment>,
        patterns: &IdentifierPatterns,
        out: &mut Vec<ValidationViolation>,
    ) {
        let ghost before = reports_model(out@);
        let ghost here = path_model(path@);
        let ghost mut expected = Seq::<ReportModel>::empty();
        proof {
            lemma_nothing_added(before);
        }
        report_length(self.value.as_str(), Some(1), Some(35), path, out);
        proof {
            let added = length_reports(self.value@, Some(1), Some(35), here);
            lemma_more_added(before, expected, added);
            expected = expected + added;
        }
    }
}

} // verus!
