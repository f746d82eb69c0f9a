//! The documents of the fraud reporting and disposition message set, by
//! message identifier.

use vstd::prelude::*;
use vstd::string::StringExecFns;

verus! {

/// A document of the message set, named by its message definition.
#[allow(non_camel_case_types)]
#[derive(Debug, Default, Clone, Copy, PartialEq, Eq)]
pub enum Document {
    /// Fraud reporting initiation.
    cafr_001_001_02,
    /// Fraud reporting response.
    cafr_002_001_02,
    /// Fraud disposition initiation.
    cafr_003_001_02,
    /// Fraud disposition response.
    cafr_004_001_02,
    #[default]
    Unknown,
}

/// The document that a message identifier names, where it names one.
pub open spec fn document_named(identifier: Seq<char>) -> Option<Document> {
    if identifier == "cafr.001.001.02"@ {
        Some(Document::cafr_001_001_02)
    } else if identifier == "cafr.002.001.02"@ {
        Some(Document::cafr_002_001_02)
    } else if identifier == "cafr.003.001.02"@ {
        Some(Document::cafr_003_001_02)
    } else if identifier == "cafr.004.001.02"@ {
        Some(Document::cafr_004_001_02)
    } else {
        None
    }
}

impl Document {
    /// The document named by `identifier`; an identifier that names none is
    /// handed back as the error.
    pub fn try_from(identifier: &str) -> (res: Result<Document, String>)
        ensures
            match res {
                Ok(document) => document_named(identifier@) == Some(document),
                Err(unknown) => document_named(identifier@).is_none() && unknown@ == identifier@,
            },
    {
        let given = String::from_str(identifier);
        if given == String::from_str("cafr.001.001.02") {
            Ok(Document::cafr_001_001_02)
        } else if given == String::from_str("cafr.002.001.02") {
            Ok(Document::cafr_002_001_02)
        } else if given == String::from_str("cafr.003.001.02") {
            Ok(Document::cafr_003_001_02)
        } else if given == String::from_str("cafr.004.001.02") {
            Ok(Document::cafr_004_001_02)
        } else {
            Err(given)
        }
    }
}

} // verus!
