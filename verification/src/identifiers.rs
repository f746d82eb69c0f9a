//! The patterns of the identifier and code formats that the messages use.

use vstd::prelude::*;
use crate::pattern::CompiledPattern;
use crate::pattern::PatternCompileError;
use crate::pattern::PatternRegistry;
use crate::pattern::compiles;

verus! {

/// The pattern of every identifier and code format, in alphabetical order
/// of the formats' names.
pub open spec fn declared_patterns() -> Seq<Seq<char>> {
    seq![
        "[A-Z]{3,3}"@,
        "[A-Z]{3,3}"@,
        "[A-Z0-9]{4,4}[A-Z]{2,2}[A-Z0-9]{2,2}([A-Z0-9]{3,3}){0,1}"@,
        "[A-Z0-9]{4,4}[A-Z]{2,2}[A-Z0-9]{2,2}([A-Z0-9]{3,3}){0,1}"@,
        "[A-Z]{2,2}"@,
        "[BEOVW]{1,1}[0-9]{2,2}|DUM"@,
        "([0-9A-F][0-9A-F]){1}"@,
        "[0-9]{2}"@,
        "[a-zA-Z0-9]{4}"@,
        "[a-zA-Z0-9\\s]{6}"@,
        "([0-9A-F][0-9A-F]){1,3}"@,
        "[A-Z]{2,2}[0-9]{2,2}[a-zA-Z0-9]{1,30}"@,
        "[A-Z]{2,2}[A-Z0-9]{9,9}[0-9]{1,1}"@,
        "[0-9]{4,4}"@,
        "[0-9]{3,3}"@,
        "[0-9]{3,3}"@,
        "[0-9A-Z]{2,2}"@,
        "[0-9A-Z]{2,2}"@,
        "[0-9A-Z]{2,2}"@,
        "[0-9A-Z]{2,2}"@,
        "[A-Z]{2,3}"@,
        "[a-z]{2,3}"@,
        "^-?\\d{4}-(0[1-9]|1[0-2])([+-]\\d{2}:\\d{2}|Z)?$"@,
        "[A-Z0-9]{18,18}[0-9]{2,2}"@,
        "[A-Za-z0-9+/]{4}*(?:[A-Za-z0-9+/]{2}==|[A-Za-z0-9+/]{3}=)?"@,
        "([0-9A-F][0-9A-F]){1,10000}  "@,
        "[0-9]{1,11}"@,
        "[0-9]{1,12}"@,
        "[A-Za-z0-9+/]{4}*(?:[A-Za-z0-9+/]{2}==|[A-Za-z0-9+/]{3}=)?"@,
        "[0-9]{1,15}"@,
        "[0-9]{1,19}"@,
        "[0-9]{1,23}"@,
        "[0-9]{1,2}"@,
        "([0-9A-F][0-9A-F]){1,32}"@,
        "[A-Za-z0-9+/]{4}*(?:[A-Za-z0-9+/]{2}==|[A-Za-z0-9+/]{3}=)?"@,
        "[0-9]{1,3}"@,
        "[a-zA-Z0-9]{1,4}"@,
        "[0-9]{1,4}"@,
        "[A-Za-z0-9+/]{4}*(?:[A-Za-z0-9+/]{2}==|[A-Za-z0-9+/]{3}=)?"@,
        "[A-Za-z0-9+/]{4}*(?:[A-Za-z0-9+/]{2}==|[A-Za-z0-9+/]{3}=)?"@,
        "[0-9]{1,5}"@,
        "([0-9A-F][0-9A-F]){1,8}"@,
        "[0-9]{1,8}"@,
        "([0-9A-F][0-9A-F]){1,9999}"@,
        "[A-Z0-9]{4,4}"@,
        "[0-9]{2,3}"@,
        "[A-Za-z0-9+/]{4}*(?:[A-Za-z0-9+/]{2}==|[A-Za-z0-9+/]{3}=)?"@,
        "[A-U]{1,1}"@,
        "\\+[0-9]{1,3}-[0-9()+\\-]{1,30}"@,
        "[a-f0-9]{8}-[a-f0-9]{4}-4[a-f0-9]{3}-[89ab][a-f0-9]{3}-[a-f0-9]{12}"@,
    ]
}

/// The declared patterns as texts.
fn declared_texts() -> (texts: Vec<&'static str>)
    ensures
        texts@.len() == declared_patterns().len(),
        forall|i: int| 0 <= i < texts@.len() ==> texts@[i]@ == declared_patterns()[i],
{
    let texts: Vec<&'static str> = vec![
        "[A-Z]{3,3}",
        "[A-Z]{3,3}",
        "[A-Z0-9]{4,4}[A-Z]{2,2}[A-Z0-9]{2,2}([A-Z0-9]{3,3}){0,1}",
        "[A-Z0-9]{4,4}[A-Z]{2,2}[A-Z0-9]{2,2}([A-Z0-9]{3,3}){0,1}",
        "[A-Z]{2,2}",
        "[BEOVW]{1,1}[0-9]{2,2}|DUM",
        "([0-9A-F][0-9A-F]){1}",
        "[0-9]{2}",
        "[a-zA-Z0-9]{4}",
        "[a-zA-Z0-9\\s]{6}",
        "([0-9A-F][0-9A-F]){1,3}",
        "[A-Z]{2,2}[0-9]{2,2}[a-zA-Z0-9]{1,30}",
        "[A-Z]{2,2}[A-Z0-9]{9,9}[0-9]{1,1}",
        "[0-9]{4,4}",
        "[0-9]{3,3}",
        "[0-9]{3,3}",
        "[0-9A-Z]{2,2}",
        "[0-9A-Z]{2,2}",
        "[0-9A-Z]{2,2}",
        "[0-9A-Z]{2,2}",
        "[A-Z]{2,3}",
        "[a-z]{2,3}",
        "^-?\\d{4}-(0[1-9]|1[0-2])([+-]\\d{2}:\\d{2}|Z)?$",
        "[A-Z0-9]{18,18}[0-9]{2,2}",
        "[A-Za-z0-9+/]{4}*(?:[A-Za-z0-9+/]{2}==|[A-Za-z0-9+/]{3}=)?",
        "([0-9A-F][0-9A-F]){1,10000}  ",
        "[0-9]{1,11}",
        "[0-9]{1,12}",
        "[A-Za-z0-9+/]{4}*(?:[A-Za-z0-9+/]{2}==|[A-Za-z0-9+/]{3}=)?",
        "[0-9]{1,15}",
        "[0-9]{1,19}",
        "[0-9]{1,23}",
        "[0-9]{1,2}",
        "([0-9A-F][0-9A-F]){1,32}",
        "[A-Za-z0-9+/]{4}*(?:[A-Za-z0-9+/]{2}==|[A-Za-z0-9+/]{3}=)?",
        "[0-9]{1,3}",
        "[a-zA-Z0-9]{1,4}",
        "[0-9]{1,4}",
        "[A-Za-z0-9+/]{4}*(?:[A-Za-z0-9+/]{2}==|[A-Za-z0-9+/]{3}=)?",
        "[A-Za-z0-9+/]{4}*(?:[A-Za-z0-9+/]{2}==|[A-Za-z0-9+/]{3}=)?",
        "[0-9]{1,5}",
        "([0-9A-F][0-9A-F]){1,8}",
        "[0-9]{1,8}",
        "([0-9A-F][0-9A-F]){1,9999}",
        "[A-Z0-9]{4,4}",
        "[0-9]{2,3}",
        "[A-Za-z0-9+/]{4}*(?:[A-Za-z0-9+/]{2}==|[A-Za-z0-9+/]{3}=)?",
        "[A-U]{1,1}",
        "\\+[0-9]{1,3}-[0-9()+\\-]{1,30}",
        "[a-f0-9]{8}-[a-f0-9]{4}-4[a-f0-9]{3}-[89ab][a-f0-9]{3}-[a-f0-9]{12}",
    ];
    texts
}

/// The compiled patterns of all identifier and code formats.  A value of
/// this type exists only if every pattern compiled.
pub struct IdentifierPatterns {
    entries: Vec<CompiledPattern>,
}

impl IdentifierPatterns {
    #[verifier::type_invariant]
    spec fn as_declared(&self) -> bool {
        &&& self.entries@.len() == declared_patterns().len()
        &&& forall|i: int|
            0 <= i < self.entries@.len() ==> self.entries@[i].source_spec()
                == declared_patterns()[i]
    }

    /// Compiles every declared pattern through `registry`, so that a format
    /// shared by several identifiers is compiled once.  Succeeds exactly when
    /// every pattern is valid; fails with the first that is not.  The
    /// registry keeps what it held and, on success, holds every declared
    /// pattern.
    pub fn compile(registry: &mut PatternRegistry) -> (res: Result<
        IdentifierPatterns,
        PatternCompileError,
    >)
        ensures
            res.is_ok() == (forall|i: int|
                0 <= i < declared_patterns().len() ==> compiles(
                    #[trigger] declared_patterns()[i],
                )),
            res matches Err(error) ==> exists|i: int|
                0 <= i < declared_patterns().len() && error.pattern@
                    == #[trigger] declared_patterns()[i] && !compiles(declared_patterns()[i]),
            final(registry).sources().no_duplicates(),
            forall|source: Seq<char>|
                #[trigger] old(registry).sources().contains(source) ==> final(
                    registry
                ).sources().contains(source),
            res.is_ok() ==> forall|i: int|
                0 <= i < declared_patterns().len() ==> final(registry).sources().contains(
                    #[trigger] declared_patterns()[i],
                ),
    {
        let texts = declared_texts();
        let mut entries: Vec<CompiledPattern> = Vec::new();
        let mut i: usize = 0;
        while i < texts.len()
            invariant
                i <= texts.len(),
                texts@.len() == declared_patterns().len(),
                forall|k: int| 0 <= k < texts@.len() ==> texts@[k]@ == declared_patterns()[k],
                entries@.len() == i,
                forall|k: int|
                    0 <= k < i ==> entries@[k].source_spec() == declared_patterns()[k] && compiles(
                        declared_patterns()[k],
                    ) && registry.sources().contains(declared_patterns()[k]),
                i > 0 ==> registry.sources().no_duplicates(),
                forall|source: Seq<char>|
                    #[trigger] old(registry).sources().contains(source)
                        ==> registry.sources().contains(source),
            decreases texts.len() - i,
        {
            let ghost held = registry.sources();
            match registry.get_or_compile(texts[i]) {
                Ok(compiled) => {
                    entries.push(compiled);
                    proof {
                        assert forall|source: Seq<char>| held.contains(source) implies registry.sources().contains(
                            source,
                        ) by {
                            lemma_push_keeps(held, declared_patterns()[i as int], source);
                        }
                        lemma_push_holds(held, declared_patterns()[i as int]);
                    }
                },
                Err(error) => {
                    return Err(error);
                },
            }
            i += 1;
        }
        Ok(IdentifierPatterns { entries })
    }

    /// The pattern `[A-Z]{3,3}`.
    pub fn active_currency_code(&self) -> (pattern: &CompiledPattern)
        ensures
            pattern.source_spec() == "[A-Z]{3,3}"@,
    {
        proof {
            use_type_invariant(self);
        }
        &self.entries[0]
    }

    /// The pattern `[A-Z]{3,3}`.
    pub fn active_or_historic_currency_code(&self) -> (pattern: &CompiledPattern)
        ensures
            pattern.source_spec() == "[A-Z]{3,3}"@,
    {
        proof {
            use_type_invariant(self);
        }
        &self.entries[1]
    }

    /// The pattern `[A-Z0-9]{4,4}[A-Z]{2,2}[A-Z0-9]{2,2}([A-Z0-9]{3,3}){0,1}`.
    pub fn any_bic_dec_2014_identifier(&self) -> (pattern: &CompiledPattern)
        ensures
            pattern.source_spec() == "[A-Z0-9]{4,4}[A-Z]{2,2}[A-Z0-9]{2,2}([A-Z0-9]{3,3}){0,1}"@,
    {
        proof {
            use_type_invariant(self);
        }
        &self.entries[2]
    }

    /// The pattern `[A-Z0-9]{4,4}[A-Z]{2,2}[A-Z0-9]{2,2}([A-Z0-9]{3,3}){0,1}`.
    pub fn bicfi_dec_2014_identifier(&self) -> (pattern: &CompiledPattern)
        ensures
            pattern.source_spec() == "[A-Z0-9]{4,4}[A-Z]{2,2}[A-Z0-9]{2,2}([A-Z0-9]{3,3}){0,1}"@,
    {
        proof {
            use_type_invariant(self);
        }
        &self.entries[3]
    }

    /// The pattern `[A-Z]{2,2}`.
    pub fn country_code(&self) -> (pattern: &CompiledPattern)
        ensures
            pattern.source_spec() == "[A-Z]{2,2}"@,
    {
        proof {
            use_type_invariant(self);
        }
        &self.entries[4]
    }

    /// The pattern `[BEOVW]{1,1}[0-9]{2,2}|DUM`.
    pub fn entry_type_identifier(&self) -> (pattern: &CompiledPattern)
        ensures
            pattern.source_spec() == "[BEOVW]{1,1}[0-9]{2,2}|DUM"@,
    {
        proof {
            use_type_invariant(self);
        }
        &self.entries[5]
    }

    /// The pattern `([0-9A-F][0-9A-F]){1}`.
    pub fn exact_1_hex_binary_text(&self) -> (pattern: &CompiledPattern)
        ensures
            pattern.source_spec() == "([0-9A-F][0-9A-F]){1}"@,
    {
        proof {
            use_type_invariant(self);
        }
        &self.entries[6]
    }

    /// The pattern `[0-9]{2}`.
    pub fn exact_2_numeric_text(&self) -> (pattern: &CompiledPattern)
        ensures
            pattern.source_spec() == "[0-9]{2}"@,
    {
        proof {
            use_type_invariant(self);
        }
        &self.entries[7]
    }

    /// The pattern `[a-zA-Z0-9]{4}`.
    pub fn exact_4_alpha_numeric_text(&self) -> (pattern: &CompiledPattern)
        ensures
            pattern.source_spec() == "[a-zA-Z0-9]{4}"@,
    {
        proof {
            use_type_invariant(self);
        }
        &self.entries[8]
    }

    /// The pattern `[a-zA-Z0-9\s]{6}`.
    pub fn exact_6_alpha_numeric_text(&self) -> (pattern: &CompiledPattern)
        ensures
            pattern.source_spec() == "[a-zA-Z0-9\\s]{6}"@,
    {
        proof {
            use_type_invariant(self);
        }
        &self.entries[9]
    }

    /// The pattern `([0-9A-F][0-9A-F]){1,3}`.
    pub fn external_encrypted_element_identification_1_code(&self) -> (pattern: &CompiledPattern)
        ensures
            pattern.source_spec() == "([0-9A-F][0-9A-F]){1,3}"@,
    {
        proof {
            use_type_invariant(self);
        }
        &self.entries[10]
    }

    /// The pattern `[A-Z]{2,2}[0-9]{2,2}[a-zA-Z0-9]{1,30}`.
    pub fn iban_2007_identifier(&self) -> (pattern: &CompiledPattern)
        ensures
            pattern.source_spec() == "[A-Z]{2,2}[0-9]{2,2}[a-zA-Z0-9]{1,30}"@,
    {
        proof {
            use_type_invariant(self);
        }
        &self.entries[11]
    }

    /// The pattern `[A-Z]{2,2}[A-Z0-9]{9,9}[0-9]{1,1}`.
    pub fn isin_oct_2015_identifier(&self) -> (pattern: &CompiledPattern)
        ensures
            pattern.source_spec() == "[A-Z]{2,2}[A-Z0-9]{9,9}[0-9]{1,1}"@,
    {
        proof {
            use_type_invariant(self);
        }
        &self.entries[12]
    }

    /// The pattern `[0-9]{4,4}`.
    pub fn iso_18245_merchant_category_code(&self) -> (pattern: &CompiledPattern)
        ensures
            pattern.source_spec() == "[0-9]{4,4}"@,
    {
        proof {
            use_type_invariant(self);
        }
        &self.entries[13]
    }

    /// The pattern `[0-9]{3,3}`.
    pub fn iso_3_numeric_country_code(&self) -> (pattern: &CompiledPattern)
        ensures
            pattern.source_spec() == "[0-9]{3,3}"@,
    {
        proof {
            use_type_invariant(self);
        }
        &self.entries[14]
    }

    /// The pattern `[0-9]{3,3}`.
    pub fn iso_3_numeric_currency_code(&self) -> (pattern: &CompiledPattern)
        ensures
            pattern.source_spec() == "[0-9]{3,3}"@,
    {
        proof {
            use_type_invariant(self);
        }
        &self.entries[15]
    }

    /// The pattern `[0-9A-Z]{2,2}`.
    pub fn iso_8583_account_type_code(&self) -> (pattern: &CompiledPattern)
        ensures
            pattern.source_spec() == "[0-9A-Z]{2,2}"@,
    {
        proof {
            use_type_invariant(self);
        }
        &self.entries[16]
    }

    /// The pattern `[0-9A-Z]{2,2}`.
    pub fn iso_8583_amount_type_code(&self) -> (pattern: &CompiledPattern)
        ensures
            pattern.source_spec() == "[0-9A-Z]{2,2}"@,
    {
        proof {
            use_type_invariant(self);
        }
        &self.entries[17]
    }

    /// The pattern `[0-9A-Z]{2,2}`.
    pub fn iso_8583_response_code(&self) -> (pattern: &CompiledPattern)
        ensures
            pattern.source_spec() == "[0-9A-Z]{2,2}"@,
    {
        proof {
            use_type_invariant(self);
        }
        &self.entries[18]
    }

    /// The pattern `[0-9A-Z]{2,2}`.
    pub fn iso_8583_transaction_type_code(&self) -> (pattern: &CompiledPattern)
        ensures
            pattern.source_spec() == "[0-9A-Z]{2,2}"@,
    {
        proof {
            use_type_invariant(self);
        }
        &self.entries[19]
    }

    /// The pattern `[A-Z]{2,3}`.
    pub fn iso_max_3_a_country_code(&self) -> (pattern: &CompiledPattern)
        ensures
            pattern.source_spec() == "[A-Z]{2,3}"@,
    {
        proof {
            use_type_invariant(self);
        }
        &self.entries[20]
    }

    /// The pattern `[a-z]{2,3}`.
    pub fn iso_max_3_a_language_code(&self) -> (pattern: &CompiledPattern)
        ensures
            pattern.source_spec() == "[a-z]{2,3}"@,
    {
        proof {
            use_type_invariant(self);
        }
        &self.entries[21]
    }

    /// The pattern `^-?\d{4}-(0[1-9]|1[0-2])([+-]\d{2}:\d{2}|Z)?$`.
    pub fn iso_year_month(&self) -> (pattern: &CompiledPattern)
        ensures
            pattern.source_spec() == "^-?\\d{4}-(0[1-9]|1[0-2])([+-]\\d{2}:\\d{2}|Z)?$"@,
    {
        proof {
            use_type_invariant(self);
        }
        &self.entries[22]
    }

    /// The pattern `[A-Z0-9]{18,18}[0-9]{2,2}`.
    pub fn lei_identifier(&self) -> (pattern: &CompiledPattern)
        ensures
            pattern.source_spec() == "[A-Z0-9]{18,18}[0-9]{2,2}"@,
    {
        proof {
            use_type_invariant(self);
        }
        &self.entries[23]
    }

    /// The pattern `[A-Za-z0-9+/]{4}*(?:[A-Za-z0-9+/]{2}==|[A-Za-z0-9+/]{3}=)?`.
    pub fn max_100_k_binary(&self) -> (pattern: &CompiledPattern)
        ensures
            pattern.source_spec() == "[A-Za-z0-9+/]{4}*(?:[A-Za-z0-9+/]{2}==|[A-Za-z0-9+/]{3}=)?"@,
    {
        proof {
            use_type_invariant(self);
        }
        &self.entries[24]
    }

    /// The pattern `([0-9A-F][0-9A-F]){1,10000}`.
    pub fn max_10_k_hex_binary_text(&self) -> (pattern: &CompiledPattern)
        ensures
            pattern.source_spec() == "([0-9A-F][0-9A-F]){1,10000}  "@,
    {
        proof {
            use_type_invariant(self);
        }
        &self.entries[25]
    }

    /// The pattern `[0-9]{1,11}`.
    pub fn max_11_numeric_text(&self) -> (pattern: &CompiledPattern)
        ensures
            pattern.source_spec() == "[0-9]{1,11}"@,
    {
        proof {
            use_type_invariant(self);
        }
        &self.entries[26]
    }

    /// The pattern `[0-9]{1,12}`.
    pub fn max_12_numeric_text(&self) -> (pattern: &CompiledPattern)
        ensures
            pattern.source_spec() == "[0-9]{1,12}"@,
    {
        proof {
            use_type_invariant(self);
        }
        &self.entries[27]
    }

    /// The pattern `[A-Za-z0-9+/]{4}*(?:[A-Za-z0-9+/]{2}==|[A-Za-z0-9+/]{3}=)?`.
    pub fn max_140_binary(&self) -> (pattern: &CompiledPattern)
        ensures
            pattern.source_spec() == "[A-Za-z0-9+/]{4}*(?:[A-Za-z0-9+/]{2}==|[A-Za-z0-9+/]{3}=)?"@,
    {
        proof {
            use_type_invariant(self);
        }
        &self.entries[28]
    }

    /// The pattern `[0-9]{1,15}`.
    pub fn max_15_numeric_text(&self) -> (pattern: &CompiledPattern)
        ensures
            pattern.source_spec() == "[0-9]{1,15}"@,
    {
        proof {
            use_type_invariant(self);
        }
        &self.entries[29]
    }

    /// The pattern `[0-9]{1,19}`.
    pub fn max_19_numeric_text(&self) -> (pattern: &CompiledPattern)
        ensures
            pattern.source_spec() == "[0-9]{1,19}"@,
    {
        proof {
            use_type_invariant(self);
        }
        &self.entries[30]
    }

    /// The pattern `[0-9]{1,23}`.
    pub fn max_23_numeric_text(&self) -> (pattern: &CompiledPattern)
        ensures
            pattern.source_spec() == "[0-9]{1,23}"@,
    {
        proof {
            use_type_invariant(self);
        }
        &self.entries[31]
    }

    /// The pattern `[0-9]{1,2}`.
    pub fn max_2_numeric_text(&self) -> (pattern: &CompiledPattern)
        ensures
            pattern.source_spec() == "[0-9]{1,2}"@,
    {
        proof {
            use_type_invariant(self);
        }
        &self.entries[32]
    }

    /// The pattern `([0-9A-F][0-9A-F]){1,32}`.
    pub fn max_32_hex_binary_text(&self) -> (pattern: &CompiledPattern)
        ensures
            pattern.source_spec() == "([0-9A-F][0-9A-F]){1,32}"@,
    {
        proof {
            use_type_invariant(self);
        }
        &self.entries[33]
    }

    /// The pattern `[A-Za-z0-9+/]{4}*(?:[A-Za-z0-9+/]{2}==|[A-Za-z0-9+/]{3}=)?`.
    pub fn max_35_binary(&self) -> (pattern: &CompiledPattern)
        ensures
            pattern.source_spec() == "[A-Za-z0-9+/]{4}*(?:[A-Za-z0-9+/]{2}==|[A-Za-z0-9+/]{3}=)?"@,
    {
        proof {
            use_type_invariant(self);
        }
        &self.entries[34]
    }

    /// The pattern `[0-9]{1,3}`.
    pub fn max_3_numeric_text(&self) -> (pattern: &CompiledPattern)
        ensures
            pattern.source_spec() == "[0-9]{1,3}"@,
    {
        proof {
            use_type_invariant(self);
        }
        &self.entries[35]
    }

    /// The pattern `[a-zA-Z0-9]{1,4}`.
    pub fn max_4_alpha_numeric_text(&self) -> (pattern: &CompiledPattern)
        ensures
            pattern.source_spec() == "[a-zA-Z0-9]{1,4}"@,
    {
        proof {
            use_type_invariant(self);
        }
        &self.entries[36]
    }

    /// The pattern `[0-9]{1,4}`.
    pub fn max_4_numeric_text(&self) -> (pattern: &CompiledPattern)
        ensures
            pattern.source_spec() == "[0-9]{1,4}"@,
    {
        proof {
            use_type_invariant(self);
        }
        &self.entries[37]
    }

    /// The pattern `[A-Za-z0-9+/]{4}*(?:[A-Za-z0-9+/]{2}==|[A-Za-z0-9+/]{3}=)?`.
    pub fn max_5000_binary(&self) -> (pattern: &CompiledPattern)
        ensures
            pattern.source_spec() == "[A-Za-z0-9+/]{4}*(?:[A-Za-z0-9+/]{2}==|[A-Za-z0-9+/]{3}=)?"@,
    {
        proof {
            use_type_invariant(self);
        }
        &self.entries[38]
    }

    /// The pattern `[A-Za-z0-9+/]{4}*(?:[A-Za-z0-9+/]{2}==|[A-Za-z0-9+/]{3}=)?`.
    pub fn max_500_binary(&self) -> (pattern: &CompiledPattern)
        ensures
            pattern.source_spec() == "[A-Za-z0-9+/]{4}*(?:[A-Za-z0-9+/]{2}==|[A-Za-z0-9+/]{3}=)?"@,
    {
        proof {
            use_type_invariant(self);
        }
        &self.entries[39]
    }

    /// The pattern `[0-9]{1,5}`.
    pub fn max_5_numeric_text(&self) -> (pattern: &CompiledPattern)
        ensures
            pattern.source_spec() == "[0-9]{1,5}"@,
    {
        proof {
            use_type_invariant(self);
        }
        &self.entries[40]
    }

    /// The pattern `([0-9A-F][0-9A-F]){1,8}`.
    pub fn max_8_hex_binary_text(&self) -> (pattern: &CompiledPattern)
        ensures
            pattern.source_spec() == "([0-9A-F][0-9A-F]){1,8}"@,
    {
        proof {
            use_type_invariant(self);
        }
        &self.entries[41]
    }

    /// The pattern `[0-9]{1,8}`.
    pub fn max_8_numeric_text(&self) -> (pattern: &CompiledPattern)
        ensures
            pattern.source_spec() == "[0-9]{1,8}"@,
    {
        proof {
            use_type_invariant(self);
        }
        &self.entries[42]
    }

    /// The pattern `([0-9A-F][0-9A-F]){1,9999}`.
    pub fn max_9999_hex_binary_text(&self) -> (pattern: &CompiledPattern)
        ensures
            pattern.source_spec() == "([0-9A-F][0-9A-F]){1,9999}"@,
    {
        proof {
            use_type_invariant(self);
        }
        &self.entries[43]
    }

    /// The pattern `[A-Z0-9]{4,4}`.
    pub fn mic_identifier(&self) -> (pattern: &CompiledPattern)
        ensures
            pattern.source_spec() == "[A-Z0-9]{4,4}"@,
    {
        proof {
            use_type_invariant(self);
        }
        &self.entries[44]
    }

    /// The pattern `[0-9]{2,3}`.
    pub fn min_2_max_3_numeric_text(&self) -> (pattern: &CompiledPattern)
        ensures
            pattern.source_spec() == "[0-9]{2,3}"@,
    {
        proof {
            use_type_invariant(self);
        }
        &self.entries[45]
    }

    /// The pattern `[A-Za-z0-9+/]{4}*(?:[A-Za-z0-9+/]{2}==|[A-Za-z0-9+/]{3}=)?`.
    pub fn min_5_max_16_binary(&self) -> (pattern: &CompiledPattern)
        ensures
            pattern.source_spec() == "[A-Za-z0-9+/]{4}*(?:[A-Za-z0-9+/]{2}==|[A-Za-z0-9+/]{3}=)?"@,
    {
        proof {
            use_type_invariant(self);
        }
        &self.entries[46]
    }

    /// The pattern `[A-U]{1,1}`.
    pub fn nace_domain_identifier(&self) -> (pattern: &CompiledPattern)
        ensures
            pattern.source_spec() == "[A-U]{1,1}"@,
    {
        proof {
            use_type_invariant(self);
        }
        &self.entries[47]
    }

    /// The pattern `\+[0-9]{1,3}-[0-9()+\-]{1,30}`.
    pub fn phone_number(&self) -> (pattern: &CompiledPattern)
        ensures
            pattern.source_spec() == "\\+[0-9]{1,3}-[0-9()+\\-]{1,30}"@,
    {
        proof {
            use_type_invariant(self);
        }
        &self.entries[48]
    }

    /// The pattern `[a-f0-9]{8}-[a-f0-9]{4}-4[a-f0-9]{3}-[89ab][a-f0-9]{3}-[a-f0-9]{12}`.
    pub fn uui_dv_4_identifier(&self) -> (pattern: &CompiledPattern)
        ensures
            pattern.source_spec() == "[a-f0-9]{8}-[a-f0-9]{4}-4[a-f0-9]{3}-[89ab][a-f0-9]{3}-[a-f0-9]{12}"@,
    {
        proof {
            use_type_invariant(self);
        }
        &self.entries[49]
    }
}

/// Appending to a list keeps what the list held.
proof fn lemma_push_keeps(held: Seq<Seq<char>>, added: Seq<char>, source: Seq<char>)
    requires
        held.contains(source),
    ensures
        held.push(added).contains(source),
{
    let k = choose|k: int| 0 <= k < held.len() && held[k] == source;
    assert(held.push(added)[k] == source);
}

/// A list holds what was appended to it.
proof fn lemma_push_holds(held: Seq<Seq<char>>, added: Seq<char>)
    ensures
        held.push(added).contains(added),
{
    assert(held.push(added)[held.len() as int] == added);
}

} // verus!
