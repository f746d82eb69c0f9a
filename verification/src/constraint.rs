//! Constraints on scalar values and their evaluation.
//!
//! The three checks are pure: the verdict depends on the value and the
//! constraint alone.

use vstd::prelude::*;
use vstd::string::StrSliceExecFns;
use vstd::string::StringExecFns;
use crate::decimal::Decimal;
use crate::pattern::CompiledPattern;
use crate::pattern::full_match;
use crate::violation::StructuralFault;
use crate::violation::StructuralFaultModel;
use crate::violation::Violation;
use crate::violation::ViolationModel;

verus! {

/// Whether a character count lies within the bounds; an absent bound does
/// not constrain its side.
pub open spec fn length_within(count: nat, min: Option<u64>, max: Option<u64>) -> bool {
    &&& (min matches Some(low) ==> low <= count)
    &&& (max matches Some(high) ==> count <= high)
}

/// Whether a number lies within the bounds; an absent bound does not
/// constrain its side.
pub open spec fn range_within(value: Decimal, min: Option<Decimal>, max: Option<Decimal>) -> bool {
    &&& (min matches Some(low) ==> low.at_most(value))
    &&& (max matches Some(high) ==> value.at_most(high))
}

/// Whether `count` lies within the bounds.
pub fn count_within(count: u64, min: Option<u64>, max: Option<u64>) -> (within: bool)
    ensures
        within == length_within(count as nat, min, max),
{
    let low_holds = match min {
        Some(low) => low <= count,
        None => true,
    };
    let high_holds = match max {
        Some(high) => count <= high,
        None => true,
    };
    low_holds && high_holds
}

/// Checks the number of characters of `value` (Unicode scalar values, not
/// bytes) against the bounds.
pub fn check_length(value: &str, min: Option<u64>, max: Option<u64>) -> (res: Result<(), Violation>)
    ensures
        res.is_ok() == length_within(value@.len(), min, max),
        res matches Err(violation) ==> violation@ == (ViolationModel::Length {
            actual: value@.len() as u64,
            min,
            max,
        }),
{
    let count = value.unicode_len() as u64;
    if count_within(count, min, max) {
        Ok(())
    } else {
        Err(Violation::Length { actual: count, min, max })
    }
}

/// Checks a number against the bounds, both of which are inclusive.
pub fn check_range(value: Decimal, min: Option<Decimal>, max: Option<Decimal>) -> (res: Result<
    (),
    Violation,
>)
    ensures
        res.is_ok() == range_within(value, min, max),
        res matches Err(violation) ==> violation@ == (ViolationModel::Range {
            actual: value,
            min,
            max,
        }),
{
    let low_holds = match min {
        Some(low) => low.le(&value),
        None => true,
    };
    let high_holds = match max {
        Some(high) => value.le(&high),
        None => true,
    };
    if low_holds && high_holds {
        Ok(())
    } else {
        Err(Violation::Range { actual: value, min, max })
    }
}

/// Checks that `pattern` matches the entire `value`; a match of a part of
/// the value is not enough.
pub fn check_pattern(value: &str, pattern: &CompiledPattern) -> (res: Result<(), Violation>)
    ensures
        res.is_ok() == full_match(pattern.source_spec(), value@),
        res matches Err(violation) ==> violation@ == (ViolationModel::Pattern {
            actual: value@,
            pattern: pattern.source_spec(),
        }),
{
    if pattern.is_full_match(value) {
        Ok(())
    } else {
        Err(
            Violation::Pattern {
                actual: String::from_str(value),
                pattern: String::from_str(pattern.source()),
            },
        )
    }
}

/// A scalar value of a document.
pub enum ScalarValue {
    Text(String),
    Number(Decimal),
}

/// The mathematical value of a [`ScalarValue`].
pub enum ScalarModel {
    Text(Seq<char>),
    Number(Decimal),
}

impl View for ScalarValue {
    type V = ScalarModel;

    open spec fn view(&self) -> ScalarModel {
        match *self {
            ScalarValue::Text(text) => ScalarModel::Text(text@),
            ScalarValue::Number(number) => ScalarModel::Number(number),
        }
    }
}

/// One declared constraint on one field.
pub enum ConstraintSpec {
    /// At least this many characters.
    MinLength(u64),
    /// At most this many characters.
    MaxLength(u64),
    /// Not below this number.
    MinValue(Decimal),
    /// Not above this number.
    MaxValue(Decimal),
    /// The pattern matches the entire text.
    Pattern(CompiledPattern),
}

impl ConstraintSpec {
    /// What evaluating the constraint on `value` reports: nothing where the
    /// value conforms, the violation where it does not.  A length or pattern
    /// constraint on a number, or a numeric bound on a text, is a structural
    /// fault.
    pub open spec fn verdict(self, value: ScalarModel) -> Option<ViolationModel> {
        match (self, value) {
            (ConstraintSpec::MinLength(low), ScalarModel::Text(text)) => {
                if length_within(text.len(), Some(low), None) {
                    None
                } else {
                    Some(
                        ViolationModel::Length {
                            actual: text.len() as u64,
                            min: Some(low),
                            max: None,
                        },
                    )
                }
            },
            (ConstraintSpec::MaxLength(high), ScalarModel::Text(text)) => {
                if length_within(text.len(), None, Some(high)) {
                    None
                } else {
                    Some(
                        ViolationModel::Length {
                            actual: text.len() as u64,
                            min: None,
                            max: Some(high),
                        },
                    )
                }
            },
            (ConstraintSpec::MinValue(low), ScalarModel::Number(number)) => {
                if range_within(number, Some(low), None) {
                    None
                } else {
                    Some(ViolationModel::Range { actual: number, min: Some(low), max: None })
                }
            },
            (ConstraintSpec::MaxValue(high), ScalarModel::Number(number)) => {
                if range_within(number, None, Some(high)) {
                    None
                } else {
                    Some(ViolationModel::Range { actual: number, min: None, max: Some(high) })
                }
            },
            (ConstraintSpec::Pattern(pattern), ScalarModel::Text(text)) => {
                if full_match(pattern.source_spec(), text) {
                    None
                } else {
                    Some(
                        ViolationModel::Pattern {
                            actual: text,
                            pattern: pattern.source_spec(),
                        },
                    )
                }
            },
            _ => Some(ViolationModel::Structure(StructuralFaultModel::KindMismatch)),
        }
    }

    /// Evaluates the constraint on `value`.
    pub fn evaluate(&self, value: &ScalarValue) -> (res: Option<Violation>)
        ensures
            match res {
                Some(violation) => self.verdict(value@) == Some(violation@),
                None => self.verdict(value@).is_none(),
            },
    {
        let checked = match (self, value) {
            (ConstraintSpec::MinLength(low), ScalarValue::Text(text)) => check_length(
                text.as_str(),
                Some(*low),
                None,
            ),
            (ConstraintSpec::MaxLength(high), ScalarValue::Text(text)) => check_length(
                text.as_str(),
                None,
                Some(*high),
            ),
            (ConstraintSpec::MinValue(low), ScalarValue::Number(number)) => check_range(
                *number,
                Some(*low),
                None,
            ),
            (ConstraintSpec::MaxValue(high), ScalarValue::Number(number)) => check_range(
                *number,
                None,
                Some(*high),
            ),
            (ConstraintSpec::Pattern(pattern), ScalarValue::Text(text)) => check_pattern(
                text.as_str(),
                pattern,
            ),
            _ => Err(Violation::Structure(StructuralFault::KindMismatch)),
        };
        match checked {
            Ok(()) => None,
            Err(violation) => Some(violation),
        }
    }
}

} // verus!
