//! Validation of typed message values.
//!
//! Every message type reports its own violations and those of its fields,
//! in declaration order, under the path at which the value stands.  The
//! functions of this module are the building blocks that the message types
//! are validated with: one for each shape that a field can have.

use vstd::prelude::*;
use vstd::string::StringExecFns;
use crate::constraint::check_length;
use crate::constraint::check_pattern;
use crate::constraint::check_range;
use crate::constraint::count_within;
use crate::constraint::length_within;
use crate::constraint::range_within;
use crate::decimal::Decimal;
use crate::identifiers::IdentifierPatterns;
use crate::pattern::CompiledPattern;
use crate::pattern::full_match;
use crate::violation::PathSegment;
use crate::violation::ReportModel;
use crate::violation::SegmentModel;
use crate::violation::StructuralFault;
use crate::violation::StructuralFaultModel;
use crate::violation::ValidationViolation;
use crate::violation::Violation;
use crate::violation::ViolationModel;
use crate::violation::copy_path;
use crate::violation::extend_path;
use crate::violation::names_model;
use crate::violation::path_model;
use crate::violation::reports_model;

verus! {

/// A value that can be validated.
pub trait Validate {
    /// What validating the value at `path` reports.
    spec fn violations(&self, path: Seq<SegmentModel>) -> Seq<ReportModel>;

    /// Appends to `out` what validating the value at `path` reports.
    fn validate_into(
        &self,
        path: &Vec<PathSegment>,
        patterns: &IdentifierPatterns,
        out: &mut Vec<ValidationViolation>,
    )
        ensures
            reports_model(final(out)@) == reports_model(old(out)@) + self.violations(
                path_model(path@),
            ),
    ;
}

/// Validates `value` as the root of a document.
pub fn validate_value<T: Validate>(value: &T, patterns: &IdentifierPatterns) -> (reports: Vec<
    ValidationViolation,
>)
    ensures
        reports_model(reports@) == value.violations(Seq::empty()),
{
    let path: Vec<PathSegment> = Vec::new();
    let mut reports: Vec<ValidationViolation> = Vec::new();
    proof {
        assert(path_model(path@) =~= Seq::empty());
        assert(reports_model(reports@) =~= Seq::empty());
    }
    value.validate_into(&path, patterns, &mut reports);
    proof {
        assert(Seq::<ReportModel>::empty() + value.violations(Seq::empty())
            =~= value.violations(Seq::empty()));
    }
    reports
}

/// The report of one violation at `path`.
pub open spec fn single_report(path: Seq<SegmentModel>, violation: ViolationModel) -> Seq<
    ReportModel,
> {
    seq![ReportModel { path, violation }]
}

/// What a length constraint on a text reports.
pub open spec fn length_reports(
    text: Seq<char>,
    min: Option<u64>,
    max: Option<u64>,
    path: Seq<SegmentModel>,
) -> Seq<ReportModel> {
    if length_within(text.len(), min, max) {
        Seq::empty()
    } else {
        single_report(path, ViolationModel::Length { actual: text.len() as u64, min, max })
    }
}

/// What a pattern constraint on a text reports.
pub open spec fn pattern_reports(text: Seq<char>, source: Seq<char>, path: Seq<SegmentModel>) -> Seq<
    ReportModel,
> {
    if full_match(source, text) {
        Seq::empty()
    } else {
        single_report(path, ViolationModel::Pattern { actual: text, pattern: source })
    }
}

/// What a range constraint on a number reports.
pub open spec fn range_reports(
    value: Decimal,
    min: Option<Decimal>,
    max: Option<Decimal>,
    path: Seq<SegmentModel>,
) -> Seq<ReportModel> {
    if range_within(value, min, max) {
        Seq::empty()
    } else {
        single_report(path, ViolationModel::Range { actual: value, min, max })
    }
}

/// What the bounds on the number of elements of a repeated field report.
pub open spec fn count_reports(
    count: nat,
    min: Option<u64>,
    max: Option<u64>,
    path: Seq<SegmentModel>,
) -> Seq<ReportModel> {
    if length_within(count, min, max) {
        Seq::empty()
    } else {
        single_report(path, ViolationModel::Length { actual: count as u64, min, max })
    }
}

/// What a choice reports of which the alternatives named in `present` are
/// populated: nothing where it is exactly one.
pub open spec fn choice_reports(present: Seq<Seq<char>>, path: Seq<SegmentModel>) -> Seq<
    ReportModel,
> {
    if present.len() >= 2 {
        single_report(
            path,
            ViolationModel::Structure(StructuralFaultModel::AmbiguousChoice { present }),
        )
    } else if present.len() == 0 {
        single_report(path, ViolationModel::Structure(StructuralFaultModel::MissingChoice))
    } else {
        Seq::empty()
    }
}

/// The name of an alternative, if it is populated.
pub open spec fn name_if(populated: bool, name: Seq<char>) -> Seq<Seq<char>> {
    if populated {
        seq![name]
    } else {
        Seq::empty()
    }
}

/// What a field named `name` reports.
pub open spec fn field_reports<T: Validate>(value: T, name: Seq<char>, path: Seq<SegmentModel>) -> Seq<
    ReportModel,
> {
    value.violations(path.push(SegmentModel::Field(name)))
}

/// What an optional field named `name` reports: nothing where it is absent.
pub open spec fn optional_reports<T: Validate>(
    value: Option<T>,
    name: Seq<char>,
    path: Seq<SegmentModel>,
) -> Seq<ReportModel> {
    match value {
        Some(inner) => field_reports(inner, name, path),
        None => Seq::empty(),
    }
}

/// What the first `upto` elements of a repeated field report, each under
/// the path extended by its position.
pub open spec fn elements_reports<T: Validate>(
    items: Seq<T>,
    path: Seq<SegmentModel>,
    upto: nat,
) -> Seq<ReportModel>
    decreases upto,
{
    if upto == 0 || upto > items.len() {
        Seq::empty()
    } else {
        elements_reports(items, path, (upto - 1) as nat) + items[upto - 1].violations(
            path.push(SegmentModel::Index((upto - 1) as nat)),
        )
    }
}

/// What a repeated field named `name` reports: first what the bounds on the
/// number of its elements report, then what its elements report.
pub open spec fn list_reports<T: Validate>(
    items: Seq<T>,
    min: Option<u64>,
    max: Option<u64>,
    name: Seq<char>,
    path: Seq<SegmentModel>,
) -> Seq<ReportModel> {
    count_reports(items.len(), min, max, path.push(SegmentModel::Field(name))) + elements_reports(
        items,
        path.push(SegmentModel::Field(name)),
        items.len(),
    )
}

/// Appends one report to `out`.
fn push_report(path: &Vec<PathSegment>, violation: Violation, out: &mut Vec<ValidationViolation>)
    ensures
        reports_model(final(out)@) == reports_model(old(out)@) + single_report(
            path_model(path@),
            violation@,
        ),
{
    let report = ValidationViolation { path: copy_path(path), violation };
    let ghost before = out@;
    out.push(report);
    proof {
        assert(reports_model(out@) =~= reports_model(before) + single_report(
            path_model(path@),
            violation@,
        ));
    }
}

/// Appending nothing leaves a list of reports as it is.
pub(crate) proof fn lemma_nothing_added(reports: Seq<ReportModel>)
    ensures
        reports == reports + Seq::<ReportModel>::empty(),
{
    assert(reports =~= reports + Seq::<ReportModel>::empty());
}

/// Appending `added` to what was reported so far appends it to what was
/// reported since `before`.
pub(crate) proof fn lemma_more_added(
    before: Seq<ReportModel>,
    earlier: Seq<ReportModel>,
    added: Seq<ReportModel>,
)
    ensures
        (before + earlier) + added == before + (earlier + added),
{
    assert((before + earlier) + added =~= before + (earlier + added));
}

/// Checks the length of `text` and appends what it reports.
pub fn report_length(
    text: &str,
    min: Option<u64>,
    max: Option<u64>,
    path: &Vec<PathSegment>,
    out: &mut Vec<ValidationViolation>,
)
    ensures
        reports_model(final(out)@) == reports_model(old(out)@) + length_reports(
            text@,
            min,
            max,
            path_model(path@),
        ),
{
    match check_length(text, min, max) {
        Ok(()) => {
            proof {
                lemma_nothing_added(reports_model(out@));
            }
        },
        Err(violation) => push_report(path, violation, out),
    }
}

/// Checks `text` against `pattern` and appends what it reports.
pub fn report_pattern(
    text: &str,
    pattern: &CompiledPattern,
    path: &Vec<PathSegment>,
    out: &mut Vec<ValidationViolation>,
)
    ensures
        reports_model(final(out)@) == reports_model(old(out)@) + pattern_reports(
            text@,
            pattern.source_spec(),
            path_model(path@),
        ),
{
    match check_pattern(text, pattern) {
        Ok(()) => {
            proof {
                lemma_nothing_added(reports_model(out@));
            }
        },
        Err(violation) => push_report(path, violation, out),
    }
}

/// Checks `value` against the bounds and appends what it reports.
pub fn report_range(
    value: Decimal,
    min: Option<Decimal>,
    max: Option<Decimal>,
    path: &Vec<PathSegment>,
    out: &mut Vec<ValidationViolation>,
)
    ensures
        reports_model(final(out)@) == reports_model(old(out)@) + range_reports(
            value,
            min,
            max,
            path_model(path@),
        ),
{
    match check_range(value, min, max) {
        Ok(()) => {
            proof {
                lemma_nothing_added(reports_model(out@));
            }
        },
        Err(violation) => push_report(path, violation, out),
    }
}

/// Checks how many alternatives of a choice are populated and appends what
/// that reports.
pub fn report_choice(present: Vec<String>, path: &Vec<PathSegment>, out: &mut Vec<ValidationViolation>)
    ensures
        reports_model(final(out)@) == reports_model(old(out)@) + choice_reports(
            names_model(present@),
            path_model(path@),
        ),
{
    if present.len() >= 2 {
        push_report(path, Violation::Structure(StructuralFault::AmbiguousChoice { present }), out);
    } else if present.len() == 0 {
        push_report(path, Violation::Structure(StructuralFault::MissingChoice), out);
    } else {
        proof {
            lemma_nothing_added(reports_model(out@));
        }
    }
}

/// Adds `name` to `present` where the alternative is populated.
pub fn note_present(populated: bool, name: &str, present: &mut Vec<String>)
    ensures
        names_model(final(present)@) == names_model(old(present)@) + name_if(populated, name@),
{
    let ghost before = present@;
    if populated {
        present.push(String::from_str(name));
    }
    proof {
        assert(names_model(present@) =~= names_model(before) + name_if(populated, name@));
    }
}

/// Validates the field named `name`.
pub fn validate_field<T: Validate>(
    value: &T,
    name: &str,
    path: &Vec<PathSegment>,
    patterns: &IdentifierPatterns,
    out: &mut Vec<ValidationViolation>,
)
    ensures
        reports_model(final(out)@) == reports_model(old(out)@) + field_reports(
            *value,
            name@,
            path_model(path@),
        ),
{
    let inner = extend_path(path, PathSegment::Field(String::from_str(name)));
    value.validate_into(&inner, patterns, out);
}

/// Validates the optional field named `name`.
pub fn validate_optional<T: Validate>(
    value: &Option<T>,
    name: &str,
    path: &Vec<PathSegment>,
    patterns: &IdentifierPatterns,
    out: &mut Vec<ValidationViolation>,
)
    ensures
        reports_model(final(out)@) == reports_model(old(out)@) + optional_reports(
            *value,
            name@,
            path_model(path@),
        ),
{
    match value {
        Some(inner) => validate_field(inner, name, path, patterns, out),
        None => {
            proof {
                lemma_nothing_added(reports_model(out@));
            }
        },
    }
}

/// Validates the repeated field named `name`.
pub fn validate_list<T: Validate>(
    items: &Vec<T>,
    min: Option<u64>,
    max: Option<u64>,
    name: &str,
    path: &Vec<PathSegment>,
    patterns: &IdentifierPatterns,
    out: &mut Vec<ValidationViolation>,
)
    ensures
        reports_model(final(out)@) == reports_model(old(out)@) + list_reports(
            items@,
            min,
            max,
            name@,
            path_model(path@),
        ),
{
    let ghost before = reports_model(out@);
    let list_path = extend_path(path, PathSegment::Field(String::from_str(name)));
    let ghost here = path_model(list_path@);
    let count = items.len() as u64;
    if !count_within(count, min, max) {
        push_report(&list_path, Violation::Length { actual: count, min, max }, out);
    } else {
        proof {
            lemma_nothing_added(reports_model(out@));
        }
    }
    let ghost counted = count_reports(items@.len(), min, max, here);
    proof {
        assert(reports_model(out@) =~= before + counted + elements_reports(items@, here, 0));
    }
    let mut i: usize = 0;
    while i < items.len()
        invariant
            i <= items.len(),
            here == path_model(list_path@),
            reports_model(out@) == before + counted + elements_reports(items@, here, i as nat),
        decreases items.len() - i,
    {
        let item_path = extend_path(&list_path, PathSegment::Index(i));
        items[i].validate_into(&item_path, patterns, out);
        proof {
            assert(reports_model(out@) =~= before + counted + elements_reports(
                items@,
                here,
                (i + 1) as nat,
            ));
        }
        i += 1;
    }
    proof {
        assert(before + counted + elements_reports(items@, here, items@.len()) =~= before
            + list_reports(items@, min, max, name@, path_model(path@)));
    }
}

} // verus!
