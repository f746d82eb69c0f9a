//! Violations: what a failed check reports, and where in the document.

use vstd::prelude::*;
use vstd::string::StringExecFns;
use crate::decimal::Decimal;

verus! {

/// One step of a field path: a named field, or a position in a repeated field.
#[derive(Debug, Clone, PartialEq, Eq)]
pub enum PathSegment {
    Field(String),
    Index(usize),
}

/// The mathematical value of a [`PathSegment`].
pub enum SegmentModel {
    Field(Seq<char>),
    Index(nat),
}

impl View for PathSegment {
    type V = SegmentModel;

    open spec fn view(&self) -> SegmentModel {
        match *self {
            PathSegment::Field(name) => SegmentModel::Field(name@),
            PathSegment::Index(position) => SegmentModel::Index(position as nat),
        }
    }
}

/// The mathematical value of a field path.
pub open spec fn path_model(path: Seq<PathSegment>) -> Seq<SegmentModel> {
    path.map_values(|segment: PathSegment| segment@)
}

/// The mathematical value of a list of names.
pub open spec fn names_model(names: Seq<String>) -> Seq<Seq<char>> {
    names.map_values(|name: String| name@)
}

impl PathSegment {
    /// A copy of the segment.
    pub fn duplicate(&self) -> (copy: PathSegment)
        ensures
            copy@ == self@,
    {
        match self {
            PathSegment::Field(name) => PathSegment::Field(name.clone()),
            PathSegment::Index(position) => PathSegment::Index(*position),
        }
    }
}

/// A copy of `path`.
pub fn copy_path(path: &Vec<PathSegment>) -> (copy: Vec<PathSegment>)
    ensures
        path_model(copy@) == path_model(path@),
{
    let mut copy: Vec<PathSegment> = Vec::new();
    let mut i: usize = 0;
    while i < path.len()
        invariant
            i <= path.len(),
            copy@.len() == i,
            forall|j: int| 0 <= j < i ==> copy@[j]@ == path@[j]@,
        decreases path.len() - i,
    {
        copy.push(path[i].duplicate());
        i += 1;
    }
    proof {
        assert(path_model(copy@) =~= path_model(path@));
    }
    copy
}

/// `path` with `segment` appended.
pub fn extend_path(path: &Vec<PathSegment>, segment: PathSegment) -> (longer: Vec<PathSegment>)
    ensures
        path_model(longer@) == path_model(path@).push(segment@),
{
    let mut longer = copy_path(path);
    longer.push(segment);
    proof {
        assert(path_model(longer@) =~= path_model(path@).push(segment@));
    }
    longer
}

/// A defect in the shape of a document, as opposed to the content of a field.
#[derive(Debug, Clone, PartialEq, Eq)]
pub enum StructuralFault {
    /// More than one alternative of a choice is populated; `present` names
    /// them in declaration order.
    AmbiguousChoice { present: Vec<String> },
    /// No alternative of a mandatory choice is populated.
    MissingChoice,
    /// A constraint was declared on a value of a kind it cannot apply to.
    KindMismatch,
}

/// The mathematical value of a [`StructuralFault`].
pub enum StructuralFaultModel {
    AmbiguousChoice { present: Seq<Seq<char>> },
    MissingChoice,
    KindMismatch,
}

impl View for StructuralFault {
    type V = StructuralFaultModel;

    open spec fn view(&self) -> StructuralFaultModel {
        match *self {
            StructuralFault::AmbiguousChoice { present } => StructuralFaultModel::AmbiguousChoice {
                present: names_model(present@),
            },
            StructuralFault::MissingChoice => StructuralFaultModel::MissingChoice,
            StructuralFault::KindMismatch => StructuralFaultModel::KindMismatch,
        }
    }
}

/// Why a value was rejected.
#[derive(Debug, Clone, PartialEq, Eq)]
pub enum Violation {
    /// The number of characters lies outside the declared bounds.
    Length { actual: u64, min: Option<u64>, max: Option<u64> },
    /// The number lies outside the declared bounds.
    Range { actual: Decimal, min: Option<Decimal>, max: Option<Decimal> },
    /// The pattern does not match the entire value.
    Pattern { actual: String, pattern: String },
    /// A mandatory field is absent.
    MissingField,
    /// The document is malformed.
    Structure(StructuralFault),
}

/// The mathematical value of a [`Violation`].
pub enum ViolationModel {
    Length { actual: u64, min: Option<u64>, max: Option<u64> },
    Range { actual: Decimal, min: Option<Decimal>, max: Option<Decimal> },
    Pattern { actual: Seq<char>, pattern: Seq<char> },
    MissingField,
    Structure(StructuralFaultModel),
}

impl View for Violation {
    type V = ViolationModel;

    open spec fn view(&self) -> ViolationModel {
        match *self {
            Violation::Length { actual, min, max } => ViolationModel::Length { actual, min, max },
            Violation::Range { actual, min, max } => ViolationModel::Range { actual, min, max },
            Violation::Pattern { actual, pattern } => ViolationModel::Pattern {
                actual: actual@,
                pattern: pattern@,
            },
            Violation::MissingField => ViolationModel::MissingField,
            Violation::Structure(fault) => ViolationModel::Structure(fault@),
        }
    }
}

/// The constraint category of a violation.
#[derive(Debug, Clone, Copy, PartialEq, Eq, Structural)]
pub enum ViolationKind {
    Length,
    Range,
    Pattern,
    MissingField,
    Structure,
}

/// The category that a violation model belongs to.
pub open spec fn kind_of(violation: ViolationModel) -> ViolationKind {
    match violation {
        ViolationModel::Length { .. } => ViolationKind::Length,
        ViolationModel::Range { .. } => ViolationKind::Range,
        ViolationModel::Pattern { .. } => ViolationKind::Pattern,
        ViolationModel::MissingField => ViolationKind::MissingField,
        ViolationModel::Structure(_) => ViolationKind::Structure,
    }
}

/// The text that describes a category to a reader.
pub open spec fn kind_message(kind: ViolationKind) -> Seq<char> {
    match kind {
        ViolationKind::Length => "length is outside the declared bounds"@,
        ViolationKind::Range => "number is outside the declared bounds"@,
        ViolationKind::Pattern => "value does not match the declared pattern"@,
        ViolationKind::MissingField => "mandatory field is absent"@,
        ViolationKind::Structure => "document structure is malformed"@,
    }
}

impl Violation {
    /// The constraint category of this violation.
    pub fn kind(&self) -> (kind: ViolationKind)
        ensures
            kind == kind_of(self@),
    {
        match self {
            Violation::Length { .. } => ViolationKind::Length,
            Violation::Range { .. } => ViolationKind::Range,
            Violation::Pattern { .. } => ViolationKind::Pattern,
            Violation::MissingField => ViolationKind::MissingField,
            Violation::Structure(_) => ViolationKind::Structure,
        }
    }

    /// A sentence for a human reader, fixed per category.
    pub fn message(&self) -> (text: String)
        ensures
            text@ == kind_message(kind_of(self@)),
    {
        match self {
            Violation::Length { .. } => String::from_str("length is outside the declared bounds"),
            Violation::Range { .. } => String::from_str("number is outside the declared bounds"),
            Violation::Pattern { .. } => String::from_str(
                "value does not match the declared pattern",
            ),
            Violation::MissingField => String::from_str("mandatory field is absent"),
            Violation::Structure(_) => String::from_str("document structure is malformed"),
        }
    }
}

/// A violation together with the path of the field it was found at.
#[derive(Debug, Clone, PartialEq, Eq)]
pub struct ValidationViolation {
    /// The path from the document root to the offending field.
    pub path: Vec<PathSegment>,
    /// What was wrong there.
    pub violation: Violation,
}

/// The mathematical value of a [`ValidationViolation`].
pub struct ReportModel {
    pub path: Seq<SegmentModel>,
    pub violation: ViolationModel,
}

impl View for ValidationViolation {
    type V = ReportModel;

    open spec fn view(&self) -> ReportModel {
        ReportModel { path: path_model(self.path@), violation: self.violation@ }
    }
}

/// The mathematical value of a list of reported violations.
pub open spec fn reports_model(reports: Seq<ValidationViolation>) -> Seq<ReportModel> {
    reports.map_values(|report: ValidationViolation| report@)
}

} // verus!
