//! Document trees and the walker that validates them.
//!
//! A walk visits every node and reports every violation it finds, each with
//! the path of the field concerned.  It never stops at the first violation.

use vstd::prelude::*;
use crate::constraint::ConstraintSpec;
use crate::constraint::ScalarModel;
use crate::constraint::ScalarValue;
use crate::constraint::count_within;
use crate::constraint::length_within;
use crate::violation::PathSegment;
use crate::violation::ReportModel;
use crate::violation::SegmentModel;
use crate::violation::StructuralFault;
use crate::violation::StructuralFaultModel;
use crate::violation::ValidationViolation;
use crate::violation::Violation;
use crate::violation::ViolationModel;
use crate::violation::copy_path;
use crate::violation::extend_path;
use crate::violation::names_model;
use crate::violation::path_model;
use crate::violation::reports_model;

verus! {

/// A named field of a struct node.
pub struct Field {
    /// The serialized name of the field.
    pub name: String,
    /// The value of the field.
    pub node: DocumentTree,
}

/// A named alternative of a choice node.
pub struct Alternative {
    /// The serialized name of the alternative.
    pub name: String,
    /// The value of the alternative, where it is populated.
    pub value: Option<DocumentTree>,
}

/// A document, or a part of one.
pub enum DocumentTree {
    /// A scalar value with the constraints declared on it.
    Scalar { value: ScalarValue, constraints: Vec<ConstraintSpec> },
    /// A field that may be absent; a mandatory one must not be.
    Optional { mandatory: bool, value: Option<Box<DocumentTree>> },
    /// A repeated field with optional bounds on the number of its elements.
    List { min_items: Option<u64>, max_items: Option<u64>, items: Vec<DocumentTree> },
    /// A product of named fields, in declaration order.
    Struct { fields: Vec<Field> },
    /// A group of alternatives of which one is to be populated; an optional
    /// choice may also have none.
    Choice { optional: bool, alternatives: Vec<Alternative> },
}

/// The reports of the first `upto` constraints on a scalar, in declaration
/// order: one for each constraint that the value violates.
pub open spec fn scalar_reports(
    value: ScalarModel,
    constraints: Seq<ConstraintSpec>,
    path: Seq<SegmentModel>,
    upto: nat,
) -> Seq<ReportModel>
    decreases upto,
{
    if upto == 0 || upto > constraints.len() {
        Seq::empty()
    } else {
        let earlier = scalar_reports(value, constraints, path, (upto - 1) as nat);
        match constraints[upto - 1].verdict(value) {
            Some(violation) => earlier.push(ReportModel { path, violation }),
            None => earlier,
        }
    }
}

/// The names of the populated alternatives among the first `upto`, in
/// declaration order.
pub open spec fn populated_names(alternatives: Seq<Alternative>, upto: nat) -> Seq<Seq<char>>
    decreases upto,
{
    if upto == 0 || upto > alternatives.len() {
        Seq::empty()
    } else {
        let earlier = populated_names(alternatives, (upto - 1) as nat);
        if alternatives[upto - 1].value.is_some() {
            earlier.push(alternatives[upto - 1].name@)
        } else {
            earlier
        }
    }
}

impl DocumentTree {
    /// The number of direct children that a walk may descend into.
    pub open spec fn arity(self) -> nat {
        match self {
            DocumentTree::Scalar { .. } => 0,
            DocumentTree::Optional { .. } => 1,
            DocumentTree::List { items, .. } => items@.len(),
            DocumentTree::Struct { fields } => fields@.len(),
            DocumentTree::Choice { alternatives, .. } => alternatives@.len(),
        }
    }

    /// What the node itself reports, before any of its children is visited.
    pub open spec fn own_reports(self, path: Seq<SegmentModel>) -> Seq<ReportModel> {
        match self {
            DocumentTree::Scalar { value, constraints } => scalar_reports(
                value@,
                constraints@,
                path,
                constraints.len() as nat,
            ),
            DocumentTree::Optional { mandatory, value } => {
                if mandatory && value.is_none() {
                    seq![ReportModel { path, violation: ViolationModel::MissingField }]
                } else {
                    Seq::empty()
                }
            },
            DocumentTree::List { min_items, max_items, items } => {
                if length_within(items.len() as nat, min_items, max_items) {
                    Seq::empty()
                } else {
                    seq![
                        ReportModel {
                            path,
                            violation: ViolationModel::Length {
                                actual: items.len() as u64,
                                min: min_items,
                                max: max_items,
                            },
                        },
                    ]
                }
            },
            DocumentTree::Struct { .. } => Seq::empty(),
            DocumentTree::Choice { optional, alternatives } => {
                let present = populated_names(alternatives@, alternatives.len() as nat);
                if present.len() >= 2 {
                    seq![
                        ReportModel {
                            path,
                            violation: ViolationModel::Structure(
                                StructuralFaultModel::AmbiguousChoice { present },
                            ),
                        },
                    ]
                } else if present.len() == 0 && !optional {
                    seq![
                        ReportModel {
                            path,
                            violation: ViolationModel::Structure(
                                StructuralFaultModel::MissingChoice,
                            ),
                        },
                    ]
                } else {
                    Seq::empty()
                }
            },
        }
    }

    /// Everything a walk of the node reports: what the node itself reports,
    /// then what its children report, in declaration order.
    pub open spec fn reports(self, path: Seq<SegmentModel>) -> Seq<ReportModel>
        decreases self, self.arity() + 1,
    {
        self.own_reports(path) + self.children_reports(path, self.arity())
    }

    /// What the first `upto` children report.  A present optional value is
    /// walked under the path of its field; a struct field and a populated
    /// alternative under the path extended by their name; a list element
    /// under the path extended by its position.
    pub open spec fn children_reports(self, path: Seq<SegmentModel>, upto: nat) -> Seq<ReportModel>
        decreases self, upto,
    {
        if upto == 0 || upto > self.arity() {
            Seq::empty()
        } else {
            let earlier = self.children_reports(path, (upto - 1) as nat);
            let position = (upto - 1) as int;
            match self {
                DocumentTree::Scalar { .. } => earlier,
                DocumentTree::Optional { value, .. } => match value {
                    Some(inner) => earlier + (*inner).reports(path),
                    None => earlier,
                },
                DocumentTree::List { items, .. } => earlier + items[position].reports(
                    path.push(SegmentModel::Index(position as nat)),
                ),
                DocumentTree::Struct { fields } => earlier + fields[position].node.reports(
                    path.push(SegmentModel::Field(fields[position].name@)),
                ),
                DocumentTree::Choice { alternatives, .. } => match alternatives[position].value {
                    Some(inner) => earlier + inner.reports(
                        path.push(SegmentModel::Field(alternatives[position].name@)),
                    ),
                    None => earlier,
                },
            }
        }
    }
}

/// Appending one report to a list appends its model to the list's model.
proof fn lemma_model_of_push(reports: Seq<ValidationViolation>, report: ValidationViolation)
    ensures
        reports_model(reports.push(report)) == reports_model(reports).push(report@),
{
    assert(reports_model(reports.push(report)) =~= reports_model(reports).push(report@));
}

/// Collects the names of the populated alternatives, in declaration order.
fn populated(alternatives: &Vec<Alternative>) -> (present: Vec<String>)
    ensures
        names_model(present@) == populated_names(alternatives@, alternatives.len() as nat),
{
    let mut present: Vec<String> = Vec::new();
    let mut i: usize = 0;
    while i < alternatives.len()
        invariant
            i <= alternatives.len(),
            names_model(present@) == populated_names(alternatives@, i as nat),
        decreases alternatives.len() - i,
    {
        if alternatives[i].value.is_some() {
            let ghost earlier = present@;
            present.push(alternatives[i].name.clone());
            proof {
                assert(names_model(present@) =~= names_model(earlier).push(alternatives[i as int].name@));
            }
        }
        i += 1;
    }
    present
}

/// Appends to `out` what the node itself reports.
fn report_own(node: &DocumentTree, path: &Vec<PathSegment>, out: &mut Vec<ValidationViolation>)
    ensures
        reports_model(final(out)@) == reports_model(old(out)@) + node.own_reports(path_model(path@)),
{
    let ghost before = reports_model(out@);
    let ghost here = path_model(path@);
    match node {
        DocumentTree::Scalar { value, constraints } => {
            let mut i: usize = 0;
            proof {
                assert(reports_model(out@) =~= before + scalar_reports(value@, constraints@, here, 0));
            }
            while i < constraints.len()
                invariant
                    i <= constraints.len(),
                    here == path_model(path@),
                    reports_model(out@) == before + scalar_reports(
                        value@,
                        constraints@,
                        here,
                        i as nat,
                    ),
                decreases constraints.len() - i,
            {
                match constraints[i].evaluate(value) {
                    Some(violation) => {
                        let report = ValidationViolation { path: copy_path(path), violation };
                        proof {
                            lemma_model_of_push(out@, report);
                            assert(before + scalar_reports(value@, constraints@, here, i as nat).push(
                                report@,
                            ) =~= (before + scalar_reports(
                                value@,
                                constraints@,
                                here,
                                i as nat,
                            )).push(report@));
                        }
                        out.push(report);
                    },
                    None => {},
                }
                i += 1;
            }
        },
        DocumentTree::Optional { mandatory, value } => {
            if *mandatory && value.is_none() {
                let report = ValidationViolation {
                    path: copy_path(path),
                    violation: Violation::MissingField,
                };
                proof {
                    lemma_model_of_push(out@, report);
                    assert(before.push(report@) =~= before + seq![report@]);
                }
                out.push(report);
            } else {
                proof {
                    assert(before =~= before + Seq::<ReportModel>::empty());
                }
            }
        },
        DocumentTree::List { min_items, max_items, items } => {
            let count = items.len() as u64;
            if !count_within(count, *min_items, *max_items) {
                let report = ValidationViolation {
                    path: copy_path(path),
                    violation: Violation::Length {
                        actual: count,
                        min: *min_items,
                        max: *max_items,
                    },
                };
                proof {
                    lemma_model_of_push(out@, report);
                    assert(before.push(report@) =~= before + seq![report@]);
                }
                out.push(report);
            } else {
                proof {
                    assert(before =~= before + Seq::<ReportModel>::empty());
                }
            }
        },
        DocumentTree::Struct { .. } => {
            proof {
                assert(before =~= before + Seq::<ReportModel>::empty());
            }
        },
        DocumentTree::Choice { optional, alternatives } => {
            let present = populated(alternatives);
            if present.len() >= 2 {
                let report = ValidationViolation {
                    path: copy_path(path),
                    violation: Violation::Structure(StructuralFault::AmbiguousChoice { present }),
                };
                proof {
                    lemma_model_of_push(out@, report);
                    assert(before.push(report@) =~= before + seq![report@]);
                }
                out.push(report);
            } else if present.len() == 0 && !*optional {
                let report = ValidationViolation {
                    path: copy_path(path),
                    violation: Violation::Structure(StructuralFault::MissingChoice),
                };
                proof {
                    lemma_model_of_push(out@, report);
                    assert(before.push(report@) =~= before + seq![report@]);
                }
                out.push(report);
            } else {
                proof {
                    assert(before =~= before + Seq::<ReportModel>::empty());
                }
            }
        },
    }
}

/// Appends to `out` everything a walk of `node` reports.
fn validate_into(node: &DocumentTree, path: &Vec<PathSegment>, out: &mut Vec<ValidationViolation>)
    ensures
        reports_model(final(out)@) == reports_model(old(out)@) + node.reports(path_model(path@)),
    decreases *node,
{
    let ghost before = reports_model(out@);
    let ghost here = path_model(path@);
    report_own(node, path, out);
    let ghost own = node.own_reports(here);
    proof {
        assert(reports_model(out@) =~= before + own + node.children_reports(here, 0));
    }
    match node {
        DocumentTree::Scalar { .. } => {},
        DocumentTree::Optional { value, .. } => {
            match value {
                Some(inner) => {
                    validate_into(inner, path, out);
                    proof {
                        assert(reports_model(out@) =~= before + own + node.children_reports(
                            here,
                            1,
                        ));
                    }
                },
                None => {},
            }
        },
        DocumentTree::List { items, .. } => {
            let mut i: usize = 0;
            while i < items.len()
                invariant
                    i <= items.len(),
                    here == path_model(path@),
                    node matches DocumentTree::List { items: all, .. } && all == items,
                    reports_model(out@) == before + own + node.children_reports(here, i as nat),
                decreases items.len() - i,
            {
                let inner_path = extend_path(path, PathSegment::Index(i));
                validate_into(&items[i], &inner_path, out);
                proof {
                    assert(reports_model(out@) =~= before + own + node.children_reports(
                        here,
                        (i + 1) as nat,
                    ));
                }
                i += 1;
            }
        },
        DocumentTree::Struct { fields } => {
            let mut i: usize = 0;
            while i < fields.len()
                invariant
                    i <= fields.len(),
                    here == path_model(path@),
                    node matches DocumentTree::Struct { fields: all } && all == fields,
                    reports_model(out@) == before + own + node.children_reports(here, i as nat),
                decreases fields.len() - i,
            {
                let inner_path = extend_path(path, PathSegment::Field(fields[i].name.clone()));
                validate_into(&fields[i].node, &inner_path, out);
                proof {
                    assert(reports_model(out@) =~= before + own + node.children_reports(
                        here,
                        (i + 1) as nat,
                    ));
                }
                i += 1;
            }
        },
        DocumentTree::Choice { alternatives, .. } => {
            let mut i: usize = 0;
            while i < alternatives.len()
                invariant
                    i <= alternatives.len(),
                    here == path_model(path@),
                    node matches DocumentTree::Choice { alternatives: all, .. } && all
                        == alternatives,
                    reports_model(out@) == before + own + node.children_reports(here, i as nat),
                decreases alternatives.len() - i,
            {
                match &alternatives[i].value {
                    Some(inner) => {
                        let inner_path = extend_path(
                            path,
                            PathSegment::Field(alternatives[i].name.clone()),
                        );
                        validate_into(inner, &inner_path, out);
                        proof {
                            assert(reports_model(out@) =~= before + own + node.children_reports(
                                here,
                                (i + 1) as nat,
                            ));
                        }
                    },
                    None => {},
                }
                i += 1;
            }
        },
    }
}

/// Walks `node`, which stands at `path` in its document, and returns every
/// violation found in it, in declaration order.
pub fn validate(node: &DocumentTree, path: &Vec<PathSegment>) -> (reports: Vec<ValidationViolation>)
    ensures
        reports_model(reports@) == node.reports(path_model(path@)),
{
    let mut reports: Vec<ValidationViolation> = Vec::new();
    validate_into(node, path, &mut reports);
    proof {
        assert(reports_model(Seq::<ValidationViolation>::empty()) =~= Seq::<ReportModel>::empty());
        assert(Seq::<ReportModel>::empty() + node.reports(path_model(path@)) =~= node.reports(
            path_model(path@),
        ));
    }
    reports
}

/// A walk is repeatable: two walks of the same node under the same path
/// report the same violations in the same order.
pub proof fn law_validation_is_repeatable(
    node: DocumentTree,
    path: Seq<PathSegment>,
    first: Seq<ValidationViolation>,
    second: Seq<ValidationViolation>,
)
    requires
        reports_model(first) == node.reports(path_model(path)),
        reports_model(second) == node.reports(path_model(path)),
    ensures
        reports_model(first) == reports_model(second),
        first.len() == second.len(),
        forall|i: int| 0 <= i < first.len() ==> first[i]@ == second[i]@,
{
    assert(reports_model(first).len() == first.len());
    assert(reports_model(second).len() == second.len());
    assert forall|i: int| 0 <= i < first.len() implies first[i]@ == second[i]@ by {
        assert(reports_model(first)[i] == first[i]@);
        assert(reports_model(second)[i] == second[i]@);
    }
}

/// An absent mandatory field is reported exactly once, at the field's path.
pub proof fn law_missing_mandatory_field(node: DocumentTree, path: Seq<SegmentModel>)
    requires
        node matches DocumentTree::Optional { mandatory, value } && mandatory && value.is_none(),
    ensures
        node.reports(path) == seq![ReportModel { path, violation: ViolationModel::MissingField }],
{
    assert(node.children_reports(path, 1) =~= Seq::empty()) by {
        assert(node.children_reports(path, 0) =~= Seq::empty());
    }
    assert(node.reports(path) =~= seq![
        ReportModel { path, violation: ViolationModel::MissingField },
    ]);
}

/// An absent mandatory field of a struct adds exactly one report to what
/// the fields before it report: that the field is missing, at the path of
/// the struct extended by the field's name.
pub proof fn law_missing_field_in_struct(node: DocumentTree, path: Seq<SegmentModel>, position: int)
    requires
        node is Struct,
        0 <= position < node.arity(),
        node->Struct_fields@[position].node matches DocumentTree::Optional { mandatory, value }
            && mandatory && value.is_none(),
    ensures
        node.children_reports(path, (position + 1) as nat) == node.children_reports(
            path,
            position as nat,
        ).push(
            ReportModel {
                path: path.push(SegmentModel::Field(node->Struct_fields@[position].name@)),
                violation: ViolationModel::MissingField,
            },
        ),
{
    let field = node->Struct_fields@[position];
    let inner = path.push(SegmentModel::Field(field.name@));
    law_missing_mandatory_field(field.node, inner);
    law_struct_reports_accumulate(node, path, position);
    assert(node.children_reports(path, position as nat) + seq![
        ReportModel { path: inner, violation: ViolationModel::MissingField },
    ] =~= node.children_reports(path, position as nat).push(
        ReportModel { path: inner, violation: ViolationModel::MissingField },
    ));
}

/// The reports of a struct are the reports of its fields, one field after
/// the other in declaration order, each under the path extended by the
/// field's name: what one field reports is added to, and does not replace,
/// what the fields before it report.
pub proof fn law_struct_reports_accumulate(node: DocumentTree, path: Seq<SegmentModel>, position: int)
    requires
        node is Struct,
        0 <= position < node.arity(),
    ensures
        node.children_reports(path, (position + 1) as nat) == node.children_reports(
            path,
            position as nat,
        ) + node->Struct_fields@[position].node.reports(
            path.push(SegmentModel::Field(node->Struct_fields@[position].name@)),
        ),
        node.reports(path) == node.children_reports(path, node.arity()),
{
    assert(node.reports(path) =~= node.children_reports(path, node.arity()));
}

} // verus!
