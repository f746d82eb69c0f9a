//! The codec for choices: groups of fields of which one is populated.
//!
//! In serialized form a choice is flat: its populated alternative appears as
//! one key among the keys of the enclosing element.  Decoding finds which of
//! the known alternatives is present and refuses input in which none of a
//! mandatory choice, or more than one, is; it never picks one of several.

use vstd::prelude::*;
use vstd::string::StringExecFns;
use crate::constraint::ConstraintSpec;
use crate::constraint::ScalarModel;
use crate::constraint::ScalarValue;
use crate::violation::Violation;
use crate::violation::ViolationModel;
use crate::violation::names_model;

verus! {

/// One key of a flat mapping with its raw value.
#[derive(Debug, Clone, PartialEq, Eq)]
pub struct FlatEntry {
    pub name: String,
    pub value: String,
}

/// A flat keyed mapping.  Where a key occurs more than once, its first entry
/// counts.
#[derive(Debug, Clone, PartialEq, Eq)]
pub struct FlatMapping {
    pub entries: Vec<FlatEntry>,
}

/// The raw value that the first `upto` entries hold for `key`.
pub open spec fn lookup_among(entries: Seq<FlatEntry>, key: Seq<char>, upto: nat) -> Option<
    Seq<char>,
>
    decreases upto,
{
    if upto == 0 || upto > entries.len() {
        None
    } else {
        match lookup_among(entries, key, (upto - 1) as nat) {
            Some(value) => Some(value),
            None => if entries[upto - 1].name@ == key {
                Some(entries[upto - 1].value@)
            } else {
                None
            },
        }
    }
}

impl FlatMapping {
    /// The raw value held for `key`, if any.
    pub open spec fn lookup(&self, key: Seq<char>) -> Option<Seq<char>> {
        lookup_among(self.entries@, key, self.entries@.len())
    }

    /// The mapping without entries.
    pub fn new() -> (mapping: FlatMapping)
        ensures
            mapping.entries@.len() == 0,
    {
        FlatMapping { entries: Vec::new() }
    }

    /// Appends an entry.
    pub fn insert(&mut self, name: &str, value: &str)
        ensures
            final(self).entries@.len() == old(self).entries@.len() + 1,
            final(self).entries@.take(old(self).entries@.len() as int) == old(self).entries@,
            final(self).entries@.last().name@ == name@,
            final(self).entries@.last().value@ == value@,
    {
        let ghost before = self.entries@;
        self.entries.push(FlatEntry { name: String::from_str(name), value: String::from_str(value) });
        proof {
            assert(self.entries@.take(before.len() as int) =~= before);
        }
    }

    /// The raw value held for `key`, if any.
    pub fn get(&self, key: &str) -> (found: Option<&String>)
        ensures
            match found {
                Some(value) => self.lookup(key@) == Some(value@),
                None => self.lookup(key@).is_none(),
            },
    {
        let wanted = String::from_str(key);
        let mut found: Option<&String> = None;
        let mut i: usize = 0;
        while i < self.entries.len()
            invariant
                i <= self.entries.len(),
                wanted@ == key@,
                match found {
                    Some(value) => lookup_among(self.entries@, key@, i as nat) == Some(value@),
                    None => lookup_among(self.entries@, key@, i as nat).is_none(),
                },
            decreases self.entries.len() - i,
        {
            if found.is_none() && self.entries[i].name == wanted {
                found = Some(&self.entries[i].value);
            }
            i += 1;
        }
        found
    }
}

/// One alternative of a choice: its key, and the constraints on its value.
pub struct AlternativeSpec {
    pub name: String,
    pub constraints: Vec<ConstraintSpec>,
}

/// The alternatives of a choice, and whether one of them must be populated.
pub struct ChoiceSchema {
    pub alternatives: Vec<AlternativeSpec>,
    pub mandatory: bool,
}

/// A choice: either no alternative, or one alternative with its value.
#[derive(Debug, Clone, PartialEq, Eq)]
pub enum ChoiceValue {
    Absent,
    Selected { name: String, value: String },
}

/// The mathematical value of a [`ChoiceValue`].
pub enum ChoiceModel {
    Absent,
    Selected { name: Seq<char>, value: Seq<char> },
}

impl View for ChoiceValue {
    type V = ChoiceModel;

    open spec fn view(&self) -> ChoiceModel {
        match *self {
            ChoiceValue::Absent => ChoiceModel::Absent,
            ChoiceValue::Selected { name, value } => ChoiceModel::Selected {
                name: name@,
                value: value@,
            },
        }
    }
}

/// Why a flat mapping could not be decoded.
#[derive(Debug, Clone, PartialEq, Eq)]
pub enum DecodeError {
    /// No alternative of a mandatory choice is present.
    MissingChoice,
    /// Several alternatives are present; `present_keys` names them in
    /// declaration order.
    AmbiguousChoice { present_keys: Vec<String> },
    /// The value of the one present alternative violates a constraint.
    Nested { alternative: String, violation: Violation },
}

/// The mathematical value of a [`DecodeError`].
pub enum DecodeErrorModel {
    MissingChoice,
    AmbiguousChoice { present_keys: Seq<Seq<char>> },
    Nested { alternative: Seq<char>, violation: ViolationModel },
}

impl View for DecodeError {
    type V = DecodeErrorModel;

    open spec fn view(&self) -> DecodeErrorModel {
        match *self {
            DecodeError::MissingChoice => DecodeErrorModel::MissingChoice,
            DecodeError::AmbiguousChoice { present_keys } => DecodeErrorModel::AmbiguousChoice {
                present_keys: names_model(present_keys@),
            },
            DecodeError::Nested { alternative, violation } => DecodeErrorModel::Nested {
                alternative: alternative@,
                violation: violation@,
            },
        }
    }
}

/// Why a choice could not be encoded.
#[derive(Debug, Clone, Copy, PartialEq, Eq, Structural)]
pub enum EncodeError {
    /// A mandatory choice has no alternative populated.
    MissingChoice,
    /// The populated alternative is not one of the choice's alternatives.
    UnknownAlternative,
}

/// The first violation among the constraints from position `from` on, in
/// declaration order.
pub open spec fn first_violation(constraints: Seq<ConstraintSpec>, text: Seq<char>, from: nat) -> Option<
    ViolationModel,
>
    decreases constraints.len() - from,
{
    if from >= constraints.len() {
        None
    } else {
        match constraints[from as int].verdict(ScalarModel::Text(text)) {
            Some(violation) => Some(violation),
            None => first_violation(constraints, text, from + 1),
        }
    }
}

/// The positions, among the first `upto` alternatives, of those whose key
/// the mapping holds.
pub open spec fn present_positions(
    alternatives: Seq<AlternativeSpec>,
    flat: FlatMapping,
    upto: nat,
) -> Seq<int>
    decreases upto,
{
    if upto == 0 || upto > alternatives.len() {
        Seq::empty()
    } else {
        let earlier = present_positions(alternatives, flat, (upto - 1) as nat);
        if flat.lookup(alternatives[upto - 1].name@).is_some() {
            earlier.push(upto - 1)
        } else {
            earlier
        }
    }
}

/// The keys of the alternatives at the given positions.
pub open spec fn keys_at(alternatives: Seq<AlternativeSpec>, positions: Seq<int>) -> Seq<Seq<char>> {
    positions.map_values(|position: int| alternatives[position].name@)
}

impl ChoiceSchema {
    /// No two alternatives share a key.
    pub open spec fn distinct_keys(&self) -> bool {
        forall|i: int, j: int|
            0 <= i < j < self.alternatives@.len() ==> self.alternatives@[i].name@
                != self.alternatives@[j].name@
    }

    /// Whether `key` is the key of one of the alternatives.
    pub open spec fn knows(&self, key: Seq<char>) -> bool {
        exists|i: int| 0 <= i < self.alternatives@.len() && self.alternatives@[i].name@ == key
    }

    /// Whether the choice is one that this schema admits with a conforming
    /// value: absent, or a known alternative whose value violates none of
    /// the alternative's constraints.
    pub open spec fn admits(&self, choice: ChoiceModel) -> bool {
        match choice {
            ChoiceModel::Absent => !self.mandatory,
            ChoiceModel::Selected { name, value } => exists|i: int|
                0 <= i < self.alternatives@.len() && self.alternatives@[i].name@ == name
                    && first_violation(#[trigger] self.alternatives@[i].constraints@, value, 0).is_none(),
        }
    }

    /// What decoding `flat` gives.
    pub open spec fn decoded(&self, flat: FlatMapping) -> Result<ChoiceModel, DecodeErrorModel> {
        let present = present_positions(self.alternatives@, flat, self.alternatives@.len());
        if present.len() == 0 {
            if self.mandatory {
                Err(DecodeErrorModel::MissingChoice)
            } else {
                Ok(ChoiceModel::Absent)
            }
        } else if present.len() >= 2 {
            Err(
                DecodeErrorModel::AmbiguousChoice {
                    present_keys: keys_at(self.alternatives@, present),
                },
            )
        } else {
            let chosen = self.alternatives@[present[0]];
            let value = flat.lookup(chosen.name@).unwrap();
            match first_violation(chosen.constraints@, value, 0) {
                Some(violation) => Err(
                    DecodeErrorModel::Nested { alternative: chosen.name@, violation },
                ),
                None => Ok(ChoiceModel::Selected { name: chosen.name@, value }),
            }
        }
    }

    /// What encoding `choice` gives: no entry for an absent optional choice,
    /// one entry for a populated known alternative.
    pub open spec fn encoded(&self, choice: ChoiceModel) -> Result<Seq<(Seq<char>, Seq<char>)>, EncodeError> {
        match choice {
            ChoiceModel::Absent => if self.mandatory {
                Err(EncodeError::MissingChoice)
            } else {
                Ok(Seq::empty())
            },
            ChoiceModel::Selected { name, value } => if self.knows(name) {
                Ok(seq![(name, value)])
            } else {
                Err(EncodeError::UnknownAlternative)
            },
        }
    }
}

impl ChoiceSchema {
    /// Whether no two alternatives share a key.
    pub fn has_distinct_keys(&self) -> (distinct: bool)
        ensures
            distinct == self.distinct_keys(),
    {
        let mut j: usize = 0;
        while j < self.alternatives.len()
            invariant
                j <= self.alternatives.len(),
                forall|a: int, b: int|
                    0 <= a < b < j ==> self.alternatives@[a].name@ != self.alternatives@[b].name@,
            decreases self.alternatives.len() - j,
        {
            let mut i: usize = 0;
            while i < j
                invariant
                    i <= j < self.alternatives.len(),
                    forall|a: int|
                        0 <= a < i ==> self.alternatives@[a].name@ != self.alternatives@[j as int].name@,
                decreases j - i,
            {
                if self.alternatives[i].name == self.alternatives[j].name {
                    return false;
                }
                i += 1;
            }
            j += 1;
        }
        true
    }

    /// Whether the schema admits `choice`: an absent choice where the schema
    /// is optional, a populated one where the alternative is known and its
    /// value violates none of the alternative's constraints.
    pub fn admits_choice(&self, choice: &ChoiceValue) -> (admitted: bool)
        ensures
            admitted == self.admits(choice@),
    {
        match choice {
            ChoiceValue::Absent => !self.mandatory,
            ChoiceValue::Selected { name, value } => {
                let mut i: usize = 0;
                while i < self.alternatives.len()
                    invariant
                        i <= self.alternatives.len(),
                        choice@ == (ChoiceModel::Selected { name: name@, value: value@ }),
                        forall|k: int|
                            0 <= k < i ==> !(self.alternatives@[k].name@ == name@ && first_violation(
                                #[trigger] self.alternatives@[k].constraints@,
                                value@,
                                0,
                            ).is_none()),
                    decreases self.alternatives.len() - i,
                {
                    if self.alternatives[i].name == *name {
                        if check_all(&self.alternatives[i].constraints, value.as_str()).is_none() {
                            return true;
                        }
                    }
                    i += 1;
                }
                false
            },
        }
    }
}

/// The entries of a mapping as pairs of key and raw value.
pub open spec fn entries_model(entries: Seq<FlatEntry>) -> Seq<(Seq<char>, Seq<char>)> {
    entries.map_values(|entry: FlatEntry| (entry.name@, entry.value@))
}

/// The positions of a list of indices as mathematical integers.
pub open spec fn positions_model(positions: Seq<usize>) -> Seq<int> {
    positions.map_values(|position: usize| position as int)
}

/// Finds the first violation of `constraints` by `text`, in declaration order.
pub fn check_all(constraints: &Vec<ConstraintSpec>, text: &str) -> (res: Option<Violation>)
    ensures
        match res {
            Some(violation) => first_violation(constraints@, text@, 0) == Some(violation@),
            None => first_violation(constraints@, text@, 0).is_none(),
        },
{
    let scalar = ScalarValue::Text(String::from_str(text));
    let mut i: usize = 0;
    while i < constraints.len()
        invariant
            i <= constraints.len(),
            scalar@ == ScalarModel::Text(text@),
            first_violation(constraints@, text@, 0) == first_violation(constraints@, text@, i as nat),
        decreases constraints.len() - i,
    {
        match constraints[i].evaluate(&scalar) {
            Some(violation) => {
                return Some(violation);
            },
            None => {},
        }
        i += 1;
    }
    None
}

/// Decodes the choice described by `schema` from `flat`.  Keys of `flat`
/// that are not alternatives of the choice are left alone.
pub fn decode(schema: &ChoiceSchema, flat: &FlatMapping) -> (res: Result<ChoiceValue, DecodeError>)
    ensures
        match res {
            Ok(choice) => schema.decoded(*flat) == Ok::<ChoiceModel, DecodeErrorModel>(choice@),
            Err(error) => schema.decoded(*flat) == Err::<ChoiceModel, DecodeErrorModel>(error@),
        },
{
    let alternatives = &schema.alternatives;
    let mut present: Vec<usize> = Vec::new();
    let mut i: usize = 0;
    while i < alternatives.len()
        invariant
            i <= alternatives.len(),
            forall|k: int| 0 <= k < present@.len() ==> present@[k] < i,
            positions_model(present@) == present_positions(alternatives@, *flat, i as nat),
        decreases alternatives.len() - i,
    {
        if flat.get(alternatives[i].name.as_str()).is_some() {
            let ghost earlier = present@;
            present.push(i);
            proof {
                assert(positions_model(present@) =~= positions_model(earlier).push(i as int));
            }
        }
        i += 1;
    }
    if present.len() == 0 {
        if schema.mandatory {
            Err(DecodeError::MissingChoice)
        } else {
            Ok(ChoiceValue::Absent)
        }
    } else if present.len() >= 2 {
        let mut present_keys: Vec<String> = Vec::new();
        let mut k: usize = 0;
        while k < present.len()
            invariant
                k <= present.len(),
                forall|p: int| 0 <= p < present@.len() ==> present@[p] < alternatives@.len(),
                present_keys@.len() == k,
                forall|p: int|
                    0 <= p < k ==> present_keys@[p]@ == alternatives@[present@[p] as int].name@,
            decreases present.len() - k,
        {
            present_keys.push(alternatives[present[k]].name.clone());
            k += 1;
        }
        proof {
            assert(names_model(present_keys@) =~= keys_at(
                alternatives@,
                positions_model(present@),
            ));
        }
        Err(DecodeError::AmbiguousChoice { present_keys })
    } else {
        let chosen = &alternatives[present[0]];
        proof {
            assert(positions_model(present@)[0] == present@[0] as int);
        }
        match flat.get(chosen.name.as_str()) {
            Some(value) => match check_all(&chosen.constraints, value.as_str()) {
                Some(violation) => Err(
                    DecodeError::Nested { alternative: chosen.name.clone(), violation },
                ),
                None => Ok(
                    ChoiceValue::Selected { name: chosen.name.clone(), value: value.clone() },
                ),
            },
            None => {
                proof {
                    lemma_present_is_held(alternatives@, *flat, alternatives@.len(), 0);
                }
                Err(DecodeError::MissingChoice)
            },
        }
    }
}

/// Encodes `choice` as the entries it contributes to the enclosing element.
pub fn encode(schema: &ChoiceSchema, choice: &ChoiceValue) -> (res: Result<FlatMapping, EncodeError>)
    ensures
        match res {
            Ok(flat) => schema.encoded(choice@) == Ok::<Seq<(Seq<char>, Seq<char>)>, EncodeError>(
                entries_model(flat.entries@),
            ),
            Err(error) => schema.encoded(choice@) == Err::<Seq<(Seq<char>, Seq<char>)>, EncodeError>(
                error,
            ),
        },
{
    match choice {
        ChoiceValue::Absent => {
            if schema.mandatory {
                Err(EncodeError::MissingChoice)
            } else {
                let flat = FlatMapping::new();
                proof {
                    assert(entries_model(flat.entries@) =~= Seq::empty());
                }
                Ok(flat)
            }
        },
        ChoiceValue::Selected { name, value } => {
            let mut i: usize = 0;
            while i < schema.alternatives.len()
                invariant
                    i <= schema.alternatives.len(),
                    choice@ == (ChoiceModel::Selected { name: name@, value: value@ }),
                    forall|k: int| 0 <= k < i ==> schema.alternatives@[k].name@ != name@,
                decreases schema.alternatives.len() - i,
            {
                if schema.alternatives[i].name == *name {
                    let mut flat = FlatMapping::new();
                    flat.insert(name.as_str(), value.as_str());
                    proof {
                        assert(schema.alternatives@[i as int].name@ == name@);
                        assert(schema.knows(name@));
                        assert(entries_model(flat.entries@) =~= seq![(name@, value@)]);
                    }
                    return Ok(flat);
                }
                i += 1;
            }
            Err(EncodeError::UnknownAlternative)
        },
    }
}

/// Encodes `choice` into `parent`, the entries of the enclosing element:
/// the entry of the populated alternative is appended behind what the
/// element holds.  Where the choice cannot be encoded, `parent` stays as it
/// is.
pub fn encode_into(schema: &ChoiceSchema, choice: &ChoiceValue, parent: &mut FlatMapping) -> (res:
    Result<(), EncodeError>)
    ensures
        match res {
            Ok(()) => schema.encoded(choice@) matches Ok(added) && entries_model(
                final(parent).entries@,
            ) == entries_model(old(parent).entries@) + added,
            Err(error) => schema.encoded(choice@) == Err::<Seq<(Seq<char>, Seq<char>)>, EncodeError>(
                error,
            ) && final(parent).entries@ == old(parent).entries@,
        },
{
    match encode(schema, choice) {
        Ok(flat) => {
            let ghost before = parent.entries@;
            let mut i: usize = 0;
            proof {
                assert(entries_model(parent.entries@) =~= entries_model(before) + entries_model(
                    flat.entries@,
                ).take(0));
            }
            while i < flat.entries.len()
                invariant
                    i <= flat.entries.len(),
                    entries_model(parent.entries@) == entries_model(before) + entries_model(
                        flat.entries@,
                    ).take(i as int),
                decreases flat.entries.len() - i,
            {
                let ghost earlier = parent.entries@;
                parent.insert(flat.entries[i].name.as_str(), flat.entries[i].value.as_str());
                proof {
                    assert(parent.entries@.take(earlier.len() as int) == earlier);
                    assert forall|k: int| 0 <= k < earlier.len() implies entries_model(
                        parent.entries@,
                    )[k] == entries_model(earlier)[k] by {
                        assert(parent.entries@.take(earlier.len() as int)[k] == parent.entries@[k]);
                    }
                    let joined = entries_model(before) + entries_model(flat.entries@).take(i + 1);
                    assert(entries_model(earlier).len() == before.len() + i);
                    assert(parent.entries@.last() == parent.entries@[earlier.len() as int]);
                    assert(entries_model(parent.entries@)[earlier.len() as int] == entries_model(
                        flat.entries@,
                    )[i as int]);
                    assert forall|k: int| 0 <= k < joined.len() implies entries_model(
                        parent.entries@,
                    )[k] == joined[k] by {
                        if k < earlier.len() {
                            assert(entries_model(earlier)[k] == (entries_model(before)
                                + entries_model(flat.entries@).take(i as int))[k]);
                        }
                    }
                    assert(entries_model(parent.entries@) =~= joined);
                }
                i += 1;
            }
            proof {
                assert(entries_model(flat.entries@).take(i as int) =~= entries_model(flat.entries@));
            }
            Ok(())
        },
        Err(error) => Err(error),
    }
}

/// Every position that counts as present is the position of an alternative
/// whose key the mapping holds.
proof fn lemma_present_is_held(
    alternatives: Seq<AlternativeSpec>,
    flat: FlatMapping,
    upto: nat,
    k: int,
)
    requires
        upto <= alternatives.len(),
        0 <= k < present_positions(alternatives, flat, upto).len(),
    ensures
        0 <= present_positions(alternatives, flat, upto)[k] < upto,
        flat.lookup(alternatives[present_positions(alternatives, flat, upto)[k]].name@).is_some(),
    decreases upto,
{
    if upto > 0 {
        let earlier = present_positions(alternatives, flat, (upto - 1) as nat);
        if k < earlier.len() {
            lemma_present_is_held(alternatives, flat, (upto - 1) as nat, k);
        }
    }
}

/// The number of present positions never shrinks as more alternatives are
/// taken into account, and a present alternative adds one.
proof fn lemma_present_grows(
    alternatives: Seq<AlternativeSpec>,
    flat: FlatMapping,
    lower: nat,
    upper: nat,
)
    requires
        lower <= upper <= alternatives.len(),
    ensures
        present_positions(alternatives, flat, lower).len() <= present_positions(
            alternatives,
            flat,
            upper,
        ).len(),
        forall|k: int|
            0 <= k < present_positions(alternatives, flat, lower).len() ==> present_positions(
                alternatives,
                flat,
                upper,
            )[k] == present_positions(alternatives, flat, lower)[k],
    decreases upper,
{
    if lower < upper {
        lemma_present_grows(alternatives, flat, lower, (upper - 1) as nat);
    }
}

/// A position whose key the mapping holds is among the present positions.
proof fn lemma_held_is_present(alternatives: Seq<AlternativeSpec>, flat: FlatMapping, position: int)
    requires
        0 <= position < alternatives.len(),
        flat.lookup(alternatives[position].name@).is_some(),
    ensures
        present_positions(alternatives, flat, alternatives.len()).contains(position),
        present_positions(alternatives, flat, position as nat).len() < present_positions(
            alternatives,
            flat,
            (position + 1) as nat,
        ).len(),
{
    let before = present_positions(alternatives, flat, position as nat);
    let with = present_positions(alternatives, flat, (position + 1) as nat);
    assert(with == before.push(position));
    assert(with[before.len() as int] == position);
    lemma_present_grows(alternatives, flat, (position + 1) as nat, alternatives.len());
    let all = present_positions(alternatives, flat, alternatives.len());
    assert(all[before.len() as int] == position);
}

/// Ambiguity is detected, never resolved: where a mapping holds the keys of
/// two alternatives of a choice, decoding fails and names both keys.
pub proof fn law_ambiguity_detected(schema: ChoiceSchema, flat: FlatMapping, first: int, second: int)
    requires
        0 <= first < second < schema.alternatives@.len(),
        flat.lookup(schema.alternatives@[first].name@).is_some(),
        flat.lookup(schema.alternatives@[second].name@).is_some(),
    ensures
        schema.decoded(flat) matches Err(DecodeErrorModel::AmbiguousChoice { present_keys })
            && present_keys.contains(schema.alternatives@[first].name@) && present_keys.contains(
            schema.alternatives@[second].name@,
        ),
{
    let alternatives = schema.alternatives@;
    let all = present_positions(alternatives, flat, alternatives.len());
    lemma_held_is_present(alternatives, flat, first);
    lemma_held_is_present(alternatives, flat, second);
    lemma_present_grows(alternatives, flat, (first + 1) as nat, second as nat);
    lemma_present_grows(alternatives, flat, (second + 1) as nat, alternatives.len());
    assert(all.len() >= 2);
    let keys = keys_at(alternatives, all);
    let i = choose|i: int| 0 <= i < all.len() && all[i] == first;
    let j = choose|j: int| 0 <= j < all.len() && all[j] == second;
    assert(keys[i] == alternatives[first].name@);
    assert(keys[j] == alternatives[second].name@);
}

/// With distinct keys, a mapping whose only entry is the key of the
/// alternative at `position` has exactly that position present.
proof fn lemma_single_entry_present(
    schema: ChoiceSchema,
    flat: FlatMapping,
    position: int,
    upto: nat,
)
    requires
        schema.distinct_keys(),
        0 <= position < schema.alternatives@.len(),
        upto <= schema.alternatives@.len(),
        flat.entries@.len() == 1,
        flat.entries@[0].name@ == schema.alternatives@[position].name@,
    ensures
        present_positions(schema.alternatives@, flat, upto) == if upto > position {
            seq![position]
        } else {
            Seq::<int>::empty()
        },
    decreases upto,
{
    if upto > 0 {
        lemma_single_entry_present(schema, flat, position, (upto - 1) as nat);
        let key = schema.alternatives@[upto - 1].name@;
        assert(lookup_among(flat.entries@, key, 0).is_none());
        assert(flat.lookup(key).is_some() == (flat.entries@[0].name@ == key));
        if upto - 1 == position {
            assert(present_positions(schema.alternatives@, flat, upto) =~= seq![position]);
        }
    }
}

/// A mapping without entries has no alternative present.
proof fn lemma_no_entry_present(schema: ChoiceSchema, flat: FlatMapping, upto: nat)
    requires
        upto <= schema.alternatives@.len(),
        flat.entries@.len() == 0,
    ensures
        present_positions(schema.alternatives@, flat, upto) == Seq::<int>::empty(),
    decreases upto,
{
    if upto > 0 {
        lemma_no_entry_present(schema, flat, (upto - 1) as nat);
    }
}

/// Round trip: where the keys of a schema are distinct and the schema admits
/// a choice, decoding what encoding the choice gave returns the choice.
pub proof fn law_round_trip(schema: ChoiceSchema, choice: ChoiceModel, flat: FlatMapping)
    requires
        schema.distinct_keys(),
        schema.admits(choice),
        schema.encoded(choice) == Ok::<Seq<(Seq<char>, Seq<char>)>, EncodeError>(
            entries_model(flat.entries@),
        ),
    ensures
        schema.decoded(flat) == Ok::<ChoiceModel, DecodeErrorModel>(choice),
{
    match choice {
        ChoiceModel::Absent => {
            assert(entries_model(flat.entries@).len() == 0);
            lemma_no_entry_present(schema, flat, schema.alternatives@.len());
        },
        ChoiceModel::Selected { name, value } => {
            let position = choose|i: int|
                0 <= i < schema.alternatives@.len() && schema.alternatives@[i].name@ == name
                    && first_violation(
                    #[trigger] schema.alternatives@[i].constraints@,
                    value,
                    0,
                ).is_none();
            assert(entries_model(flat.entries@).len() == 1);
            assert(entries_model(flat.entries@)[0] == (name, value));
            assert(flat.entries@[0].name@ == name && flat.entries@[0].value@ == value);
            lemma_single_entry_present(schema, flat, position, schema.alternatives@.len());
            assert(lookup_among(flat.entries@, name, 0).is_none());
            assert(flat.lookup(name) == Some(value));
        },
    }
}

/// Two mappings that hold the same for every key of a choice have the same
/// alternatives present.
proof fn lemma_same_present(
    alternatives: Seq<AlternativeSpec>,
    first: FlatMapping,
    second: FlatMapping,
    upto: nat,
)
    requires
        upto <= alternatives.len(),
        forall|i: int|
            0 <= i < alternatives.len() ==> first.lookup(#[trigger] alternatives[i].name@)
                == second.lookup(alternatives[i].name@),
    ensures
        present_positions(alternatives, first, upto) == present_positions(
            alternatives,
            second,
            upto,
        ),
    decreases upto,
{
    if upto > 0 {
        lemma_same_present(alternatives, first, second, (upto - 1) as nat);
        assert(first.lookup(alternatives[upto - 1].name@) == second.lookup(
            alternatives[upto - 1].name@,
        ));
    }
}

/// Decoding reads the keys of the choice and nothing else: whatever else
/// the enclosing element holds beside them does not change the result.
pub proof fn law_siblings_are_left_alone(schema: ChoiceSchema, first: FlatMapping, second: FlatMapping)
    requires
        forall|i: int|
            0 <= i < schema.alternatives@.len() ==> first.lookup(
                #[trigger] schema.alternatives@[i].name@,
            ) == second.lookup(schema.alternatives@[i].name@),
    ensures
        schema.decoded(first) == schema.decoded(second),
{
    let alternatives = schema.alternatives@;
    lemma_same_present(alternatives, first, second, alternatives.len());
    let present = present_positions(alternatives, first, alternatives.len());
    if present.len() == 1 {
        lemma_present_is_held(alternatives, first, alternatives.len(), 0);
        assert(first.lookup(alternatives[present[0]].name@) == second.lookup(
            alternatives[present[0]].name@,
        ));
    }
}

} // verus!
