//! The leaves of the data model, decoded and encoded: identifiers,
//! intervals, codes, claims, costs, fills, laboratory values.
//!
//! For each type a model of decoding says which value a JSON value stands
//! for or why it stands for none, and the decoder returns exactly that. A
//! model checks the members of an object in the order in which it names
//! them, and the first one at fault decides the error. A model of encoding
//! gives the JSON value that is written and says which values have one:
//! those whose strings all have a JSON literal and whose opaque cells are
//! all JSON. The encoder returns the text of such a value and fails on
//! every other. The one `null` that is written is the open end of an
//! interval.

use crate::error::{agrees, DecodeError, EncodeError, FactField};
use crate::json::is_number;
use crate::members::{
    agrees_opt, get_optional_codebook, get_optional_i32, get_optional_string, get_optional_u32,
    get_string, optional_codebook_at, optional_i32_at, optional_string_at, optional_u32_at,
    string_at,
};
use crate::parts::{
    null_tree, object_tree, optional_integer_part, optional_part, optional_string_part, put,
    put_optional_integer, put_optional_string, put_string, quotable, quotable_or_absent,
    string_tree, tag_tree, text_of, unsigned_tree,
};
use crate::tree::{
    all_sound, decoded, find, find_present, lookup, member_views, present, Json, JsonView,
    Member, Node, NodeView,
};
use crate::types::{
    Claim, ClaimView, Code, CodeView, Cost, CostView, Fill, FillView, Interval, IntervalView,
    LabValue, LabValueView, SubjectID, SubjectIDView,
};
use vstd::prelude::*;

verus! {

/// How deep the text of a leaf is read: the object and its members.
pub const LEAF_DEPTH: usize = 2;

/// The subject identifier that a value stands for: a string stays a string
/// and an integer without sign stays a number; nothing else is an
/// identifier. A numeral between quotes is a string.
pub open spec fn subject_of(value: JsonView) -> Result<SubjectIDView, DecodeError> {
    match value.node {
        NodeView::String(s) => Ok(SubjectIDView::IDstr(s)),
        NodeView::Number { unsigned: Some(n), .. } => Ok(SubjectIDView::Idint(n)),
        _ => Err(DecodeError::ShapeMismatch),
    }
}

impl SubjectIDView {
    /// Whether the identifier has a text.
    pub open spec fn encodable(self) -> bool {
        match self {
            SubjectIDView::IDstr(s) => quotable(s),
            SubjectIDView::Idint(_) => true,
        }
    }

    /// The identifier as it is written: a string or a number, as it is.
    pub open spec fn tree(self) -> JsonView {
        match self {
            SubjectIDView::IDstr(s) => string_tree(s),
            SubjectIDView::Idint(n) => unsigned_tree(n),
        }
    }

    /// The text of the identifier.
    pub open spec fn text(self) -> Seq<char> {
        self.tree().raw
    }
}

impl SubjectID {
    /// Decodes a subject identifier.
    pub fn from_json(value: &Json) -> (result: Result<SubjectID, DecodeError>)
        ensures
            agrees(result, subject_of(value@)),
    {
        match &value.node {
            Node::String(s) => Ok(SubjectID::IDstr(s.clone())),
            Node::Number { unsigned: Some(n), .. } => Ok(SubjectID::Idint(*n)),
            _ => Err(DecodeError::ShapeMismatch),
        }
    }

    /// The value that the identifier is written as, in the shape it has.
    pub fn to_json(&self) -> (result: Result<Json, EncodeError>)
        ensures
            result is Ok <==> self@.encodable(),
            result matches Ok(tree) ==> tree@ == self@.tree(),
    {
        match self {
            SubjectID::IDstr(s) => Json::string(s.as_str()),
            SubjectID::Idint(n) => Ok(Json::unsigned(*n)),
        }
    }

    /// Encodes the identifier in the shape it has.
    pub fn encode(&self) -> (result: Result<String, EncodeError>)
        ensures
            result is Ok <==> self@.encodable(),
            result matches Ok(text) ==> text@ == self@.text(),
    {
        text_of(self.to_json())
    }
}

/// The interval that the members `begin` and `end` give when both are
/// integers, if they are.
pub open spec fn integer_interval(members: Seq<(Seq<char>, JsonView)>) -> Option<IntervalView> {
    match lookup(members, "begin"@) {
        Some(b) => match b.node {
            NodeView::Number { unsigned: Some(begin), .. } => match present(members, "end"@) {
                Some(e) => match e.node {
                    NodeView::Number { unsigned: Some(end), .. } => Some(
                        IntervalView::IntervalInt { begin, end: Some(end) },
                    ),
                    _ => None,
                },
                None => Some(IntervalView::IntervalInt { begin, end: None }),
            },
            _ => None,
        },
        None => None,
    }
}

/// The interval that the members `begin` and `end` give when both are
/// strings, if they are.
pub open spec fn string_interval(members: Seq<(Seq<char>, JsonView)>) -> Option<IntervalView> {
    match lookup(members, "begin"@) {
        Some(b) => match b.node {
            NodeView::String(begin) => match present(members, "end"@) {
                Some(e) => match e.node {
                    NodeView::String(end) => Some(
                        IntervalView::IntervalStr { begin, end: Some(end) },
                    ),
                    _ => None,
                },
                None => Some(IntervalView::IntervalStr { begin, end: None }),
            },
            _ => None,
        },
        None => None,
    }
}

/// The interval that a value stands for: an object whose `begin`, and `end`
/// where it has one, are both integers or else both strings.
pub open spec fn interval_of(value: JsonView) -> Result<IntervalView, DecodeError> {
    match value.node {
        NodeView::Object(members) => match integer_interval(members) {
            Some(interval) => Ok(interval),
            None => match string_interval(members) {
                Some(interval) => Ok(interval),
                None => Err(DecodeError::ShapeMismatch),
            },
        },
        _ => Err(DecodeError::ShapeMismatch),
    }
}

fn read_integer_interval(members: &Vec<Member>) -> (result: Option<Interval>)
    ensures
        match result {
            Some(interval) => integer_interval(member_views(members@)) == Some(interval@),
            None => integer_interval(member_views(members@)) is None,
        },
{
    let begin = match find(members, "begin") {
        Some(value) => match value.node {
            Node::Number { unsigned: Some(n), .. } => n,
            _ => return None,
        },
        None => return None,
    };
    match find_present(members, "end") {
        Some(value) => match value.node {
            Node::Number { unsigned: Some(end), .. } => Some(
                Interval::IntervalInt { begin, end: Some(end) },
            ),
            _ => None,
        },
        None => Some(Interval::IntervalInt { begin, end: None }),
    }
}

fn read_string_interval(members: &Vec<Member>) -> (result: Option<Interval>)
    ensures
        match result {
            Some(interval) => string_interval(member_views(members@)) == Some(interval@),
            None => string_interval(member_views(members@)) is None,
        },
{
    let begin = match find(members, "begin") {
        Some(value) => match &value.node {
            Node::String(s) => s.clone(),
            _ => return None,
        },
        None => return None,
    };
    match find_present(members, "end") {
        Some(value) => match &value.node {
            Node::String(end) => Some(Interval::IntervalStr { begin, end: Some(end.clone()) }),
            _ => None,
        },
        None => Some(Interval::IntervalStr { begin, end: None }),
    }
}

impl IntervalView {
    /// Whether the interval has a text.
    pub open spec fn encodable(self) -> bool {
        match self {
            IntervalView::IntervalInt { .. } => true,
            IntervalView::IntervalStr { begin, end } => quotable(begin) && quotable_or_absent(end),
        }
    }

    /// The members of the interval. Both ends are always written; an open
    /// end is written as `null`.
    pub open spec fn parts(self) -> Seq<(Seq<char>, JsonView)> {
        match self {
            IntervalView::IntervalInt { begin, end } => seq![
                ("begin"@, unsigned_tree(begin)),
                (
                    "end"@,
                    match end {
                        Some(end) => unsigned_tree(end),
                        None => null_tree(),
                    },
                ),
            ],
            IntervalView::IntervalStr { begin, end } => seq![
                ("begin"@, string_tree(begin)),
                (
                    "end"@,
                    match end {
                        Some(end) => string_tree(end),
                        None => null_tree(),
                    },
                ),
            ],
        }
    }

    /// The interval as it is written.
    pub open spec fn tree(self) -> JsonView {
        object_tree(self.parts())
    }

    /// The text of the interval.
    pub open spec fn text(self) -> Seq<char> {
        self.tree().raw
    }
}

impl Interval {
    /// Decodes an interval.
    pub fn from_json(value: &Json) -> (result: Result<Interval, DecodeError>)
        ensures
            agrees(result, interval_of(value@)),
    {
        match value.members() {
            Some(members) => match read_integer_interval(members) {
                Some(interval) => Ok(interval),
                None => match read_string_interval(members) {
                    Some(interval) => Ok(interval),
                    None => Err(DecodeError::ShapeMismatch),
                },
            },
            None => Err(DecodeError::ShapeMismatch),
        }
    }

    /// The value that the interval is written as, in the shape it has.
    pub fn to_json(&self) -> (result: Result<Json, EncodeError>)
        ensures
            result is Ok <==> self@.encodable(),
            result matches Ok(tree) ==> tree@ == self@.tree(),
    {
        let mut parts: Vec<Member> = Vec::new();
        match self {
            Interval::IntervalInt { begin, end } => {
                put(&mut parts, "begin", Json::unsigned(*begin));
                match end {
                    Some(end) => put(&mut parts, "end", Json::unsigned(*end)),
                    None => put(&mut parts, "end", Json::null()),
                }
            },
            Interval::IntervalStr { begin, end } => {
                put_string(&mut parts, "begin", begin.as_str())?;
                match end {
                    Some(end) => put_string(&mut parts, "end", end.as_str())?,
                    None => put(&mut parts, "end", Json::null()),
                }
            },
        }
        assert(member_views(parts@) =~= self@.parts());
        Ok(Json::object(parts))
    }

    /// Encodes the interval in the shape it has.
    pub fn encode(&self) -> (result: Result<String, EncodeError>)
        ensures
            result is Ok <==> self@.encodable(),
            result matches Ok(text) ==> text@ == self@.text(),
    {
        text_of(self.to_json())
    }
}

/// The code that a value stands for.
pub open spec fn code_of(value: JsonView) -> Result<CodeView, DecodeError> {
    match value.node {
        NodeView::Object(members) => match string_at(members, FactField::Code) {
            Ok(code) => match optional_codebook_at(members) {
                Ok(codebook) => Ok(CodeView { code, codebook }),
                Err(e) => Err(e),
            },
            Err(e) => Err(e),
        },
        _ => Err(DecodeError::InvalidFacts(FactField::Code)),
    }
}

impl CodeView {
    /// Whether the code has a text.
    pub open spec fn encodable(self) -> bool {
        quotable(self.code)
    }

    /// The members of the code.
    pub open spec fn parts(self) -> Seq<(Seq<char>, JsonView)> {
        seq![(FactField::Code.key(), string_tree(self.code))] + match self.codebook {
            Some(codebook) => seq![(FactField::Codebook.key(), tag_tree(codebook.tag_text()))],
            None => Seq::empty(),
        }
    }

    /// The code as it is written.
    pub open spec fn tree(self) -> JsonView {
        object_tree(self.parts())
    }

    /// The text of the code.
    pub open spec fn text(self) -> Seq<char> {
        self.tree().raw
    }
}

impl Code {
    /// Decodes a code.
    pub fn from_json(value: &Json) -> (result: Result<Code, DecodeError>)
        ensures
            agrees(result, code_of(value@)),
    {
        match value.members() {
            Some(members) => {
                let code = get_string(members, FactField::Code)?;
                let codebook = get_optional_codebook(members)?;
                Ok(Code { code, codebook })
            },
            None => Err(DecodeError::InvalidFacts(FactField::Code)),
        }
    }

    /// Decodes a code from its JSON text.
    pub fn decode(text: &str) -> (result: Result<Code, DecodeError>)
        ensures
            agrees(result, decoded(text@, LEAF_DEPTH as nat, |value: JsonView| code_of(value))),
    {
        Code::from_json(&Json::parse(text, LEAF_DEPTH)?)
    }

    /// The value that the code is written as.
    pub fn to_json(&self) -> (result: Result<Json, EncodeError>)
        ensures
            result is Ok <==> self@.encodable(),
            result matches Ok(tree) ==> tree@ == self@.tree(),
    {
        let mut parts: Vec<Member> = Vec::new();
        put_string(&mut parts, FactField::Code.name(), self.code.as_str())?;
        match self.codebook {
            Some(codebook) => put(
                &mut parts,
                FactField::Codebook.name(),
                Json::tag(codebook.tag()),
            ),
            None => {},
        }
        assert(member_views(parts@) =~= self@.parts());
        Ok(Json::object(parts))
    }

    /// Encodes the code.
    pub fn encode(&self) -> (result: Result<String, EncodeError>)
        ensures
            result is Ok <==> self@.encodable(),
            result matches Ok(text) ==> text@ == self@.text(),
    {
        text_of(self.to_json())
    }
}

/// The claim that a value stands for.
pub open spec fn claim_of(value: JsonView) -> Result<ClaimView, DecodeError> {
    match value.node {
        NodeView::Object(members) => match string_at(members, FactField::Id) {
            Ok(id) => match optional_string_at(members, FactField::Type) {
                Ok(kind) => match optional_u32_at(members, FactField::Index) {
                    Ok(index) => match optional_string_at(members, FactField::Procedure) {
                        Ok(procedure) => Ok(ClaimView { id, kind, index, procedure }),
                        Err(e) => Err(e),
                    },
                    Err(e) => Err(e),
                },
                Err(e) => Err(e),
            },
            Err(e) => Err(e),
        },
        _ => Err(DecodeError::InvalidFacts(FactField::Claim)),
    }
}

impl ClaimView {
    /// Whether the claim has a text.
    pub open spec fn encodable(self) -> bool {
        &&& quotable(self.id)
        &&& quotable_or_absent(self.kind)
        &&& quotable_or_absent(self.procedure)
    }

    /// The members of the claim.
    pub open spec fn parts(self) -> Seq<(Seq<char>, JsonView)> {
        seq![(FactField::Id.key(), string_tree(self.id))] + optional_string_part(
            FactField::Type.key(),
            self.kind,
        ) + match self.index {
            Some(index) => seq![(FactField::Index.key(), unsigned_tree(index as u64))],
            None => Seq::empty(),
        } + optional_string_part(FactField::Procedure.key(), self.procedure)
    }

    /// The claim as it is written.
    pub open spec fn tree(self) -> JsonView {
        object_tree(self.parts())
    }

    /// The text of the claim.
    pub open spec fn text(self) -> Seq<char> {
        self.tree().raw
    }
}

impl Claim {
    /// Decodes a claim.
    pub fn from_json(value: &Json) -> (result: Result<Claim, DecodeError>)
        ensures
            agrees(result, claim_of(value@)),
    {
        match value.members() {
            Some(members) => {
                let id = get_string(members, FactField::Id)?;
                let kind = get_optional_string(members, FactField::Type)?;
                let index = get_optional_u32(members, FactField::Index)?;
                let procedure = get_optional_string(members, FactField::Procedure)?;
                Ok(Claim { id, kind, index, procedure })
            },
            None => Err(DecodeError::InvalidFacts(FactField::Claim)),
        }
    }

    /// The value that the claim is written as.
    pub fn to_json(&self) -> (result: Result<Json, EncodeError>)
        ensures
            result is Ok <==> self@.encodable(),
            result matches Ok(tree) ==> tree@ == self@.tree(),
    {
        let mut parts: Vec<Member> = Vec::new();
        put_string(&mut parts, FactField::Id.name(), self.id.as_str())?;
        put_optional_string(&mut parts, FactField::Type.name(), &self.kind)?;
        match self.index {
            Some(index) => put(&mut parts, FactField::Index.name(), Json::unsigned(index as u64)),
            None => {},
        }
        put_optional_string(&mut parts, FactField::Procedure.name(), &self.procedure)?;
        assert(member_views(parts@) =~= self@.parts());
        Ok(Json::object(parts))
    }

    /// Encodes the claim.
    pub fn encode(&self) -> (result: Result<String, EncodeError>)
        ensures
            result is Ok <==> self@.encodable(),
            result matches Ok(text) ==> text@ == self@.text(),
    {
        text_of(self.to_json())
    }
}

/// The cost that a value stands for.
pub open spec fn cost_of(value: JsonView) -> Result<CostView, DecodeError> {
    match value.node {
        NodeView::Object(members) => match optional_string_at(members, FactField::Charge) {
            Ok(charge) => match string_at(members, FactField::Cost) {
                Ok(cost) => match optional_string_at(members, FactField::Allowed) {
                    Ok(allowed) => match optional_string_at(members, FactField::Transaction) {
                        Ok(transaction) => Ok(CostView { charge, cost, allowed, transaction }),
                        Err(e) => Err(e),
                    },
                    Err(e) => Err(e),
                },
                Err(e) => Err(e),
            },
            Err(e) => Err(e),
        },
        _ => Err(DecodeError::InvalidFacts(FactField::Cost)),
    }
}

impl CostView {
    /// Whether the cost has a text.
    pub open spec fn encodable(self) -> bool {
        &&& quotable_or_absent(self.charge)
        &&& quotable(self.cost)
        &&& quotable_or_absent(self.allowed)
        &&& quotable_or_absent(self.transaction)
    }

    /// The members of the cost.
    pub open spec fn parts(self) -> Seq<(Seq<char>, JsonView)> {
        optional_string_part(FactField::Charge.key(), self.charge) + seq![
            (FactField::Cost.key(), string_tree(self.cost)),
        ] + optional_string_part(FactField::Allowed.key(), self.allowed) + optional_string_part(
            FactField::Transaction.key(),
            self.transaction,
        )
    }

    /// The cost as it is written.
    pub open spec fn tree(self) -> JsonView {
        object_tree(self.parts())
    }

    /// The text of the cost.
    pub open spec fn text(self) -> Seq<char> {
        self.tree().raw
    }
}

impl Cost {
    /// Decodes a cost.
    pub fn from_json(value: &Json) -> (result: Result<Cost, DecodeError>)
        ensures
            agrees(result, cost_of(value@)),
    {
        match value.members() {
            Some(members) => {
                let charge = get_optional_string(members, FactField::Charge)?;
                let cost = get_string(members, FactField::Cost)?;
                let allowed = get_optional_string(members, FactField::Allowed)?;
                let transaction = get_optional_string(members, FactField::Transaction)?;
                Ok(Cost { charge, cost, allowed, transaction })
            },
            None => Err(DecodeError::InvalidFacts(FactField::Cost)),
        }
    }

    /// The value that the cost is written as.
    pub fn to_json(&self) -> (result: Result<Json, EncodeError>)
        ensures
            result is Ok <==> self@.encodable(),
            result matches Ok(tree) ==> tree@ == self@.tree(),
    {
        let mut parts: Vec<Member> = Vec::new();
        put_optional_string(&mut parts, FactField::Charge.name(), &self.charge)?;
        put_string(&mut parts, FactField::Cost.name(), self.cost.as_str())?;
        put_optional_string(&mut parts, FactField::Allowed.name(), &self.allowed)?;
        put_optional_string(&mut parts, FactField::Transaction.name(), &self.transaction)?;
        assert(member_views(parts@) =~= self@.parts());
        Ok(Json::object(parts))
    }

    /// Encodes the cost.
    pub fn encode(&self) -> (result: Result<String, EncodeError>)
        ensures
            result is Ok <==> self@.encodable(),
            result matches Ok(text) ==> text@ == self@.text(),
    {
        text_of(self.to_json())
    }
}

/// The fill that a value stands for.
pub open spec fn fill_of(value: JsonView) -> Result<FillView, DecodeError> {
    match value.node {
        NodeView::Object(members) => match optional_i32_at(members, FactField::DaysSupply) {
            Ok(days_supply) => match optional_i32_at(members, FactField::Quantity) {
                Ok(quantity) => match optional_string_at(members, FactField::Strength) {
                    Ok(strength) => Ok(FillView { days_supply, quantity, strength }),
                    Err(e) => Err(e),
                },
                Err(e) => Err(e),
            },
            Err(e) => Err(e),
        },
        _ => Err(DecodeError::InvalidFacts(FactField::Fill)),
    }
}

impl FillView {
    /// Whether the fill has a text.
    pub open spec fn encodable(self) -> bool {
        quotable_or_absent(self.strength)
    }

    /// The members of the fill.
    pub open spec fn parts(self) -> Seq<(Seq<char>, JsonView)> {
        optional_integer_part(FactField::DaysSupply.key(), self.days_supply)
            + optional_integer_part(FactField::Quantity.key(), self.quantity)
            + optional_string_part(FactField::Strength.key(), self.strength)
    }

    /// The fill as it is written.
    pub open spec fn tree(self) -> JsonView {
        object_tree(self.parts())
    }

    /// The text of the fill.
    pub open spec fn text(self) -> Seq<char> {
        self.tree().raw
    }
}

impl Fill {
    /// Decodes a fill.
    pub fn from_json(value: &Json) -> (result: Result<Fill, DecodeError>)
        ensures
            agrees(result, fill_of(value@)),
    {
        match value.members() {
            Some(members) => {
                let days_supply = get_optional_i32(members, FactField::DaysSupply)?;
                let quantity = get_optional_i32(members, FactField::Quantity)?;
                let strength = get_optional_string(members, FactField::Strength)?;
                Ok(Fill { days_supply, quantity, strength })
            },
            None => Err(DecodeError::InvalidFacts(FactField::Fill)),
        }
    }

    /// The value that the fill is written as.
    pub fn to_json(&self) -> (result: Result<Json, EncodeError>)
        ensures
            result is Ok <==> self@.encodable(),
            result matches Ok(tree) ==> tree@ == self@.tree(),
    {
        let mut parts: Vec<Member> = Vec::new();
        put_optional_integer(&mut parts, FactField::DaysSupply.name(), self.days_supply);
        put_optional_integer(&mut parts, FactField::Quantity.name(), self.quantity);
        put_optional_string(&mut parts, FactField::Strength.name(), &self.strength)?;
        assert(member_views(parts@) =~= self@.parts());
        Ok(Json::object(parts))
    }

    /// Encodes the fill.
    pub fn encode(&self) -> (result: Result<String, EncodeError>)
        ensures
            result is Ok <==> self@.encodable(),
            result matches Ok(text) ==> text@ == self@.text(),
    {
        text_of(self.to_json())
    }
}

/// The member `number` of a laboratory value, which, where it is there, must
/// be a number; it is kept as it stands.
pub open spec fn optional_number_at(members: Seq<(Seq<char>, JsonView)>) -> Result<
    Option<JsonView>,
    DecodeError,
> {
    match present(members, FactField::Number.key()) {
        Some(value) => if value.node is Number {
            Ok(Some(value))
        } else {
            Err(DecodeError::InvalidFacts(FactField::Number))
        },
        None => Ok(None),
    }
}

fn get_optional_number(members: &Vec<Member>) -> (result: Result<Option<Json>, DecodeError>)
    ensures
        agrees_opt(result, optional_number_at(member_views(members@))),
        all_sound(member_views(members@)) ==> (result matches Ok(Some(number))
            ==> number@.sound()),
{
    match find_present(members, FactField::Number.name()) {
        Some(value) => match value.node {
            Node::Number { .. } => Ok(Some(value.copy())),
            _ => Err(DecodeError::InvalidFacts(FactField::Number)),
        },
        None => Ok(None),
    }
}

/// The laboratory value that a value stands for.
pub open spec fn lab_value_of(value: JsonView) -> Result<LabValueView, DecodeError> {
    match value.node {
        NodeView::Object(members) => match optional_string_at(members, FactField::Text) {
            Ok(text) => match optional_number_at(members) {
                Ok(number) => match string_at(members, FactField::Units) {
                    Ok(units) => Ok(LabValueView { text, number, units }),
                    Err(e) => Err(e),
                },
                Err(e) => Err(e),
            },
            Err(e) => Err(e),
        },
        _ => Err(DecodeError::InvalidFacts(FactField::Value)),
    }
}

impl LabValueView {
    /// Whether the value has a text: its number, where it has one, must
    /// have the text of a number.
    pub open spec fn encodable(self) -> bool {
        &&& quotable_or_absent(self.text)
        &&& self.valid()
        &&& quotable(self.units)
    }

    /// The members of the value. The number is written as it was read.
    pub open spec fn parts(self) -> Seq<(Seq<char>, JsonView)> {
        optional_string_part(FactField::Text.key(), self.text) + optional_part(
            FactField::Number.key(),
            self.number,
        ) + seq![(FactField::Units.key(), string_tree(self.units))]
    }

    /// The value as it is written.
    pub open spec fn tree(self) -> JsonView {
        object_tree(self.parts())
    }

    /// The text of the value.
    pub open spec fn text(self) -> Seq<char> {
        self.tree().raw
    }
}

impl LabValue {
    /// Decodes a laboratory value. Its number, where it has one, is marked
    /// as a number; and where the value that is decoded is sound, the
    /// number has the text of one.
    pub fn from_json(value: &Json) -> (result: Result<LabValue, DecodeError>)
        ensures
            agrees(result, lab_value_of(value@)),
            result matches Ok(lab) ==> lab@.wf() && (value@.sound() ==> lab@.valid()),
    {
        match value.members() {
            Some(members) => {
                let text = get_optional_string(members, FactField::Text)?;
                let number = get_optional_number(members)?;
                let units = get_string(members, FactField::Units)?;
                Ok(LabValue { text, number, units })
            },
            None => Err(DecodeError::InvalidFacts(FactField::Value)),
        }
    }

    /// The value that the laboratory value is written as. Its number is
    /// written as it was read.
    pub fn to_json(&self) -> (result: Result<Json, EncodeError>)
        ensures
            result is Ok <==> self@.encodable(),
            result matches Ok(tree) ==> tree@ == self@.tree(),
    {
        let mut parts: Vec<Member> = Vec::new();
        put_optional_string(&mut parts, FactField::Text.name(), &self.text)?;
        match &self.number {
            Some(number) => {
                if !is_number(number.raw.as_str()) {
                    return Err(EncodeError {  });
                }
                put(&mut parts, FactField::Number.name(), number.copy());
            },
            None => {},
        }
        put_string(&mut parts, FactField::Units.name(), self.units.as_str())?;
        assert(member_views(parts@) =~= self@.parts());
        Ok(Json::object(parts))
    }

    /// Encodes the laboratory value.
    pub fn encode(&self) -> (result: Result<String, EncodeError>)
        ensures
            result is Ok <==> self@.encodable(),
            result matches Ok(text) ==> text@ == self@.text(),
    {
        text_of(self.to_json())
    }
}

} // verus!
