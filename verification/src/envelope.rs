//! The context object and the six-cell envelope around it, in both
//! directions.

use crate::dispatch::facts_of;
use crate::error::{agrees, DecodeError, EncodeError, FactField};
use crate::facts::{Facts, FactsView};
use crate::json::{is_json, json_valid, texts};
use crate::leaves::{interval_of, subject_of};
use crate::parts::{
    array_tree, object_tree, optional_part, put, put_optional_cell, quotable, string_tree,
    tag_tree, text_of,
};
use crate::tags::Domain;
use crate::tree::{
    all_sound, decoded, find, find_present, json_views, lookup, member_views, present, view_of,
    Json, JsonView, Member, Node, NodeView,
};
use crate::types::{
    valid_or_absent, Context, ContextView, Event, EventView, Interval, IntervalView, SubjectID,
    SubjectIDView,
};
use vstd::prelude::*;

verus! {

/// How deep a context is read: down to the strings of the members of the
/// objects of its facts.
pub const CONTEXT_DEPTH: usize = 4;

/// How deep an event is read: one level more than its context.
pub const EVENT_DEPTH: usize = 5;

/// The domain tag that a value stands for: a string that spells one of the
/// domains.
pub open spec fn tag_of(value: JsonView) -> Result<Seq<char>, DecodeError> {
    match value.node {
        NodeView::String(tag) => if Domain::of_text(tag) is Some {
            Ok(tag)
        } else {
            Err(DecodeError::UnknownDomain)
        },
        _ => Err(DecodeError::MalformedEnvelope),
    }
}

/// Reads a domain tag and the domain it spells.
fn read_tag(value: &Json) -> (result: Result<(String, Domain), DecodeError>)
    ensures
        match result {
            Ok((tag, domain)) => tag_of(value@) == Ok::<Seq<char>, DecodeError>(tag@)
                && Domain::of_text(tag@) == Some(domain),
            Err(e) => tag_of(value@) == Err::<Seq<char>, DecodeError>(e),
        },
{
    match &value.node {
        Node::String(tag) => match Domain::from_tag(tag.as_str()) {
            Some(domain) => Ok((tag.clone(), domain)),
            None => Err(DecodeError::UnknownDomain),
        },
        _ => Err(DecodeError::MalformedEnvelope),
    }
}

/// The domain that the member `domain` of a context announces.
pub open spec fn domain_at(members: Seq<(Seq<char>, JsonView)>) -> Result<Domain, DecodeError> {
    match lookup(members, "domain"@) {
        Some(value) => match tag_of(value) {
            Ok(tag) => Ok(Domain::of_text(tag)->Some_0),
            Err(e) => Err(e),
        },
        None => Err(DecodeError::MalformedEnvelope),
    }
}

/// The subject that the member `patient_id` of a context names.
pub open spec fn subject_at(members: Seq<(Seq<char>, JsonView)>) -> Result<
    SubjectIDView,
    DecodeError,
> {
    match lookup(members, "patient_id"@) {
        Some(value) => subject_of(value),
        None => Err(DecodeError::MalformedEnvelope),
    }
}

/// The interval that the member `time` of a context gives.
pub open spec fn time_at(members: Seq<(Seq<char>, JsonView)>) -> Result<IntervalView, DecodeError> {
    match lookup(members, "time"@) {
        Some(value) => interval_of(value),
        None => Err(DecodeError::MalformedEnvelope),
    }
}

/// The facts that the member `facts` of a context holds, read against the
/// schema of `domain`.
pub open spec fn facts_at(members: Seq<(Seq<char>, JsonView)>, domain: Domain) -> Result<
    FactsView,
    DecodeError,
> {
    match lookup(members, FactField::Facts.key()) {
        Some(value) => facts_of(domain, value),
        None => Err(DecodeError::InvalidFacts(FactField::Facts)),
    }
}

/// The context that a value stands for.
///
/// The discriminator is read first, so a context with a domain outside the
/// closed set is refused as such whatever else it holds. Then come the
/// subject, the time and the facts. The attachments `source` and `misc` are
/// taken as they stand.
pub open spec fn context_of(value: JsonView) -> Result<ContextView, DecodeError> {
    match value.node {
        NodeView::Object(members) => match domain_at(members) {
            Ok(domain) => match subject_at(members) {
                Ok(patient_id) => match time_at(members) {
                    Ok(time) => match facts_at(members, domain) {
                        Ok(facts) => Ok(
                            ContextView {
                                patient_id,
                                time,
                                facts,
                                source: present(members, "source"@),
                                misc: present(members, "misc"@),
                            },
                        ),
                        Err(e) => Err(e),
                    },
                    Err(e) => Err(e),
                },
                Err(e) => Err(e),
            },
            Err(e) => Err(e),
        },
        _ => Err(DecodeError::MalformedEnvelope),
    }
}

fn capture(members: &Vec<Member>, key: &str) -> (cell: Option<Json>)
    ensures
        view_of(cell) == present(member_views(members@), key@),
        all_sound(member_views(members@)) ==> (cell matches Some(value) ==> value@.sound()),
{
    match find_present(members, key) {
        Some(value) => Some(value.copy()),
        None => None,
    }
}

impl Context {
    /// Decodes a context. It comes back well formed; and where the value
    /// that is decoded is sound, its opaque cells have the text of JSON
    /// values.
    pub fn from_json(value: &Json) -> (result: Result<Context, DecodeError>)
        ensures
            agrees(result, context_of(value@)),
            result matches Ok(context) ==> context@.wf() && (value@.sound() ==> context@.valid()),
    {
        let members = match value.members() {
            Some(members) => members,
            None => return Err(DecodeError::MalformedEnvelope),
        };
        let domain = match find(members, "domain") {
            Some(value) => read_tag(value)?.1,
            None => return Err(DecodeError::MalformedEnvelope),
        };
        let patient_id = match find(members, "patient_id") {
            Some(value) => SubjectID::from_json(value)?,
            None => return Err(DecodeError::MalformedEnvelope),
        };
        let time = match find(members, "time") {
            Some(value) => Interval::from_json(value)?,
            None => return Err(DecodeError::MalformedEnvelope),
        };
        let facts = match find(members, FactField::Facts.name()) {
            Some(value) => Facts::from_json(domain, value)?,
            None => return Err(DecodeError::InvalidFacts(FactField::Facts)),
        };
        let source = capture(members, "source");
        let misc = capture(members, "misc");
        Ok(Context { patient_id, time, facts, source, misc })
    }

    /// Decodes a context from its JSON text: text that is not JSON is a
    /// syntax error, and every other text goes by the value it is read as.
    pub fn decode(text: &str) -> (result: Result<Context, DecodeError>)
        ensures
            agrees(
                result,
                decoded(text@, CONTEXT_DEPTH as nat, |value: JsonView| context_of(value)),
            ),
            result matches Ok(context) ==> context@.wf() && context@.valid(),
    {
        Context::from_json(&Json::parse(text, CONTEXT_DEPTH)?)
    }

    /// The value that the context is written as: an object.
    pub fn to_json(&self) -> (result: Result<Json, EncodeError>)
        ensures
            result is Ok <==> self@.encodable(),
            result matches Ok(tree) ==> tree@ == self@.tree(),
    {
        let mut parts: Vec<Member> = Vec::new();
        let patient_id = self.patient_id.to_json()?;
        put(&mut parts, "patient_id", patient_id);
        let time = self.time.to_json()?;
        put(&mut parts, "time", time);
        put(&mut parts, "domain", Json::tag(self.facts.domain().tag()));
        let facts = self.facts.to_json()?;
        put(&mut parts, FactField::Facts.name(), facts);
        put_optional_cell(&mut parts, "source", &self.source)?;
        put_optional_cell(&mut parts, "misc", &self.misc)?;
        assert(member_views(parts@) =~= self@.parts());
        Ok(Json::object(parts))
    }

    /// Encodes the context as a JSON object.
    pub fn encode(&self) -> (result: Result<String, EncodeError>)
        ensures
            result is Ok <==> self@.encodable(),
            result matches Ok(text) ==> text@ == self@.text(),
    {
        text_of(self.to_json())
    }
}

impl ContextView {
    /// Whether the context has a text.
    pub open spec fn encodable(self) -> bool {
        &&& self.patient_id.encodable()
        &&& self.time.encodable()
        &&& self.facts.encodable()
        &&& valid_or_absent(self.source)
        &&& valid_or_absent(self.misc)
    }

    /// The members of the context. The domain written is the one that the
    /// facts are of.
    pub open spec fn parts(self) -> Seq<(Seq<char>, JsonView)> {
        seq![
            ("patient_id"@, self.patient_id.tree()),
            ("time"@, self.time.tree()),
            ("domain"@, tag_tree(self.facts.domain().tag_text())),
            (FactField::Facts.key(), self.facts.tree()),
        ] + optional_part("source"@, self.source) + optional_part("misc"@, self.misc)
    }

    /// The context as it is written.
    pub open spec fn tree(self) -> JsonView {
        object_tree(self.parts())
    }

    /// The text of the context.
    pub open spec fn text(self) -> Seq<char> {
        self.tree().raw
    }
}

/// The string that each of `items` is, if all of them are strings.
pub open spec fn strings_of(items: Seq<JsonView>) -> Option<Seq<Seq<char>>> {
    if forall|i: int| 0 <= i < items.len() ==> (#[trigger] items[i]).node is String {
        Some(items.map_values(|item: JsonView| item.node->String_0))
    } else {
        None
    }
}

/// The concepts that a value stands for: an array of strings, in its order,
/// repetitions kept.
pub open spec fn concepts_of(value: JsonView) -> Result<Seq<Seq<char>>, DecodeError> {
    match value.node {
        NodeView::Array(items) => match strings_of(items) {
            Some(concepts) => Ok(concepts),
            None => Err(DecodeError::MalformedEnvelope),
        },
        _ => Err(DecodeError::MalformedEnvelope),
    }
}

fn read_concepts(value: &Json) -> (result: Result<Vec<String>, DecodeError>)
    ensures
        match result {
            Ok(concepts) => concepts_of(value@) == Ok::<Seq<Seq<char>>, DecodeError>(
                texts(concepts@),
            ),
            Err(e) => concepts_of(value@) == Err::<Seq<Seq<char>>, DecodeError>(e),
        },
{
    let items = match value.items() {
        Some(items) => items,
        None => return Err(DecodeError::MalformedEnvelope),
    };
    let ghost model = json_views(items@);
    let mut concepts: Vec<String> = Vec::new();
    let mut i: usize = 0;
    while i < items.len()
        invariant
            i <= items.len(),
            model == json_views(items@),
            value@.node == NodeView::Array(model),
            concepts.len() == i,
            forall|j: int|
                0 <= j < i ==> model[j].node == NodeView::String((#[trigger] concepts[j])@),
        decreases items.len() - i,
    {
        match &items[i].node {
            Node::String(s) => concepts.push(s.clone()),
            _ => {
                assert(!(model[i as int].node is String));
                return Err(DecodeError::MalformedEnvelope);
            },
        }
        i += 1;
    }
    proof {
        assert forall|k: int| 0 <= k < model.len() implies (#[trigger] model[k]).node is String by {
            assert(model[k].node == NodeView::String(concepts[k]@));
        }
        assert(texts(concepts@) =~= model.map_values(|item: JsonView| item.node->String_0));
    }
    Ok(concepts)
}

/// The event that a value stands for: an array of exactly six cells, which
/// are, in this order, the subject, the begin and the end of its time, the
/// domain tag, the concepts, and the context. Begin and end are taken as
/// they stand, whatever JSON they are. The cells are checked in their order.
pub open spec fn event_of(value: JsonView) -> Result<EventView, DecodeError> {
    match value.node {
        NodeView::Array(cells) => if cells.len() != 6 {
            Err(DecodeError::MalformedEnvelope)
        } else {
            match subject_of(cells[0]) {
                Ok(p) => match tag_of(cells[3]) {
                    Ok(d) => match concepts_of(cells[4]) {
                        Ok(concepts) => match context_of(cells[5]) {
                            Ok(context) => Ok(
                                EventView { p, b: cells[1], e: cells[2], d, concepts, context },
                            ),
                            Err(e) => Err(e),
                        },
                        Err(e) => Err(e),
                    },
                    Err(e) => Err(e),
                },
                Err(e) => Err(e),
            }
        },
        _ => Err(DecodeError::MalformedEnvelope),
    }
}

impl Event {
    /// Decodes an event. It comes back well formed; and where the value
    /// that is decoded is sound, its opaque cells have the text of JSON
    /// values.
    pub fn from_json(value: &Json) -> (result: Result<Event, DecodeError>)
        ensures
            agrees(result, event_of(value@)),
            result matches Ok(event) ==> event@.wf() && (value@.sound() ==> event@.valid()),
    {
        let cells = match value.items() {
            Some(cells) => cells,
            None => return Err(DecodeError::MalformedEnvelope),
        };
        if cells.len() != 6 {
            return Err(DecodeError::MalformedEnvelope);
        }
        proof {
            let model = json_views(cells@);
            assert(model[1] == cells[1]@ && model[2] == cells[2]@ && model[5] == cells[5]@);
            assert(value@.sound() ==> model[1].sound() && model[2].sound() && model[5].sound());
            assert(model[1].sound() ==> json_valid(model[1].raw));
            assert(model[2].sound() ==> json_valid(model[2].raw));
        }
        let p = SubjectID::from_json(&cells[0])?;
        let d = read_tag(&cells[3])?.0;
        let concepts = read_concepts(&cells[4])?;
        let context = Context::from_json(&cells[5])?;
        let b = cells[1].copy();
        let e = cells[2].copy();
        Ok(Event { p, b, e, d, concepts, context })
    }

    /// Decodes an event from its JSON text: text that is not JSON is a
    /// syntax error, and every other text goes by the value it is read as.
    pub fn decode(text: &str) -> (result: Result<Event, DecodeError>)
        ensures
            agrees(result, decoded(text@, EVENT_DEPTH as nat, |value: JsonView| event_of(value))),
            result matches Ok(event) ==> event@.wf() && event@.valid(),
    {
        Event::from_json(&Json::parse(text, EVENT_DEPTH)?)
    }

    /// The value that the event is written as: an array of six cells.
    pub fn to_json(&self) -> (result: Result<Json, EncodeError>)
        ensures
            result is Ok <==> self@.encodable(),
            result matches Ok(tree) ==> tree@ == self@.tree(),
    {
        let mut cells: Vec<Json> = Vec::new();
        cells.push(self.p.to_json()?);
        if !is_json(self.b.raw.as_str()) || !is_json(self.e.raw.as_str()) {
            return Err(EncodeError {  });
        }
        cells.push(self.b.copy());
        cells.push(self.e.copy());
        if Domain::from_tag(self.d.as_str()).is_none() {
            return Err(EncodeError {  });
        }
        cells.push(Json::tag(self.d.as_str()));
        cells.push(write_concepts(&self.concepts)?);
        cells.push(self.context.to_json()?);
        assert(json_views(cells@) =~= self@.cells());
        Ok(Json::array(cells))
    }

    /// Encodes the event as a JSON array of six cells.
    pub fn encode(&self) -> (result: Result<String, EncodeError>)
        ensures
            result is Ok <==> self@.encodable(),
            result matches Ok(text) ==> text@ == self@.text(),
    {
        text_of(self.to_json())
    }
}

/// Whether each of `concepts` has a JSON literal.
pub open spec fn all_quotable(concepts: Seq<Seq<char>>) -> bool {
    forall|i: int| 0 <= i < concepts.len() ==> quotable(#[trigger] concepts[i])
}

/// A list of concepts as it is written: an array of strings.
pub open spec fn concepts_tree(concepts: Seq<Seq<char>>) -> JsonView {
    array_tree(concepts.map_values(|concept: Seq<char>| string_tree(concept)))
}

fn write_concepts(concepts: &Vec<String>) -> (result: Result<Json, EncodeError>)
    ensures
        result is Ok <==> all_quotable(texts(concepts@)),
        result matches Ok(tree) ==> tree@ == concepts_tree(texts(concepts@)),
{
    let ghost model = texts(concepts@);
    let ghost trees = model.map_values(|concept: Seq<char>| string_tree(concept));
    let mut items: Vec<Json> = Vec::new();
    let mut i: usize = 0;
    while i < concepts.len()
        invariant
            i <= concepts.len(),
            model == texts(concepts@),
            trees == model.map_values(|concept: Seq<char>| string_tree(concept)),
            json_views(items@) == trees.take(i as int),
            all_quotable(model.take(i as int)),
        decreases concepts.len() - i,
    {
        let item = match Json::string(concepts[i].as_str()) {
            Ok(item) => item,
            Err(e) => {
                assert(!quotable(model[i as int]));
                return Err(e);
            },
        };
        let ghost before = json_views(items@);
        items.push(item);
        proof {
            let next = model.take(i + 1);
            assert(trees[i as int] == string_tree(model[i as int]));
            assert(json_views(items@) =~= before.push(item@));
            assert(json_views(items@) =~= trees.take(i + 1));
            assert forall|k: int| 0 <= k < next.len() implies quotable(#[trigger] next[k]) by {
                if k < i {
                    assert(model.take(i as int)[k] == next[k]);
                }
            }
        }
        i += 1;
    }
    assert(model.take(i as int) =~= model);
    assert(trees.take(i as int) =~= trees);
    Ok(Json::array(items))
}

impl EventView {
    /// Whether the event has a text: begin and end must be JSON, the domain
    /// tag must spell a domain, and every string must have a JSON literal.
    pub open spec fn encodable(self) -> bool {
        &&& self.p.encodable()
        &&& json_valid(self.b.raw)
        &&& json_valid(self.e.raw)
        &&& Domain::of_text(self.d) is Some
        &&& all_quotable(self.concepts)
        &&& self.context.encodable()
    }

    /// The six cells of the event, in their order. Begin and end are
    /// written as they were read.
    pub open spec fn cells(self) -> Seq<JsonView> {
        seq![
            self.p.tree(),
            self.b,
            self.e,
            tag_tree(self.d),
            concepts_tree(self.concepts),
            self.context.tree(),
        ]
    }

    /// The event as it is written: an array of its six cells.
    pub open spec fn tree(self) -> JsonView {
        array_tree(self.cells())
    }

    /// The text of the event.
    pub open spec fn text(self) -> Seq<char> {
        self.tree().raw
    }
}

} // verus!
