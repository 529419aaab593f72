//! JSON values as the codec sees them: the text a value was read from, kept
//! word for word, and its structure as far down as it was read.
//!
//! The text is what makes a value opaque cargo: written back, it is the
//! input again. The structure is what the decoders work on. Reading stops
//! at a given depth; what lies below is kept as text alone.

use crate::error::DecodeError;
use crate::json::{
    is_json, is_null, is_number, json_items, json_members, json_null, json_number, json_signed,
    json_string, json_unsigned, json_valid, read_items, read_members, read_signed, read_string,
    read_unsigned,
};
use crate::text::same_text;
use vstd::prelude::*;

verus! {

/// A JSON value: its text and its structure.
#[derive(Debug, PartialEq, Eq)]
pub struct Json {
    /// The text of the value, exactly as it stood in the input.
    pub raw: String,
    /// What the text holds.
    pub node: Node,
}

/// The structure of a JSON value.
#[derive(Debug, PartialEq, Eq)]
pub enum Node {
    /// An object, with its members. Read from text, they come as the
    /// parser hands them out: ordered by key, and of a key that was written
    /// twice the last value only.
    Object(Vec<Member>),
    /// An array, with its elements in order.
    Array(Vec<Json>),
    /// A string, unescaped.
    String(String),
    /// A number, with its value as an integer without and with sign, as far
    /// as it is one and fits.
    Number { unsigned: Option<u64>, signed: Option<i64> },
    /// `null`.
    Null,
    /// A value that was not looked into: a boolean, or one below the depth
    /// to which the input was read.
    Other,
}

/// A member of a JSON object: its key, unescaped, and its value.
#[derive(Debug, PartialEq, Eq)]
pub struct Member {
    pub name: String,
    pub value: Json,
}

/// The value of a `Json` as contracts speak of it: with sequences of
/// characters for its strings.
pub struct JsonView {
    pub raw: Seq<char>,
    pub node: NodeView,
}

/// The value of a `Node` as contracts speak of it: with sequences of
/// characters for its strings.
pub enum NodeView {
    Object(Seq<(Seq<char>, JsonView)>),
    Array(Seq<JsonView>),
    String(Seq<char>),
    Number { unsigned: Option<u64>, signed: Option<i64> },
    Null,
    Other,
}

/// The view of a value and of all that it holds.
pub open spec fn json_view(value: Json) -> JsonView
    decreases value,
{
    JsonView {
        raw: value.raw@,
        node: match value.node {
            Node::Object(members) => NodeView::Object(
                Seq::new(
                    members@.len(),
                    |i: int|
                        if 0 <= i < members@.len() {
                            (members@[i].name@, json_view(members@[i].value))
                        } else {
                            arbitrary()
                        },
                ),
            ),
            Node::Array(items) => NodeView::Array(
                Seq::new(
                    items@.len(),
                    |i: int|
                        if 0 <= i < items@.len() {
                            json_view(items@[i])
                        } else {
                            arbitrary()
                        },
                ),
            ),
            Node::String(s) => NodeView::String(s@),
            Node::Number { unsigned, signed } => NodeView::Number { unsigned, signed },
            Node::Null => NodeView::Null,
            Node::Other => NodeView::Other,
        },
    }
}

impl View for Json {
    type V = JsonView;

    open spec fn view(&self) -> JsonView {
        json_view(*self)
    }
}

/// The view of a value that may be absent.
pub open spec fn view_of<T: View>(value: Option<T>) -> Option<T::V> {
    match value {
        Some(v) => Some(v@),
        None => None,
    }
}

/// The views of a list of members.
pub open spec fn member_views(members: Seq<Member>) -> Seq<(Seq<char>, JsonView)> {
    Seq::new(members.len(), |i: int| (members[i].name@, members[i].value@))
}

/// The views of a list of values.
pub open spec fn json_views(items: Seq<Json>) -> Seq<JsonView> {
    Seq::new(items.len(), |i: int| items[i]@)
}

/// The value that `raw` is read as, down to `depth` levels. The kind of a
/// value is the first that the parser reads it as, of object, array,
/// string, number and `null`, in this order; a value of no such kind, or
/// below the depth, is not looked into.
pub open spec fn tree_of(raw: Seq<char>, depth: nat) -> JsonView
    decreases depth,
{
    JsonView {
        raw,
        node: if depth == 0 {
            NodeView::Other
        } else if let Some(members) = json_members(raw) {
            NodeView::Object(
                members.map_values(
                    |m: (Seq<char>, Seq<char>)| (m.0, tree_of(m.1, (depth - 1) as nat)),
                ),
            )
        } else if let Some(items) = json_items(raw) {
            NodeView::Array(items.map_values(|item: Seq<char>| tree_of(item, (depth - 1) as nat)))
        } else if let Some(s) = json_string(raw) {
            NodeView::String(s)
        } else if json_number(raw) {
            NodeView::Number { unsigned: json_unsigned(raw), signed: json_signed(raw) }
        } else if json_null(raw) {
            NodeView::Null
        } else {
            NodeView::Other
        },
    }
}

/// What `text` is read as, down to `depth` levels, if it is JSON at all.
pub open spec fn parsed(text: Seq<char>, depth: nat) -> Result<JsonView, DecodeError> {
    if json_valid(text) {
        Ok(tree_of(text, depth))
    } else {
        Err(DecodeError::SyntaxError)
    }
}

/// What `text` decodes to when it is read down to `depth` levels and then
/// held to `model`: text that is not JSON is a syntax error, and every
/// other text goes by what it is read as.
pub open spec fn decoded<T>(
    text: Seq<char>,
    depth: nat,
    model: spec_fn(JsonView) -> Result<T, DecodeError>,
) -> Result<T, DecodeError> {
    match parsed(text, depth) {
        Ok(value) => model(value),
        Err(e) => Err(e),
    }
}

impl JsonView {
    /// The text of the value is JSON, and so is that of every value in it;
    /// and what is marked as a number has the text of one.
    pub open spec fn sound(self) -> bool
        decreases self,
    {
        &&& json_valid(self.raw)
        &&& self.node is Number ==> json_number(self.raw)
        &&& match self.node {
            NodeView::Object(members) => forall|i: int|
                0 <= i < members.len() ==> (#[trigger] members[i]).1.sound(),
            NodeView::Array(items) => forall|i: int|
                0 <= i < items.len() ==> (#[trigger] items[i]).sound(),
            _ => true,
        }
    }
}

impl Json {
    /// Reads `raw` down to `depth` levels.
    fn read(raw: &str, depth: usize) -> (tree: Json)
        ensures
            tree@ == tree_of(raw@, depth as nat),
            json_valid(raw@) ==> tree@.sound(),
        decreases depth,
    {
        if depth == 0 {
            return Json { raw: raw.to_owned(), node: Node::Other };
        }
        match read_members(raw) {
            Ok(parts) => {
                let mut members: Vec<Member> = Vec::new();
                let mut i: usize = 0;
                while i < parts.len()
                    invariant
                        i <= parts.len(),
                        depth > 0,
                        members.len() == i,
                        forall|j: int|
                            0 <= j < parts.len() ==> json_valid((#[trigger] parts[j]).raw@),
                        forall|j: int|
                            0 <= j < i ==> (#[trigger] members[j]).name@ == parts[j].name@
                                && members[j].value@ == tree_of(parts[j].raw@, (depth - 1) as nat)
                                && members[j].value@.sound(),
                    decreases parts.len() - i,
                {
                    let value = Json::read(parts[i].raw.as_str(), depth - 1);
                    members.push(Member { name: parts[i].name.clone(), value });
                    i += 1;
                }
                let tree = Json { raw: raw.to_owned(), node: Node::Object(members) };
                proof {
                    let model = tree_of(raw@, depth as nat);
                    assert(model.node is Object);
                    assert(tree@.node->Object_0 =~= model.node->Object_0);
                }
                return tree;
            },
            Err(_) => {},
        }
        match read_items(raw) {
            Ok(parts) => {
                let mut items: Vec<Json> = Vec::new();
                let mut i: usize = 0;
                while i < parts.len()
                    invariant
                        i <= parts.len(),
                        depth > 0,
                        items.len() == i,
                        forall|j: int| 0 <= j < parts.len() ==> json_valid((#[trigger] parts[j])@),
                        forall|j: int|
                            0 <= j < i ==> (#[trigger] items[j])@ == tree_of(
                                parts[j]@,
                                (depth - 1) as nat,
                            ) && items[j]@.sound(),
                    decreases parts.len() - i,
                {
                    items.push(Json::read(parts[i].as_str(), depth - 1));
                    i += 1;
                }
                let tree = Json { raw: raw.to_owned(), node: Node::Array(items) };
                proof {
                    let model = tree_of(raw@, depth as nat);
                    assert(model.node is Array);
                    assert(tree@.node->Array_0 =~= model.node->Array_0);
                }
                return tree;
            },
            Err(_) => {},
        }
        let node = match read_string(raw) {
            Ok(s) => Node::String(s),
            Err(_) => {
                if is_number(raw) {
                    let unsigned = match read_unsigned(raw) {
                        Ok(n) => Some(n),
                        Err(_) => None,
                    };
                    let signed = match read_signed(raw) {
                        Ok(n) => Some(n),
                        Err(_) => None,
                    };
                    Node::Number { unsigned, signed }
                } else if is_null(raw) {
                    Node::Null
                } else {
                    Node::Other
                }
            },
        };
        Json { raw: raw.to_owned(), node }
    }

    /// Reads `text` as one JSON value, down to `depth` levels: with depth
    /// one the kind of the value is read and its members or elements are
    /// split off, with depth two these are read in turn, and so on. Of a
    /// value below the depth only the text is kept. Text that is not JSON is
    /// a syntax error.
    pub fn parse(text: &str, depth: usize) -> (result: Result<Json, DecodeError>)
        ensures
            match result {
                Ok(tree) => parsed(text@, depth as nat) == Ok::<JsonView, DecodeError>(tree@)
                    && tree@.sound(),
                Err(e) => parsed(text@, depth as nat) == Err::<JsonView, DecodeError>(e),
            },
    {
        if is_json(text) {
            Ok(Json::read(text, depth))
        } else {
            Err(DecodeError::SyntaxError)
        }
    }
}

impl Json {
    /// A copy of the value, text and structure.
    pub fn copy(&self) -> (twin: Json)
        ensures
            twin@ == self@,
        decreases self,
    {
        match &self.node {
            Node::Object(members) => {
                let mut copies: Vec<Member> = Vec::new();
                let mut i: usize = 0;
                while i < members.len()
                    invariant
                        i <= members.len(),
                        self.node == Node::Object(*members),
                        copies.len() == i,
                        forall|j: int|
                            0 <= j < i ==> (#[trigger] copies[j]).name@ == members[j].name@
                                && copies[j].value@ == members[j].value@,
                    decreases members.len() - i,
                {
                    assert(decreases_to!(self.node => self.node->Object_0));
                    assert(decreases_to!(members@ => members@[i as int]));
                    let value = members[i].value.copy();
                    copies.push(Member { name: members[i].name.clone(), value });
                    i += 1;
                }
                let twin = Json { raw: self.raw.clone(), node: Node::Object(copies) };
                assert(twin@.node->Object_0 =~= self@.node->Object_0);
                twin
            },
            Node::Array(items) => {
                let mut copies: Vec<Json> = Vec::new();
                let mut i: usize = 0;
                while i < items.len()
                    invariant
                        i <= items.len(),
                        self.node == Node::Array(*items),
                        copies.len() == i,
                        forall|j: int| 0 <= j < i ==> (#[trigger] copies[j])@ == items[j]@,
                    decreases items.len() - i,
                {
                    assert(decreases_to!(self.node => self.node->Array_0));
                    assert(decreases_to!(items@ => items@[i as int]));
                    copies.push(items[i].copy());
                    i += 1;
                }
                let twin = Json { raw: self.raw.clone(), node: Node::Array(copies) };
                assert(twin@.node->Array_0 =~= self@.node->Array_0);
                twin
            },
            Node::String(s) => Json { raw: self.raw.clone(), node: Node::String(s.clone()) },
            Node::Number { unsigned, signed } => Json {
                raw: self.raw.clone(),
                node: Node::Number { unsigned: *unsigned, signed: *signed },
            },
            Node::Null => Json { raw: self.raw.clone(), node: Node::Null },
            Node::Other => Json { raw: self.raw.clone(), node: Node::Other },
        }
    }
}

impl Json {
    /// The members of the value, if it is an object.
    pub fn members(&self) -> (members: Option<&Vec<Member>>)
        ensures
            match members {
                Some(members) => self@.node == NodeView::Object(member_views(members@)),
                None => !(self@.node is Object),
            },
    {
        match &self.node {
            Node::Object(members) => {
                assert(self@.node->Object_0 =~= member_views(members@));
                Some(members)
            },
            _ => None,
        }
    }

    /// The elements of the value, if it is an array.
    pub fn items(&self) -> (items: Option<&Vec<Json>>)
        ensures
            match items {
                Some(items) => self@.node == NodeView::Array(json_views(items@)),
                None => !(self@.node is Array),
            },
    {
        match &self.node {
            Node::Array(items) => {
                assert(self@.node->Array_0 =~= json_views(items@));
                Some(items)
            },
            _ => None,
        }
    }
}

/// The value of the first member of `members` that stands under `key`, if
/// there is one.
pub open spec fn lookup(members: Seq<(Seq<char>, JsonView)>, key: Seq<char>) -> Option<JsonView>
    decreases members.len(),
{
    if members.len() == 0 {
        None
    } else if members[0].0 == key {
        Some(members[0].1)
    } else {
        lookup(members.drop_first(), key)
    }
}

/// The value of the first member under `key`, unless there is none or it is
/// `null`: for a member that may be absent, `null` is absence.
pub open spec fn present(members: Seq<(Seq<char>, JsonView)>, key: Seq<char>) -> Option<JsonView> {
    match lookup(members, key) {
        Some(value) => if value.node is Null {
            None
        } else {
            Some(value)
        },
        None => None,
    }
}

/// Whether every value of `members` is sound.
pub open spec fn all_sound(members: Seq<(Seq<char>, JsonView)>) -> bool {
    forall|i: int| 0 <= i < members.len() ==> (#[trigger] members[i]).1.sound()
}

/// Looks up the first member under `key`.
pub fn find<'a>(members: &'a Vec<Member>, key: &str) -> (found: Option<&'a Json>)
    ensures
        view_of(found) == lookup(member_views(members@), key@),
        all_sound(member_views(members@)) ==> (found matches Some(value) ==> value@.sound()),
{
    let ghost model = member_views(members@);
    assert(model.skip(0) =~= model);
    let mut i: usize = 0;
    while i < members.len()
        invariant
            i <= members.len(),
            model == member_views(members@),
            lookup(model, key@) == lookup(model.skip(i as int), key@),
        decreases members.len() - i,
    {
        let ghost rest = model.skip(i as int);
        assert(rest[0] == model[i as int]);
        assert(rest.drop_first() =~= model.skip(i + 1));
        if same_text(members[i].name.as_str(), key) {
            return Some(&members[i].value);
        }
        i += 1;
    }
    assert(model.skip(i as int).len() == 0);
    None
}

/// Looks up the first member under `key` and takes `null` for absence.
pub fn find_present<'a>(members: &'a Vec<Member>, key: &str) -> (found: Option<&'a Json>)
    ensures
        view_of(found) == present(member_views(members@), key@),
        all_sound(member_views(members@)) ==> (found matches Some(value) ==> value@.sound()),
{
    match find(members, key) {
        Some(value) => match value.node {
            Node::Null => None,
            _ => Some(value),
        },
        None => None,
    }
}

} // verus!
