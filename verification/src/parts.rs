//! What all encoders share: the JSON values that strings, tags and integers
//! are written as, objects and arrays made of such values, and the members
//! that are written only where they have a value.
//!
//! A value of the data model is written as a JSON value whose text is the
//! text that the encoder returns. A member that is absent is left out; it
//! is never written as `null`.

use crate::error::{EncodeError, FactField};
use crate::json::{is_json, json_quoted, write_string};
use crate::tags::Location;
use crate::text::{
    array_text, decimal, object_text, quote_tag, quoted_tag, signed_decimal, signed_text,
    unsigned_text, ListWriter, ObjectWriter,
};
use crate::tree::{json_views, member_views, view_of, Json, JsonView, Member, Node, NodeView};
use crate::types::valid_or_absent;
use vstd::prelude::*;
use vstd::string::*;

verus! {

/// Whether `s` has a JSON literal.
pub open spec fn quotable(s: Seq<char>) -> bool {
    json_quoted(s) is Some
}

/// The JSON literal of `s`.
pub open spec fn quoted(s: Seq<char>) -> Seq<char> {
    json_quoted(s)->Some_0
}

/// Whether a string that may be absent has, where present, a JSON literal.
pub open spec fn quotable_or_absent(s: Option<Seq<char>>) -> bool {
    s matches Some(s) ==> quotable(s)
}

/// A string as it is written: its literal, which stands for the string.
pub open spec fn string_tree(s: Seq<char>) -> JsonView {
    JsonView { raw: quoted(s), node: NodeView::String(s) }
}

/// A tag as it is written: between quotes, standing for itself.
pub open spec fn tag_tree(tag: Seq<char>) -> JsonView {
    JsonView { raw: quoted_tag(tag), node: NodeView::String(tag) }
}

/// An integer without sign as it is written: its numeral.
pub open spec fn unsigned_tree(n: u64) -> JsonView {
    JsonView {
        raw: decimal(n as nat),
        node: NodeView::Number {
            unsigned: Some(n),
            signed: if n <= i64::MAX {
                Some(n as i64)
            } else {
                None
            },
        },
    }
}

/// An integer with sign as it is written: its numeral.
pub open spec fn signed_tree(n: i32) -> JsonView {
    JsonView {
        raw: signed_decimal(n as int),
        node: NodeView::Number {
            unsigned: if n >= 0 {
                Some(n as u64)
            } else {
                None
            },
            signed: Some(n as i64),
        },
    }
}

/// `null` as it is written.
pub open spec fn null_tree() -> JsonView {
    JsonView { raw: "null"@, node: NodeView::Null }
}

/// The keys of the members of an object, each with the text of its value.
pub open spec fn member_raws(parts: Seq<(Seq<char>, JsonView)>) -> Seq<(Seq<char>, Seq<char>)> {
    parts.map_values(|part: (Seq<char>, JsonView)| (part.0, part.1.raw))
}

/// An object as it is written: its members in their order, each under its
/// key.
pub open spec fn object_tree(parts: Seq<(Seq<char>, JsonView)>) -> JsonView {
    JsonView { raw: object_text(member_raws(parts)), node: NodeView::Object(parts) }
}

/// The texts of a list of values.
pub open spec fn raws(items: Seq<JsonView>) -> Seq<Seq<char>> {
    items.map_values(|item: JsonView| item.raw)
}

/// An array as it is written: its elements in their order.
pub open spec fn array_tree(items: Seq<JsonView>) -> JsonView {
    JsonView { raw: array_text(raws(items)), node: NodeView::Array(items) }
}

/// A member that is written only where it has a value.
pub open spec fn optional_part(key: Seq<char>, value: Option<JsonView>) -> Seq<
    (Seq<char>, JsonView),
> {
    match value {
        Some(value) => seq![(key, value)],
        None => Seq::empty(),
    }
}

/// A string member that is written only where it has a value.
pub open spec fn optional_string_part(key: Seq<char>, value: Option<Seq<char>>) -> Seq<
    (Seq<char>, JsonView),
> {
    match value {
        Some(value) => seq![(key, string_tree(value))],
        None => Seq::empty(),
    }
}

/// A member that holds an integer, written only where it has a value.
pub open spec fn optional_integer_part(key: Seq<char>, value: Option<i32>) -> Seq<
    (Seq<char>, JsonView),
> {
    match value {
        Some(value) => seq![(key, signed_tree(value))],
        None => Seq::empty(),
    }
}

/// The member `location`, written only where there is a location.
pub open spec fn location_part(location: Option<Location>) -> Seq<(Seq<char>, JsonView)> {
    match location {
        Some(location) => seq![(FactField::Location.key(), tag_tree(location.tag_text()))],
        None => Seq::empty(),
    }
}

/// Prints `s` as a JSON string literal.
pub fn quote(s: &str) -> (result: Result<String, EncodeError>)
    ensures
        result is Ok <==> quotable(s@),
        result matches Ok(literal) ==> literal@ == quoted(s@),
{
    match write_string(s) {
        Ok(literal) => Ok(literal),
        Err(_) => Err(EncodeError {  }),
    }
}

impl Json {
    /// The value that the string `s` is written as, if it has a literal.
    pub fn string(s: &str) -> (result: Result<Json, EncodeError>)
        ensures
            result is Ok <==> quotable(s@),
            result matches Ok(tree) ==> tree@ == string_tree(s@),
    {
        let raw = quote(s)?;
        Ok(Json { raw, node: Node::String(s.to_owned()) })
    }

    /// The value that a tag is written as. The tag is put between quotes as
    /// it stands, so it must need no escaping.
    pub fn tag(tag: &str) -> (tree: Json)
        ensures
            tree@ == tag_tree(tag@),
    {
        Json { raw: quote_tag(tag), node: Node::String(tag.to_owned()) }
    }

    /// The value that an integer without sign is written as.
    pub fn unsigned(n: u64) -> (tree: Json)
        ensures
            tree@ == unsigned_tree(n),
    {
        let signed = if n <= i64::MAX as u64 {
            Some(n as i64)
        } else {
            None
        };
        Json { raw: unsigned_text(n), node: Node::Number { unsigned: Some(n), signed } }
    }

    /// The value that an integer with sign is written as.
    pub fn signed(n: i32) -> (tree: Json)
        ensures
            tree@ == signed_tree(n),
    {
        let unsigned = if n >= 0 {
            Some(n as u64)
        } else {
            None
        };
        Json { raw: signed_text(n), node: Node::Number { unsigned, signed: Some(n as i64) } }
    }

    /// The value `null`.
    pub fn null() -> (tree: Json)
        ensures
            tree@ == null_tree(),
    {
        Json { raw: "null".to_owned(), node: Node::Null }
    }

    /// The object with the given members, in their order. The keys are
    /// written between quotes as they stand, so they must need no escaping.
    pub fn object(members: Vec<Member>) -> (tree: Json)
        ensures
            tree@ == object_tree(member_views(members@)),
    {
        let ghost parts = member_views(members@);
        let mut w = ObjectWriter::new();
        let mut i: usize = 0;
        while i < members.len()
            invariant
                i <= members.len(),
                parts == member_views(members@),
                w.wf(),
                w.members() == member_raws(parts.take(i as int)),
            decreases members.len() - i,
        {
            w.member(members[i].name.as_str(), members[i].value.raw.as_str());
            assert(w.members() =~= member_raws(parts.take(i + 1)));
            i += 1;
        }
        assert(parts.take(i as int) =~= parts);
        let tree = Json { raw: w.finish(), node: Node::Object(members) };
        assert(tree@.node->Object_0 =~= parts);
        tree
    }

    /// The array with the given elements, in their order.
    pub fn array(items: Vec<Json>) -> (tree: Json)
        ensures
            tree@ == array_tree(json_views(items@)),
    {
        let ghost cells = json_views(items@);
        let mut w = ListWriter::new();
        let mut i: usize = 0;
        while i < items.len()
            invariant
                i <= items.len(),
                cells == json_views(items@),
                w.wf(),
                w.items() == raws(cells.take(i as int)),
            decreases items.len() - i,
        {
            w.item(items[i].raw.as_str());
            assert(w.items() =~= raws(cells.take(i + 1)));
            i += 1;
        }
        assert(cells.take(i as int) =~= cells);
        let tree = Json { raw: w.into_array(), node: Node::Array(items) };
        assert(tree@.node->Array_0 =~= cells);
        tree
    }
}

/// Adds a member to the members of an object under construction.
pub fn put(parts: &mut Vec<Member>, key: &str, value: Json)
    ensures
        member_views(final(parts)@) == member_views(old(parts)@).push((key@, value@)),
{
    parts.push(Member { name: key.to_owned(), value });
    assert(member_views(parts@) =~= member_views(old(parts)@).push((key@, value@)));
}

/// Adds a string member.
pub fn put_string(parts: &mut Vec<Member>, key: &str, value: &str) -> (result: Result<
    (),
    EncodeError,
>)
    ensures
        result is Ok <==> quotable(value@),
        result is Ok ==> member_views(final(parts)@) == member_views(old(parts)@).push(
            (key@, string_tree(value@)),
        ),
        result is Err ==> final(parts)@ == old(parts)@,
{
    let tree = Json::string(value)?;
    put(parts, key, tree);
    Ok(())
}

/// Adds a string member where it has a value.
pub fn put_optional_string(parts: &mut Vec<Member>, key: &str, value: &Option<String>) -> (result:
    Result<(), EncodeError>)
    ensures
        result is Ok <==> quotable_or_absent(view_of(*value)),
        result is Ok ==> member_views(final(parts)@) == member_views(old(parts)@)
            + optional_string_part(key@, view_of(*value)),
{
    match value {
        Some(value) => {
            put_string(parts, key, value.as_str())?;
            assert(member_views(parts@) =~= member_views(old(parts)@) + optional_string_part(
                key@,
                Some(value@),
            ));
        },
        None => {
            assert(member_views(parts@) =~= member_views(old(parts)@) + optional_string_part(
                key@,
                None,
            ));
        },
    }
    Ok(())
}

/// Adds an integer member where it has a value.
pub fn put_optional_integer(parts: &mut Vec<Member>, key: &str, value: Option<i32>)
    ensures
        member_views(final(parts)@) == member_views(old(parts)@) + optional_integer_part(
            key@,
            value,
        ),
{
    match value {
        Some(value) => {
            put(parts, key, Json::signed(value));
            assert(member_views(parts@) =~= member_views(old(parts)@) + optional_integer_part(
                key@,
                Some(value),
            ));
        },
        None => {
            assert(member_views(parts@) =~= member_views(old(parts)@) + optional_integer_part(
                key@,
                None,
            ));
        },
    }
}

/// Adds the member `location` where there is a location.
pub fn put_location(parts: &mut Vec<Member>, location: Option<Location>)
    ensures
        member_views(final(parts)@) == member_views(old(parts)@) + location_part(location),
{
    match location {
        Some(location) => {
            put(parts, FactField::Location.name(), Json::tag(location.tag()));
            assert(member_views(parts@) =~= member_views(old(parts)@) + location_part(
                Some(location),
            ));
        },
        None => {
            assert(member_views(parts@) =~= member_views(old(parts)@) + location_part(None));
        },
    }
}

/// Adds a member whose value is an opaque cell, where there is one; the
/// cell must have the text of a JSON value.
pub fn put_optional_cell(parts: &mut Vec<Member>, key: &str, value: &Option<Json>) -> (result:
    Result<(), EncodeError>)
    ensures
        result is Ok <==> valid_or_absent(view_of(*value)),
        result is Ok ==> member_views(final(parts)@) == member_views(old(parts)@) + optional_part(
            key@,
            view_of(*value),
        ),
{
    match value {
        Some(cell) => {
            if !is_json(cell.raw.as_str()) {
                return Err(EncodeError {  });
            }
            put(parts, key, cell.copy());
            assert(member_views(parts@) =~= member_views(old(parts)@) + optional_part(
                key@,
                Some(cell@),
            ));
        },
        None => {
            assert(member_views(parts@) =~= member_views(old(parts)@) + optional_part(
                key@,
                None::<JsonView>,
            ));
        },
    }
    Ok(())
}

/// The text of a value that was built for writing.
pub fn text_of(tree: Result<Json, EncodeError>) -> (text: Result<String, EncodeError>)
    ensures
        text is Ok <==> tree is Ok,
        text matches Ok(text) ==> text@ == tree->Ok_0@.raw,
{
    match tree {
        Ok(tree) => Ok(tree.raw),
        Err(e) => Err(e),
    }
}

} // verus!
