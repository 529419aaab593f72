//! Reading the members of a JSON object by the kinds that the facts are made
//! of: strings, integers of a width, tags of a closed set.
//!
//! Each reader comes with a model over the list of members, which says what
//! is read or why nothing is. A member that must be there is looked up as it
//! stands; one that may be absent is absent also where it is `null`.

use crate::error::{agrees, DecodeError, FactField};
use crate::tags::{Codebook, Location};
use crate::tree::{
    find, find_present, lookup, member_views, present, view_of, JsonView, Member, Node, NodeView,
};
use vstd::prelude::*;

verus! {

/// Whether a decoded value that may be absent, or the failure to decode one,
/// is what the model says.
pub open spec fn agrees_opt<T: View>(
    result: Result<Option<T>, DecodeError>,
    model: Result<Option<T::V>, DecodeError>,
) -> bool {
    match result {
        Ok(value) => model == Ok::<Option<T::V>, DecodeError>(view_of(value)),
        Err(e) => model == Err::<Option<T::V>, DecodeError>(e),
    }
}

/// A value that must be a string, read for the member `field`.
pub open spec fn string_of(value: JsonView, field: FactField) -> Result<Seq<char>, DecodeError> {
    match value.node {
        NodeView::String(s) => Ok(s),
        _ => Err(DecodeError::InvalidFacts(field)),
    }
}

/// A member that must be there and be a string.
pub open spec fn string_at(members: Seq<(Seq<char>, JsonView)>, field: FactField) -> Result<
    Seq<char>,
    DecodeError,
> {
    match lookup(members, field.key()) {
        Some(value) => string_of(value, field),
        None => Err(DecodeError::InvalidFacts(field)),
    }
}

/// A member that, where it is there, must be a string.
pub open spec fn optional_string_at(
    members: Seq<(Seq<char>, JsonView)>,
    field: FactField,
) -> Result<Option<Seq<char>>, DecodeError> {
    match present(members, field.key()) {
        Some(value) => match string_of(value, field) {
            Ok(s) => Ok(Some(s)),
            Err(e) => Err(e),
        },
        None => Ok(None),
    }
}

/// A member that, where it is there, must be an integer of 32 bits without
/// sign.
pub open spec fn optional_u32_at(members: Seq<(Seq<char>, JsonView)>, field: FactField) -> Result<
    Option<u32>,
    DecodeError,
> {
    match present(members, field.key()) {
        Some(value) => match value.node {
            NodeView::Number { unsigned: Some(n), .. } => if n <= u32::MAX {
                Ok(Some(n as u32))
            } else {
                Err(DecodeError::InvalidFacts(field))
            },
            _ => Err(DecodeError::InvalidFacts(field)),
        },
        None => Ok(None),
    }
}

/// A member that, where it is there, must be an integer of 32 bits with
/// sign.
pub open spec fn optional_i32_at(members: Seq<(Seq<char>, JsonView)>, field: FactField) -> Result<
    Option<i32>,
    DecodeError,
> {
    match present(members, field.key()) {
        Some(value) => match value.node {
            NodeView::Number { signed: Some(n), .. } => if i32::MIN <= n <= i32::MAX {
                Ok(Some(n as i32))
            } else {
                Err(DecodeError::InvalidFacts(field))
            },
            _ => Err(DecodeError::InvalidFacts(field)),
        },
        None => Ok(None),
    }
}

/// The member `location`, which, where it is there, must spell a location.
pub open spec fn optional_location_at(members: Seq<(Seq<char>, JsonView)>) -> Result<
    Option<Location>,
    DecodeError,
> {
    match present(members, FactField::Location.key()) {
        Some(value) => match value.node {
            NodeView::String(tag) => match Location::of_text(tag) {
                Some(location) => Ok(Some(location)),
                None => Err(DecodeError::InvalidFacts(FactField::Location)),
            },
            _ => Err(DecodeError::InvalidFacts(FactField::Location)),
        },
        None => Ok(None),
    }
}

/// The member `codebook`, which, where it is there, must spell a codebook.
pub open spec fn optional_codebook_at(members: Seq<(Seq<char>, JsonView)>) -> Result<
    Option<Codebook>,
    DecodeError,
> {
    match present(members, FactField::Codebook.key()) {
        Some(value) => match value.node {
            NodeView::String(tag) => match Codebook::of_text(tag) {
                Some(codebook) => Ok(Some(codebook)),
                None => Err(DecodeError::InvalidFacts(FactField::Codebook)),
            },
            _ => Err(DecodeError::InvalidFacts(FactField::Codebook)),
        },
        None => Ok(None),
    }
}

/// Reads a member that must be there and be a string.
pub fn get_string(members: &Vec<Member>, field: FactField) -> (result: Result<String, DecodeError>)
    ensures
        agrees(result, string_at(member_views(members@), field)),
{
    match find(members, field.name()) {
        Some(value) => match &value.node {
            Node::String(s) => Ok(s.clone()),
            _ => Err(DecodeError::InvalidFacts(field)),
        },
        None => Err(DecodeError::InvalidFacts(field)),
    }
}

/// Reads a member that, where it is there, must be a string.
pub fn get_optional_string(members: &Vec<Member>, field: FactField) -> (result: Result<
    Option<String>,
    DecodeError,
>)
    ensures
        agrees_opt(result, optional_string_at(member_views(members@), field)),
{
    match find_present(members, field.name()) {
        Some(value) => match &value.node {
            Node::String(s) => Ok(Some(s.clone())),
            _ => Err(DecodeError::InvalidFacts(field)),
        },
        None => Ok(None),
    }
}

/// Reads a member that, where it is there, must be an integer of 32 bits
/// without sign.
pub fn get_optional_u32(members: &Vec<Member>, field: FactField) -> (result: Result<
    Option<u32>,
    DecodeError,
>)
    ensures
        result == optional_u32_at(member_views(members@), field),
{
    match find_present(members, field.name()) {
        Some(value) => match value.node {
            Node::Number { unsigned: Some(n), .. } => if n <= u32::MAX as u64 {
                Ok(Some(n as u32))
            } else {
                Err(DecodeError::InvalidFacts(field))
            },
            _ => Err(DecodeError::InvalidFacts(field)),
        },
        None => Ok(None),
    }
}

/// Reads a member that, where it is there, must be an integer of 32 bits
/// with sign.
pub fn get_optional_i32(members: &Vec<Member>, field: FactField) -> (result: Result<
    Option<i32>,
    DecodeError,
>)
    ensures
        result == optional_i32_at(member_views(members@), field),
{
    match find_present(members, field.name()) {
        Some(value) => match value.node {
            Node::Number { signed: Some(n), .. } => if i32::MIN as i64 <= n
                && n <= i32::MAX as i64 {
                Ok(Some(n as i32))
            } else {
                Err(DecodeError::InvalidFacts(field))
            },
            _ => Err(DecodeError::InvalidFacts(field)),
        },
        None => Ok(None),
    }
}

/// Reads the member `location`.
pub fn get_optional_location(members: &Vec<Member>) -> (result: Result<
    Option<Location>,
    DecodeError,
>)
    ensures
        result == optional_location_at(member_views(members@)),
{
    match find_present(members, FactField::Location.name()) {
        Some(value) => match &value.node {
            Node::String(tag) => match Location::from_tag(tag.as_str()) {
                Some(location) => Ok(Some(location)),
                None => Err(DecodeError::InvalidFacts(FactField::Location)),
            },
            _ => Err(DecodeError::InvalidFacts(FactField::Location)),
        },
        None => Ok(None),
    }
}

/// Reads the member `codebook`.
pub fn get_optional_codebook(members: &Vec<Member>) -> (result: Result<
    Option<Codebook>,
    DecodeError,
>)
    ensures
        result == optional_codebook_at(member_views(members@)),
{
    match find_present(members, FactField::Codebook.name()) {
        Some(value) => match &value.node {
            Node::String(tag) => match Codebook::from_tag(tag.as_str()) {
                Some(codebook) => Ok(Some(codebook)),
                None => Err(DecodeError::InvalidFacts(FactField::Codebook)),
            },
            _ => Err(DecodeError::InvalidFacts(FactField::Codebook)),
        },
        None => Ok(None),
    }
}

} // verus!
