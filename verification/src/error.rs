//! The ways in which decoding and encoding fail.

use vstd::prelude::*;

verus! {

/// A member of a facts payload, as named on the wire.
#[derive(Clone, Copy, Debug, PartialEq, Eq, Structural)]
pub enum FactField {
    Facts,
    Claim,
    Location,
    Cost,
    Code,
    Codebook,
    Value,
    Fill,
    Field,
    Info,
    Id,
    Type,
    Index,
    Procedure,
    Charge,
    Allowed,
    Transaction,
    DaysSupply,
    Quantity,
    Strength,
    Text,
    Number,
    Units,
}

impl FactField {
    /// The key under which the member stands in its object.
    pub open spec fn key(self) -> Seq<char> {
        match self {
            FactField::Facts => "facts"@,
            FactField::Claim => "claim"@,
            FactField::Location => "location"@,
            FactField::Cost => "cost"@,
            FactField::Code => "code"@,
            FactField::Codebook => "codebook"@,
            FactField::Value => "value"@,
            FactField::Fill => "fill"@,
            FactField::Field => "field"@,
            FactField::Info => "info"@,
            FactField::Id => "id"@,
            FactField::Type => "type"@,
            FactField::Index => "index"@,
            FactField::Procedure => "procedure"@,
            FactField::Charge => "charge"@,
            FactField::Allowed => "allowed"@,
            FactField::Transaction => "transaction"@,
            FactField::DaysSupply => "days_supply"@,
            FactField::Quantity => "quantity"@,
            FactField::Strength => "strength"@,
            FactField::Text => "text"@,
            FactField::Number => "number"@,
            FactField::Units => "units"@,
        }
    }

    /// The key under which the member stands in its object.
    pub fn name(self) -> (s: &'static str)
        ensures
            s@ == self.key(),
    {
        match self {
            FactField::Facts => "facts",
            FactField::Claim => "claim",
            FactField::Location => "location",
            FactField::Cost => "cost",
            FactField::Code => "code",
            FactField::Codebook => "codebook",
            FactField::Value => "value",
            FactField::Fill => "fill",
            FactField::Field => "field",
            FactField::Info => "info",
            FactField::Id => "id",
            FactField::Type => "type",
            FactField::Index => "index",
            FactField::Procedure => "procedure",
            FactField::Charge => "charge",
            FactField::Allowed => "allowed",
            FactField::Transaction => "transaction",
            FactField::DaysSupply => "days_supply",
            FactField::Quantity => "quantity",
            FactField::Strength => "strength",
            FactField::Text => "text",
            FactField::Number => "number",
            FactField::Units => "units",
        }
    }
}

/// Why a text was not decoded.
#[derive(Clone, Copy, Debug, PartialEq, Eq, Structural)]
pub enum DecodeError {
    /// The input is not well-formed JSON.
    SyntaxError,
    /// The envelope is not an array of six cells, or a cell or a member of
    /// the context is missing or of the wrong JSON kind for its place.
    MalformedEnvelope,
    /// A subject identifier or a time interval has none of its shapes.
    ShapeMismatch,
    /// The domain tag is not one of the closed set.
    UnknownDomain,
    /// The facts payload does not fit the schema that the domain selects;
    /// the field is the innermost member that is missing or ill-shaped.
    InvalidFacts(FactField),
}

/// A value could not be encoded: it holds an opaque cell that is not JSON, a
/// domain tag outside the closed set, or a string that has no JSON literal.
#[derive(Clone, Copy, Debug, PartialEq, Eq, Structural)]
pub struct EncodeError {}

/// Whether a decoded value, or the failure to decode one, is what the model
/// of decoding says.
pub open spec fn agrees<T: View>(
    result: Result<T, DecodeError>,
    model: Result<T::V, DecodeError>,
) -> bool {
    match result {
        Ok(value) => model == Ok::<T::V, DecodeError>(value@),
        Err(e) => model == Err::<T::V, DecodeError>(e),
    }
}

} // verus!
