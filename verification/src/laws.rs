//! What holds of the codec as a whole, proved from the models of decoding
//! and encoding.
//!
//! The models meet in the middle: an encoder's model gives the JSON value
//! that is written, a decoder's model takes a JSON value that was read.
//! The laws of this file are about the two together. They do not say that
//! the parser reads a written text as the value it was written for; that
//! is the parser's part.

use crate::dispatch::{
    claim_facts_of, claim_part, demographic_facts_of, diagnosis_facts_of, facts_of,
    labs_facts_of, medication_facts_of, procedure_facts_of,
};
use crate::envelope::{concepts_of, concepts_tree, context_of, event_of, strings_of};
use crate::error::{DecodeError, FactField};
use crate::facts::{
    ClaimFactsView, DemographicFactsView, DiagnosisFactsView, FactsView, LabsFactsView,
    MedicationFactsView, ProcedureFactsView,
};
use crate::json::json_valid;
use crate::leaves::{claim_of, code_of, cost_of, fill_of, interval_of, lab_value_of, subject_of};
use crate::parts::{
    location_part, member_raws, optional_integer_part, optional_part, optional_string_part, quoted,
    signed_tree, string_tree, tag_tree, unsigned_tree,
};
use crate::tags::Domain;
use crate::text::{
    decimal, lemma_decimal_digits, lemma_decimal_injective, member_text, member_texts,
};
use crate::tree::{decoded, lookup, tree_of, JsonView, NodeView};
use crate::types::{
    ClaimView, CodeView, ContextView, CostView, EventView, FillView, IntervalView, LabValueView,
    SubjectIDView,
};
use vstd::prelude::*;

verus! {

/// Two fields that differ stand under keys that differ.
pub proof fn lemma_keys_differ(a: FactField, b: FactField)
    ensures
        a != b ==> a.key() != b.key(),
{
    reveal_strlit("facts");
    reveal_strlit("claim");
    reveal_strlit("location");
    reveal_strlit("cost");
    reveal_strlit("code");
    reveal_strlit("codebook");
    reveal_strlit("value");
    reveal_strlit("fill");
    reveal_strlit("field");
    reveal_strlit("info");
    reveal_strlit("id");
    reveal_strlit("type");
    reveal_strlit("index");
    reveal_strlit("procedure");
    reveal_strlit("charge");
    reveal_strlit("allowed");
    reveal_strlit("transaction");
    reveal_strlit("days_supply");
    reveal_strlit("quantity");
    reveal_strlit("strength");
    reveal_strlit("text");
    reveal_strlit("number");
    reveal_strlit("units");
    assert("facts"@.len() == 5 && "facts"@[2] == 'c');
    assert("claim"@.len() == 5 && "claim"@[2] == 'a');
    assert("location"@.len() == 8 && "location"@[0] == 'l');
    assert("cost"@.len() == 4 && "cost"@[2] == 's');
    assert("code"@.len() == 4 && "code"@[2] == 'd');
    assert("codebook"@.len() == 8 && "codebook"@[0] == 'c');
    assert("value"@.len() == 5 && "value"@[2] == 'l');
    assert("fill"@.len() == 4 && "fill"@[2] == 'l');
    assert("field"@.len() == 5 && "field"@[2] == 'e');
    assert("info"@.len() == 4 && "info"@[2] == 'f');
    assert("id"@.len() == 2);
    assert("type"@.len() == 4 && "type"@[2] == 'p');
    assert("index"@.len() == 5 && "index"@[2] == 'd');
    assert("procedure"@.len() == 9);
    assert("charge"@.len() == 6 && "charge"@[0] == 'c');
    assert("allowed"@.len() == 7);
    assert("transaction"@.len() == 11 && "transaction"@[0] == 't');
    assert("days_supply"@.len() == 11 && "days_supply"@[0] == 'd');
    assert("quantity"@.len() == 8 && "quantity"@[0] == 'q');
    assert("strength"@.len() == 8 && "strength"@[0] == 's');
    assert("text"@.len() == 4 && "text"@[2] == 'x');
    assert("number"@.len() == 6 && "number"@[0] == 'n');
    assert("units"@.len() == 5 && "units"@[2] == 'i');
}

/// Looking a key up in two lists put together finds what the first list has
/// under it, and else what the second has.
pub proof fn lemma_lookup_concat(
    a: Seq<(Seq<char>, JsonView)>,
    b: Seq<(Seq<char>, JsonView)>,
    key: Seq<char>,
)
    ensures
        lookup(a + b, key) == match lookup(a, key) {
            Some(value) => Some(value),
            None => lookup(b, key),
        },
    decreases a.len(),
{
    if a.len() == 0 {
        assert(a + b =~= b);
    } else {
        assert((a + b)[0] == a[0]);
        assert((a + b).drop_first() =~= a.drop_first() + b);
        if a[0].0 != key {
            lemma_lookup_concat(a.drop_first(), b, key);
        }
    }
}

/// Looking a key up in a list of one member finds that member or nothing.
pub proof fn lemma_lookup_single(part: (Seq<char>, JsonView), key: Seq<char>)
    ensures
        lookup(seq![part], key) == if part.0 == key {
            Some(part.1)
        } else {
            None
        },
{
    let one = seq![part];
    assert(one[0] == part);
    assert(one.drop_first().len() == 0);
    assert(lookup(one.drop_first(), key) is None);
}

/// A subject identifier that is a number is written as a numeral, which holds
/// digits only and so is no string literal, and two such identifiers are
/// written alike only where they are the same number.
pub proof fn lemma_subject_number_kept(a: u64, b: u64)
    ensures
        forall|i: int|
            0 <= i < decimal(a as nat).len() ==> '0' <= #[trigger] SubjectIDView::Idint(a).text()[i]
                <= '9',
        SubjectIDView::Idint(a).text() == SubjectIDView::Idint(b).text() ==> a == b,
{
    lemma_decimal_digits(a as nat);
    if SubjectIDView::Idint(a).text() == SubjectIDView::Idint(b).text() {
        lemma_decimal_injective(a as nat, b as nat);
    }
}

/// Decoding the value that a subject identifier is written as gives the
/// identifier back, in the shape it had.
pub proof fn lemma_subject_round_trip(subject: SubjectIDView)
    ensures
        subject_of(subject.tree()) == Ok::<SubjectIDView, DecodeError>(subject),
{
}

/// Decoding the value that an interval is written as gives the interval back.
pub proof fn lemma_interval_round_trip(interval: IntervalView)
    ensures
        interval_of(interval.tree()) == Ok::<IntervalView, DecodeError>(interval),
{
    reveal_strlit("begin");
    reveal_strlit("end");
    assert("begin"@.len() == 5 && "end"@.len() == 3);
    let parts = interval.parts();
    let first = seq![parts[0]];
    let second = seq![parts[1]];
    assert(parts =~= first + second);
    lemma_lookup_concat(first, second, "begin"@);
    lemma_lookup_concat(first, second, "end"@);
    lemma_lookup_single(parts[0], "begin"@);
    lemma_lookup_single(parts[0], "end"@);
    lemma_lookup_single(parts[1], "end"@);
}

/// The value that a code is written with under `field`, if it is written with
/// one.
pub open spec fn code_part_at(code: CodeView, field: FactField) -> Option<JsonView> {
    match field {
        FactField::Code => Some(string_tree(code.code)),
        FactField::Codebook => match code.codebook {
            Some(v) => Some(tag_tree(v.tag_text())),
            None => None,
        },
        _ => None,
    }
}

/// Under each key, a code is written with the value of that member, and with
/// nothing where the member is absent: it is left out, not written as `null`.
pub proof fn lemma_code_parts(code: CodeView, field: FactField)
    ensures
        lookup(code.parts(), field.key()) == code_part_at(code, field),
{
    let key = field.key();
    let m0 = seq![(FactField::Code.key(), string_tree(code.code))];
    let m1 = match code.codebook {
        Some(v) => seq![(FactField::Codebook.key(), tag_tree(v.tag_text()))],
        None => Seq::empty(),
    };
    assert(code.parts() =~= m0 + m1);
    lemma_lookup_concat(m0, m1, key);
    lemma_lookup_single(m0[0], key);
    if code.codebook is Some {
        lemma_lookup_single(m1[0], key);
    }
    lemma_keys_differ(field, FactField::Code);
    lemma_keys_differ(field, FactField::Codebook);
}

/// Decoding the value that a code is written as gives it back, member for
/// member.
pub proof fn lemma_code_round_trip(code: CodeView)
    ensures
        code_of(code.tree()) == Ok::<CodeView, DecodeError>(code),
{
    lemma_code_parts(code, FactField::Code);
    lemma_code_parts(code, FactField::Codebook);
    if let Some(codebook) = code.codebook {
        codebook.lemma_tag_round_trip(codebook.tag_text());
    }
}

/// The value that a claim is written with under `field`, if it is written with
/// one.
pub open spec fn claim_part_at(claim: ClaimView, field: FactField) -> Option<JsonView> {
    match field {
        FactField::Id => Some(string_tree(claim.id)),
        FactField::Type => match claim.kind {
            Some(v) => Some(string_tree(v)),
            None => None,
        },
        FactField::Index => match claim.index {
            Some(v) => Some(unsigned_tree(v as u64)),
            None => None,
        },
        FactField::Procedure => match claim.procedure {
            Some(v) => Some(string_tree(v)),
            None => None,
        },
        _ => None,
    }
}

/// Under each key, a claim is written with the value of that member, and with
/// nothing where the member is absent: it is left out, not written as `null`.
pub proof fn lemma_claim_parts(claim: ClaimView, field: FactField)
    ensures
        lookup(claim.parts(), field.key()) == claim_part_at(claim, field),
{
    let key = field.key();
    let m0 = seq![(FactField::Id.key(), string_tree(claim.id))];
    let m1 = optional_string_part(FactField::Type.key(), claim.kind);
    let m2 = match claim.index {
        Some(v) => seq![(FactField::Index.key(), unsigned_tree(v as u64))],
        None => Seq::empty(),
    };
    let m3 = optional_string_part(FactField::Procedure.key(), claim.procedure);
    assert(claim.parts() =~= m0 + m1 + m2 + m3);
    lemma_lookup_concat(m0 + m1 + m2, m3, key);
    lemma_lookup_concat(m0 + m1, m2, key);
    lemma_lookup_concat(m0, m1, key);
    lemma_lookup_single(m0[0], key);
    if claim.kind is Some {
        lemma_lookup_single(m1[0], key);
    }
    if claim.index is Some {
        lemma_lookup_single(m2[0], key);
    }
    if claim.procedure is Some {
        lemma_lookup_single(m3[0], key);
    }
    lemma_keys_differ(field, FactField::Id);
    lemma_keys_differ(field, FactField::Type);
    lemma_keys_differ(field, FactField::Index);
    lemma_keys_differ(field, FactField::Procedure);
}

/// Decoding the value that a claim is written as gives it back, member for
/// member.
pub proof fn lemma_claim_round_trip(claim: ClaimView)
    ensures
        claim_of(claim.tree()) == Ok::<ClaimView, DecodeError>(claim),
{
    lemma_claim_parts(claim, FactField::Id);
    lemma_claim_parts(claim, FactField::Type);
    lemma_claim_parts(claim, FactField::Index);
    lemma_claim_parts(claim, FactField::Procedure);
}

/// The value that a cost is written with under `field`, if it is written with
/// one.
pub open spec fn cost_part_at(cost: CostView, field: FactField) -> Option<JsonView> {
    match field {
        FactField::Charge => match cost.charge {
            Some(v) => Some(string_tree(v)),
            None => None,
        },
        FactField::Cost => Some(string_tree(cost.cost)),
        FactField::Allowed => match cost.allowed {
            Some(v) => Some(string_tree(v)),
            None => None,
        },
        FactField::Transaction => match cost.transaction {
            Some(v) => Some(string_tree(v)),
            None => None,
        },
        _ => None,
    }
}

/// Under each key, a cost is written with the value of that member, and with
/// nothing where the member is absent: it is left out, not written as `null`.
pub proof fn lemma_cost_parts(cost: CostView, field: FactField)
    ensures
        lookup(cost.parts(), field.key()) == cost_part_at(cost, field),
{
    let key = field.key();
    let m0 = optional_string_part(FactField::Charge.key(), cost.charge);
    let m1 = seq![(FactField::Cost.key(), string_tree(cost.cost))];
    let m2 = optional_string_part(FactField::Allowed.key(), cost.allowed);
    let m3 = optional_string_part(FactField::Transaction.key(), cost.transaction);
    assert(cost.parts() =~= m0 + m1 + m2 + m3);
    lemma_lookup_concat(m0 + m1 + m2, m3, key);
    lemma_lookup_concat(m0 + m1, m2, key);
    lemma_lookup_concat(m0, m1, key);
    if cost.charge is Some {
        lemma_lookup_single(m0[0], key);
    }
    lemma_lookup_single(m1[0], key);
    if cost.allowed is Some {
        lemma_lookup_single(m2[0], key);
    }
    if cost.transaction is Some {
        lemma_lookup_single(m3[0], key);
    }
    lemma_keys_differ(field, FactField::Charge);
    lemma_keys_differ(field, FactField::Cost);
    lemma_keys_differ(field, FactField::Allowed);
    lemma_keys_differ(field, FactField::Transaction);
}

/// Decoding the value that a cost is written as gives it back, member for
/// member.
pub proof fn lemma_cost_round_trip(cost: CostView)
    ensures
        cost_of(cost.tree()) == Ok::<CostView, DecodeError>(cost),
{
    lemma_cost_parts(cost, FactField::Charge);
    lemma_cost_parts(cost, FactField::Cost);
    lemma_cost_parts(cost, FactField::Allowed);
    lemma_cost_parts(cost, FactField::Transaction);
}

/// The value that a fill is written with under `field`, if it is written with
/// one.
pub open spec fn fill_part_at(fill: FillView, field: FactField) -> Option<JsonView> {
    match field {
        FactField::DaysSupply => match fill.days_supply {
            Some(v) => Some(signed_tree(v)),
            None => None,
        },
        FactField::Quantity => match fill.quantity {
            Some(v) => Some(signed_tree(v)),
            None => None,
        },
        FactField::Strength => match fill.strength {
            Some(v) => Some(string_tree(v)),
            None => None,
        },
        _ => None,
    }
}

/// Under each key, a fill is written with the value of that member, and with
/// nothing where the member is absent: it is left out, not written as `null`.
pub proof fn lemma_fill_parts(fill: FillView, field: FactField)
    ensures
        lookup(fill.parts(), field.key()) == fill_part_at(fill, field),
{
    let key = field.key();
    let m0 = optional_integer_part(FactField::DaysSupply.key(), fill.days_supply);
    let m1 = optional_integer_part(FactField::Quantity.key(), fill.quantity);
    let m2 = optional_string_part(FactField::Strength.key(), fill.strength);
    assert(fill.parts() =~= m0 + m1 + m2);
    lemma_lookup_concat(m0 + m1, m2, key);
    lemma_lookup_concat(m0, m1, key);
    if fill.days_supply is Some {
        lemma_lookup_single(m0[0], key);
    }
    if fill.quantity is Some {
        lemma_lookup_single(m1[0], key);
    }
    if fill.strength is Some {
        lemma_lookup_single(m2[0], key);
    }
    lemma_keys_differ(field, FactField::DaysSupply);
    lemma_keys_differ(field, FactField::Quantity);
    lemma_keys_differ(field, FactField::Strength);
}

/// Decoding the value that a fill is written as gives it back, member for
/// member.
pub proof fn lemma_fill_round_trip(fill: FillView)
    ensures
        fill_of(fill.tree()) == Ok::<FillView, DecodeError>(fill),
{
    lemma_fill_parts(fill, FactField::DaysSupply);
    lemma_fill_parts(fill, FactField::Quantity);
    lemma_fill_parts(fill, FactField::Strength);
}

/// The value that a laboratory value is written with under `field`, if it is
/// written with one.
pub open spec fn lab_value_part_at(value: LabValueView, field: FactField) -> Option<JsonView> {
    match field {
        FactField::Text => match value.text {
            Some(v) => Some(string_tree(v)),
            None => None,
        },
        FactField::Number => value.number,
        FactField::Units => Some(string_tree(value.units)),
        _ => None,
    }
}

/// Under each key, a laboratory value is written with the value of that
/// member, and with nothing where the member is absent: it is left out, not
/// written as `null`.
pub proof fn lemma_lab_value_parts(value: LabValueView, field: FactField)
    ensures
        lookup(value.parts(), field.key()) == lab_value_part_at(value, field),
{
    let key = field.key();
    let m0 = optional_string_part(FactField::Text.key(), value.text);
    let m1 = optional_part(FactField::Number.key(), value.number);
    let m2 = seq![(FactField::Units.key(), string_tree(value.units))];
    assert(value.parts() =~= m0 + m1 + m2);
    lemma_lookup_concat(m0 + m1, m2, key);
    lemma_lookup_concat(m0, m1, key);
    if value.text is Some {
        lemma_lookup_single(m0[0], key);
    }
    if value.number is Some {
        lemma_lookup_single(m1[0], key);
    }
    lemma_lookup_single(m2[0], key);
    lemma_keys_differ(field, FactField::Text);
    lemma_keys_differ(field, FactField::Number);
    lemma_keys_differ(field, FactField::Units);
}

/// Decoding the value that a laboratory value, well formed, is written as
/// gives it back, member for member.
pub proof fn lemma_lab_value_round_trip(value: LabValueView)
    requires
        value.wf(),
    ensures
        lab_value_of(value.tree()) == Ok::<LabValueView, DecodeError>(value),
{
    lemma_lab_value_parts(value, FactField::Text);
    lemma_lab_value_parts(value, FactField::Number);
    lemma_lab_value_parts(value, FactField::Units);
}

/// The value that the facts of a claim are written with under `field`, if they
/// are written with one.
pub open spec fn claim_facts_part_at(facts: ClaimFactsView, field: FactField) -> Option<JsonView> {
    match field {
        FactField::Claim => Some(facts.claim.tree()),
        FactField::Location => match facts.location {
            Some(v) => Some(tag_tree(v.tag_text())),
            None => None,
        },
        FactField::Cost => match facts.cost {
            Some(v) => Some(v.tree()),
            None => None,
        },
        _ => None,
    }
}

/// Under each key, the facts of a claim are written with the value of that
/// member, and with nothing where the member is absent: it is left out, not
/// written as `null`.
pub proof fn lemma_claim_facts_parts(facts: ClaimFactsView, field: FactField)
    ensures
        lookup(facts.parts(), field.key()) == claim_facts_part_at(facts, field),
{
    let key = field.key();
    let m0 = seq![(FactField::Claim.key(), facts.claim.tree())];
    let m1 = location_part(facts.location);
    let m2 = match facts.cost {
        Some(v) => seq![(FactField::Cost.key(), v.tree())],
        None => Seq::empty(),
    };
    assert(facts.parts() =~= m0 + m1 + m2);
    lemma_lookup_concat(m0 + m1, m2, key);
    lemma_lookup_concat(m0, m1, key);
    lemma_lookup_single(m0[0], key);
    if facts.location is Some {
        lemma_lookup_single(m1[0], key);
    }
    if facts.cost is Some {
        lemma_lookup_single(m2[0], key);
    }
    lemma_keys_differ(field, FactField::Claim);
    lemma_keys_differ(field, FactField::Location);
    lemma_keys_differ(field, FactField::Cost);
}

/// Decoding the value that the facts of a claim are written as gives them
/// back, member for member.
pub proof fn lemma_claim_facts_round_trip(facts: ClaimFactsView)
    ensures
        claim_facts_of(facts.tree()) == Ok::<ClaimFactsView, DecodeError>(facts),
{
    lemma_claim_facts_parts(facts, FactField::Claim);
    lemma_claim_facts_parts(facts, FactField::Location);
    lemma_claim_facts_parts(facts, FactField::Cost);
    lemma_claim_round_trip(facts.claim);
    if let Some(location) = facts.location {
        location.lemma_tag_round_trip(location.tag_text());
    }
    if let Some(cost) = facts.cost {
        lemma_cost_round_trip(cost);
    }
}

/// The value that demographic facts are written with under `field`, if they
/// are written with one.
pub open spec fn demographic_facts_part_at(facts: DemographicFactsView, field: FactField) -> Option<
    JsonView,
> {
    match field {
        FactField::Field => Some(tag_tree(facts.field.tag_text())),
        FactField::Info => facts.info,
        _ => None,
    }
}

/// Under each key, demographic facts are written with the value of that
/// member, and with nothing where the member is absent: it is left out, not
/// written as `null`.
pub proof fn lemma_demographic_facts_parts(facts: DemographicFactsView, field: FactField)
    ensures
        lookup(facts.parts(), field.key()) == demographic_facts_part_at(facts, field),
{
    let key = field.key();
    let m0 = seq![(FactField::Field.key(), tag_tree(facts.field.tag_text()))];
    let m1 = optional_part(FactField::Info.key(), facts.info);
    assert(facts.parts() =~= m0 + m1);
    lemma_lookup_concat(m0, m1, key);
    lemma_lookup_single(m0[0], key);
    if facts.info is Some {
        lemma_lookup_single(m1[0], key);
    }
    lemma_keys_differ(field, FactField::Field);
    lemma_keys_differ(field, FactField::Info);
}

/// Decoding the value that demographic facts, well formed, are written as
/// gives them back, member for member.
pub proof fn lemma_demographic_facts_round_trip(facts: DemographicFactsView)
    requires
        FactsView::Demographics(facts).wf(),
    ensures
        demographic_facts_of(facts.tree()) == Ok::<DemographicFactsView, DecodeError>(facts),
{
    lemma_demographic_facts_parts(facts, FactField::Field);
    lemma_demographic_facts_parts(facts, FactField::Info);
    facts.field.lemma_tag_round_trip(facts.field.tag_text());
}

/// The value that the facts of a diagnosis are written with under `field`, if
/// they are written with one.
pub open spec fn diagnosis_facts_part_at(facts: DiagnosisFactsView, field: FactField) -> Option<
    JsonView,
> {
    match field {
        FactField::Code => Some(facts.code.tree()),
        FactField::Claim => match facts.claim {
            Some(v) => Some(v.tree()),
            None => None,
        },
        FactField::Location => match facts.location {
            Some(v) => Some(tag_tree(v.tag_text())),
            None => None,
        },
        _ => None,
    }
}

/// Under each key, the facts of a diagnosis are written with the value of that
/// member, and with nothing where the member is absent: it is left out, not
/// written as `null`.
pub proof fn lemma_diagnosis_facts_parts(facts: DiagnosisFactsView, field: FactField)
    ensures
        lookup(facts.parts(), field.key()) == diagnosis_facts_part_at(facts, field),
{
    let key = field.key();
    let m0 = seq![(FactField::Code.key(), facts.code.tree())];
    let m1 = claim_part(facts.claim);
    let m2 = location_part(facts.location);
    assert(facts.parts() =~= m0 + m1 + m2);
    lemma_lookup_concat(m0 + m1, m2, key);
    lemma_lookup_concat(m0, m1, key);
    lemma_lookup_single(m0[0], key);
    if facts.claim is Some {
        lemma_lookup_single(m1[0], key);
    }
    if facts.location is Some {
        lemma_lookup_single(m2[0], key);
    }
    lemma_keys_differ(field, FactField::Code);
    lemma_keys_differ(field, FactField::Claim);
    lemma_keys_differ(field, FactField::Location);
}

/// Decoding the value that the facts of a diagnosis are written as gives them
/// back, member for member.
pub proof fn lemma_diagnosis_facts_round_trip(facts: DiagnosisFactsView)
    ensures
        diagnosis_facts_of(facts.tree()) == Ok::<DiagnosisFactsView, DecodeError>(facts),
{
    lemma_diagnosis_facts_parts(facts, FactField::Code);
    lemma_diagnosis_facts_parts(facts, FactField::Claim);
    lemma_diagnosis_facts_parts(facts, FactField::Location);
    lemma_code_round_trip(facts.code);
    if let Some(claim) = facts.claim {
        lemma_claim_round_trip(claim);
    }
    if let Some(location) = facts.location {
        location.lemma_tag_round_trip(location.tag_text());
    }
}

/// The value that the facts of a laboratory result are written with under
/// `field`, if they are written with one.
pub open spec fn labs_facts_part_at(facts: LabsFactsView, field: FactField) -> Option<JsonView> {
    match field {
        FactField::Code => Some(facts.code.tree()),
        FactField::Value => Some(facts.value.tree()),
        FactField::Claim => match facts.claim {
            Some(v) => Some(v.tree()),
            None => None,
        },
        FactField::Location => match facts.location {
            Some(v) => Some(tag_tree(v.tag_text())),
            None => None,
        },
        _ => None,
    }
}

/// Under each key, the facts of a laboratory result are written with the value
/// of that member, and with nothing where the member is absent: it is left
/// out, not written as `null`.
pub proof fn lemma_labs_facts_parts(facts: LabsFactsView, field: FactField)
    ensures
        lookup(facts.parts(), field.key()) == labs_facts_part_at(facts, field),
{
    let key = field.key();
    let m0 = seq![(FactField::Code.key(), facts.code.tree())];
    let m1 = seq![(FactField::Value.key(), facts.value.tree())];
    let m2 = claim_part(facts.claim);
    let m3 = location_part(facts.location);
    assert(facts.parts() =~= m0 + m1 + m2 + m3);
    lemma_lookup_concat(m0 + m1 + m2, m3, key);
    lemma_lookup_concat(m0 + m1, m2, key);
    lemma_lookup_concat(m0, m1, key);
    lemma_lookup_single(m0[0], key);
    lemma_lookup_single(m1[0], key);
    if facts.claim is Some {
        lemma_lookup_single(m2[0], key);
    }
    if facts.location is Some {
        lemma_lookup_single(m3[0], key);
    }
    lemma_keys_differ(field, FactField::Code);
    lemma_keys_differ(field, FactField::Value);
    lemma_keys_differ(field, FactField::Claim);
    lemma_keys_differ(field, FactField::Location);
}

/// Decoding the value that the facts of a laboratory result, well formed, are
/// written as gives them back, member for member.
pub proof fn lemma_labs_facts_round_trip(facts: LabsFactsView)
    requires
        facts.value.wf(),
    ensures
        labs_facts_of(facts.tree()) == Ok::<LabsFactsView, DecodeError>(facts),
{
    lemma_labs_facts_parts(facts, FactField::Code);
    lemma_labs_facts_parts(facts, FactField::Value);
    lemma_labs_facts_parts(facts, FactField::Claim);
    lemma_labs_facts_parts(facts, FactField::Location);
    lemma_code_round_trip(facts.code);
    lemma_lab_value_round_trip(facts.value);
    if let Some(claim) = facts.claim {
        lemma_claim_round_trip(claim);
    }
    if let Some(location) = facts.location {
        location.lemma_tag_round_trip(location.tag_text());
    }
}

/// The value that the facts of a medication are written with under `field`, if
/// they are written with one.
pub open spec fn medication_facts_part_at(facts: MedicationFactsView, field: FactField) -> Option<
    JsonView,
> {
    match field {
        FactField::Code => Some(facts.code.tree()),
        FactField::Fill => match facts.fill {
            Some(v) => Some(v.tree()),
            None => None,
        },
        FactField::Location => match facts.location {
            Some(v) => Some(tag_tree(v.tag_text())),
            None => None,
        },
        FactField::Claim => match facts.claim {
            Some(v) => Some(v.tree()),
            None => None,
        },
        _ => None,
    }
}

/// Under each key, the facts of a medication are written with the value of
/// that member, and with nothing where the member is absent: it is left out,
/// not written as `null`.
pub proof fn lemma_medication_facts_parts(facts: MedicationFactsView, field: FactField)
    ensures
        lookup(facts.parts(), field.key()) == medication_facts_part_at(facts, field),
{
    let key = field.key();
    let m0 = seq![(FactField::Code.key(), facts.code.tree())];
    let m1 = match facts.fill {
        Some(v) => seq![(FactField::Fill.key(), v.tree())],
        None => Seq::empty(),
    };
    let m2 = location_part(facts.location);
    let m3 = claim_part(facts.claim);
    assert(facts.parts() =~= m0 + m1 + m2 + m3);
    lemma_lookup_concat(m0 + m1 + m2, m3, key);
    lemma_lookup_concat(m0 + m1, m2, key);
    lemma_lookup_concat(m0, m1, key);
    lemma_lookup_single(m0[0], key);
    if facts.fill is Some {
        lemma_lookup_single(m1[0], key);
    }
    if facts.location is Some {
        lemma_lookup_single(m2[0], key);
    }
    if facts.claim is Some {
        lemma_lookup_single(m3[0], key);
    }
    lemma_keys_differ(field, FactField::Code);
    lemma_keys_differ(field, FactField::Fill);
    lemma_keys_differ(field, FactField::Location);
    lemma_keys_differ(field, FactField::Claim);
}

/// Decoding the value that the facts of a medication are written as gives them
/// back, member for member.
pub proof fn lemma_medication_facts_round_trip(facts: MedicationFactsView)
    ensures
        medication_facts_of(facts.tree()) == Ok::<MedicationFactsView, DecodeError>(facts),
{
    lemma_medication_facts_parts(facts, FactField::Code);
    lemma_medication_facts_parts(facts, FactField::Fill);
    lemma_medication_facts_parts(facts, FactField::Location);
    lemma_medication_facts_parts(facts, FactField::Claim);
    lemma_code_round_trip(facts.code);
    if let Some(fill) = facts.fill {
        lemma_fill_round_trip(fill);
    }
    if let Some(location) = facts.location {
        location.lemma_tag_round_trip(location.tag_text());
    }
    if let Some(claim) = facts.claim {
        lemma_claim_round_trip(claim);
    }
}

/// The value that the facts of a procedure are written with under `field`, if
/// they are written with one.
pub open spec fn procedure_facts_part_at(facts: ProcedureFactsView, field: FactField) -> Option<
    JsonView,
> {
    match field {
        FactField::Code => Some(facts.code.tree()),
        FactField::Claim => match facts.claim {
            Some(v) => Some(v.tree()),
            None => None,
        },
        FactField::Location => match facts.location {
            Some(v) => Some(tag_tree(v.tag_text())),
            None => None,
        },
        _ => None,
    }
}

/// Under each key, the facts of a procedure are written with the value of that
/// member, and with nothing where the member is absent: it is left out, not
/// written as `null`.
pub proof fn lemma_procedure_facts_parts(facts: ProcedureFactsView, field: FactField)
    ensures
        lookup(facts.parts(), field.key()) == procedure_facts_part_at(facts, field),
{
    let key = field.key();
    let m0 = seq![(FactField::Code.key(), facts.code.tree())];
    let m1 = claim_part(facts.claim);
    let m2 = location_part(facts.location);
    assert(facts.parts() =~= m0 + m1 + m2);
    lemma_lookup_concat(m0 + m1, m2, key);
    lemma_lookup_concat(m0, m1, key);
    lemma_lookup_single(m0[0], key);
    if facts.claim is Some {
        lemma_lookup_single(m1[0], key);
    }
    if facts.location is Some {
        lemma_lookup_single(m2[0], key);
    }
    lemma_keys_differ(field, FactField::Code);
    lemma_keys_differ(field, FactField::Claim);
    lemma_keys_differ(field, FactField::Location);
}

/// Decoding the value that the facts of a procedure are written as gives them
/// back, member for member.
pub proof fn lemma_procedure_facts_round_trip(facts: ProcedureFactsView)
    ensures
        procedure_facts_of(facts.tree()) == Ok::<ProcedureFactsView, DecodeError>(facts),
{
    lemma_procedure_facts_parts(facts, FactField::Code);
    lemma_procedure_facts_parts(facts, FactField::Claim);
    lemma_procedure_facts_parts(facts, FactField::Location);
    lemma_code_round_trip(facts.code);
    if let Some(claim) = facts.claim {
        lemma_claim_round_trip(claim);
    }
    if let Some(location) = facts.location {
        location.lemma_tag_round_trip(location.tag_text());
    }
}

/// The value that facts are written with under `field`, if they are written
/// with one.
pub open spec fn facts_part_at(facts: FactsView, field: FactField) -> Option<JsonView> {
    match facts {
        FactsView::Claim(f) => claim_facts_part_at(f, field),
        FactsView::Demographics(f) => demographic_facts_part_at(f, field),
        FactsView::Diagnosis(f) => diagnosis_facts_part_at(f, field),
        FactsView::Labs(f) => labs_facts_part_at(f, field),
        FactsView::Medication(f) => medication_facts_part_at(f, field),
        FactsView::Procedure(f) => procedure_facts_part_at(f, field),
        FactsView::Death(_) | FactsView::Eligibility(_) | FactsView::Enrollment(_) => None,
    }
}

/// Whatever the domain, the payload is written under each key with the value
/// of that member, and with nothing where the member is absent.
pub proof fn lemma_facts_parts(facts: FactsView, field: FactField)
    ensures
        lookup(facts.parts(), field.key()) == facts_part_at(facts, field),
{
    match facts {
        FactsView::Claim(f) => lemma_claim_facts_parts(f, field),
        FactsView::Demographics(f) => lemma_demographic_facts_parts(f, field),
        FactsView::Diagnosis(f) => lemma_diagnosis_facts_parts(f, field),
        FactsView::Labs(f) => lemma_labs_facts_parts(f, field),
        FactsView::Medication(f) => lemma_medication_facts_parts(f, field),
        FactsView::Procedure(f) => lemma_procedure_facts_parts(f, field),
        FactsView::Death(_) | FactsView::Eligibility(_) | FactsView::Enrollment(_) => {},
    }
}

/// The facts that a payload decodes to are those of the domain that selected
/// the schema: tag and payload never disagree.
pub proof fn lemma_payload_matches_tag(domain: Domain, value: JsonView)
    ensures
        facts_of(domain, value) matches Ok(facts) ==> facts.domain() == domain,
{
}

/// Decoding, by the schema of their own domain, the value that well-formed
/// facts are written as gives the facts back.
pub proof fn lemma_facts_round_trip(facts: FactsView)
    requires
        facts.wf(),
    ensures
        facts_of(facts.domain(), facts.tree()) == Ok::<FactsView, DecodeError>(facts),
{
    match facts {
        FactsView::Claim(f) => lemma_claim_facts_round_trip(f),
        FactsView::Demographics(f) => lemma_demographic_facts_round_trip(f),
        FactsView::Diagnosis(f) => lemma_diagnosis_facts_round_trip(f),
        FactsView::Labs(f) => lemma_labs_facts_round_trip(f),
        FactsView::Medication(f) => lemma_medication_facts_round_trip(f),
        FactsView::Procedure(f) => lemma_procedure_facts_round_trip(f),
        FactsView::Death(_) | FactsView::Eligibility(_) | FactsView::Enrollment(_) => {},
    }
}

/// A code without a codebook is written without the member `codebook`: its
/// text is `{"code":` and the literal of the code and `}`.
pub proof fn lemma_code_omits_absent(code: CodeView)
    requires
        code.codebook is None,
    ensures
        lookup(code.parts(), FactField::Codebook.key()) is None,
        code.text() == seq!['{', '"'] + "code"@ + seq!['"', ':'] + quoted(code.code) + seq!['}'],
{
    lemma_code_parts(code, FactField::Codebook);
    let parts = code.parts();
    assert(parts =~= seq![(FactField::Code.key(), string_tree(code.code))]);
    let members = member_raws(parts);
    assert(members =~= seq![(FactField::Code.key(), quoted(code.code))]);
    assert(member_texts(members) =~= seq![member_text(members[0])]);
    assert(code.text() =~= seq!['{', '"'] + "code"@ + seq!['"', ':'] + quoted(code.code)
        + seq!['}']);
}

/// A context whose domain is a string outside the closed set is refused as of
/// an unknown domain, whatever the string and whatever else the context holds.
pub proof fn lemma_unknown_domain_refused(
    value: JsonView,
    members: Seq<(Seq<char>, JsonView)>,
    domain: JsonView,
    tag: Seq<char>,
)
    requires
        value.node == NodeView::Object(members),
        lookup(members, "domain"@) == Some(domain),
        domain.node == NodeView::String(tag),
        Domain::of_text(tag) is None,
    ensures
        context_of(value) == Err::<ContextView, DecodeError>(DecodeError::UnknownDomain),
{
}

/// The same of a text: where it is JSON and is read as a context whose
/// domain is a string outside the closed set, decoding it fails with an
/// unknown domain.
pub proof fn lemma_unknown_domain_text_refused(
    text: Seq<char>,
    depth: nat,
    members: Seq<(Seq<char>, JsonView)>,
    domain: JsonView,
    tag: Seq<char>,
)
    requires
        json_valid(text),
        tree_of(text, depth).node == NodeView::Object(members),
        lookup(members, "domain"@) == Some(domain),
        domain.node == NodeView::String(tag),
        Domain::of_text(tag) is None,
    ensures
        decoded(text, depth, |value: JsonView| context_of(value)) == Err::<
            ContextView,
            DecodeError,
        >(DecodeError::UnknownDomain),
{
    lemma_unknown_domain_refused(tree_of(text, depth), members, domain, tag);
}

/// A context is written with its four fixed members, and with each of the
/// attachments `source` and `misc` exactly where there is one.
pub proof fn lemma_context_parts(context: ContextView)
    ensures
        lookup(context.parts(), "patient_id"@) == Some(context.patient_id.tree()),
        lookup(context.parts(), "time"@) == Some(context.time.tree()),
        lookup(context.parts(), "domain"@) == Some(tag_tree(context.facts.domain().tag_text())),
        lookup(context.parts(), "facts"@) == Some(context.facts.tree()),
        lookup(context.parts(), "source"@) == context.source,
        lookup(context.parts(), "misc"@) == context.misc,
{
    reveal_strlit("patient_id");
    reveal_strlit("time");
    reveal_strlit("domain");
    reveal_strlit("facts");
    reveal_strlit("source");
    reveal_strlit("misc");
    assert("patient_id"@.len() == 10);
    assert("time"@.len() == 4 && "time"@[0] == 't');
    assert("domain"@.len() == 6 && "domain"@[0] == 'd');
    assert("facts"@.len() == 5);
    assert("source"@.len() == 6 && "source"@[0] == 's');
    assert("misc"@.len() == 4 && "misc"@[0] == 'm');
    let m0 = seq![("patient_id"@, context.patient_id.tree())];
    let m1 = seq![("time"@, context.time.tree())];
    let m2 = seq![("domain"@, tag_tree(context.facts.domain().tag_text()))];
    let m3 = seq![(FactField::Facts.key(), context.facts.tree())];
    let m4 = optional_part("source"@, context.source);
    let m5 = optional_part("misc"@, context.misc);
    assert(context.parts() =~= m0 + m1 + m2 + m3 + m4 + m5);
    lemma_context_lookup(m0, m1, m2, m3, m4, m5, "patient_id"@);
    lemma_context_lookup(m0, m1, m2, m3, m4, m5, "time"@);
    lemma_context_lookup(m0, m1, m2, m3, m4, m5, "domain"@);
    lemma_context_lookup(m0, m1, m2, m3, m4, m5, "facts"@);
    lemma_context_lookup(m0, m1, m2, m3, m4, m5, "source"@);
    lemma_context_lookup(m0, m1, m2, m3, m4, m5, "misc"@);
}

proof fn lemma_context_lookup(
    m0: Seq<(Seq<char>, JsonView)>,
    m1: Seq<(Seq<char>, JsonView)>,
    m2: Seq<(Seq<char>, JsonView)>,
    m3: Seq<(Seq<char>, JsonView)>,
    m4: Seq<(Seq<char>, JsonView)>,
    m5: Seq<(Seq<char>, JsonView)>,
    key: Seq<char>,
)
    requires
        m0.len() == 1,
        m1.len() == 1,
        m2.len() == 1,
        m3.len() == 1,
        m4.len() <= 1,
        m5.len() <= 1,
    ensures
        lookup(m0 + m1 + m2 + m3 + m4 + m5, key) == if m0[0].0 == key {
            Some(m0[0].1)
        } else if m1[0].0 == key {
            Some(m1[0].1)
        } else if m2[0].0 == key {
            Some(m2[0].1)
        } else if m3[0].0 == key {
            Some(m3[0].1)
        } else if m4.len() == 1 && m4[0].0 == key {
            Some(m4[0].1)
        } else if m5.len() == 1 && m5[0].0 == key {
            Some(m5[0].1)
        } else {
            None
        },
{
    lemma_lookup_concat(m0 + m1 + m2 + m3 + m4, m5, key);
    lemma_lookup_concat(m0 + m1 + m2 + m3, m4, key);
    lemma_lookup_concat(m0 + m1 + m2, m3, key);
    lemma_lookup_concat(m0 + m1, m2, key);
    lemma_lookup_concat(m0, m1, key);
    assert(m0 =~= seq![m0[0]]);
    assert(m1 =~= seq![m1[0]]);
    assert(m2 =~= seq![m2[0]]);
    assert(m3 =~= seq![m3[0]]);
    lemma_lookup_single(m0[0], key);
    lemma_lookup_single(m1[0], key);
    lemma_lookup_single(m2[0], key);
    lemma_lookup_single(m3[0], key);
    if m4.len() == 1 {
        assert(m4 =~= seq![m4[0]]);
        lemma_lookup_single(m4[0], key);
    }
    if m5.len() == 1 {
        assert(m5 =~= seq![m5[0]]);
        lemma_lookup_single(m5[0], key);
    }
}

/// Decoding the value that a well-formed context is written as gives the
/// context back: the subject in its shape, the time, the facts of the same
/// domain, and the attachments as they stood.
pub proof fn lemma_context_round_trip(context: ContextView)
    requires
        context.wf(),
    ensures
        context_of(context.tree()) == Ok::<ContextView, DecodeError>(context),
{
    lemma_context_parts(context);
    lemma_subject_round_trip(context.patient_id);
    lemma_interval_round_trip(context.time);
    lemma_facts_round_trip(context.facts);
    context.facts.domain().lemma_tag_round_trip(context.facts.domain().tag_text());
}

/// Decoding the value that a list of concepts is written as gives the concepts
/// back, in their order and with their repetitions.
pub proof fn lemma_concepts_round_trip(concepts: Seq<Seq<char>>)
    ensures
        concepts_of(concepts_tree(concepts)) == Ok::<Seq<Seq<char>>, DecodeError>(concepts),
{
    let items = concepts.map_values(|concept: Seq<char>| string_tree(concept));
    assert forall|i: int| 0 <= i < items.len() implies (#[trigger] items[i]).node is String by {}
    assert(strings_of(items)->Some_0 =~= concepts);
}

/// Decoding the value that a well-formed event is written as gives the event
/// back, cell for cell: what was decoded and then encoded is decoded to the
/// same event again.
pub proof fn lemma_event_round_trip(event: EventView)
    requires
        event.wf(),
    ensures
        event_of(event.tree()) == Ok::<EventView, DecodeError>(event),
{
    let cells = event.cells();
    assert(cells.len() == 6);
    lemma_subject_round_trip(event.p);
    lemma_concepts_round_trip(event.concepts);
    lemma_context_round_trip(event.context);
}

/// Whatever value an event is decoded from, the event is well formed: its tag
/// spells a domain, no attachment that is there is `null`, and a number of a
/// laboratory result is marked as one.
pub proof fn lemma_decoded_event_is_well_formed(value: JsonView)
    ensures
        event_of(value) matches Ok(event) ==> event.wf(),
{
    if let Ok(event) = event_of(value) {
        let cells = value.node->Array_0;
        lemma_decoded_context_is_well_formed(cells[5]);
    }
}

/// Whatever value a context is decoded from, the context is well formed.
pub proof fn lemma_decoded_context_is_well_formed(value: JsonView)
    ensures
        context_of(value) matches Ok(context) ==> context.wf(),
{
}

/// Decoding again what was decoded and encoded gives the same event: for every
/// value that an event is decoded from, the value that this event is written
/// as is decoded to this event.
pub proof fn lemma_redecoding_gives_the_same_event(value: JsonView)
    ensures
        event_of(value) matches Ok(event) ==> event_of(event.tree()) == Ok::<
            EventView,
            DecodeError,
        >(event),
{
    if let Ok(event) = event_of(value) {
        lemma_decoded_event_is_well_formed(value);
        lemma_event_round_trip(event);
    }
}

/// Writing again what was read from a written event gives the same text:
/// the value that a well-formed event is written as is decoded to an event
/// with the very text of the first.
pub proof fn lemma_rewriting_gives_the_same_text(event: EventView)
    requires
        event.wf(),
    ensures
        event_of(event.tree()) matches Ok(again) && again.text() == event.text(),
{
    lemma_event_round_trip(event);
}

} // verus!
