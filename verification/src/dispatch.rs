//! The facts of a context: one schema per domain, the dispatch on the
//! domain tag that selects it when decoding, and the value that each is
//! written as when encoding.

use crate::error::{agrees, DecodeError, EncodeError, FactField};
use crate::facts::{
    ClaimFacts, ClaimFactsView, DeathFacts, DemographicFacts, DemographicFactsView,
    DiagnosisFacts, DiagnosisFactsView, EligibilityFacts, EnrollmentFacts, Facts, FactsView,
    LabsFacts, LabsFactsView, MedicationFacts, MedicationFactsView, ProcedureFacts,
    ProcedureFactsView,
};
use crate::leaves::{claim_of, code_of, cost_of, fill_of, lab_value_of};
use crate::members::{get_optional_location, optional_location_at};
use crate::parts::{
    location_part, object_tree, optional_part, put, put_location, put_optional_cell, tag_tree,
    text_of,
};
use crate::tags::{DemographicField, Domain};
use crate::tree::{
    find, find_present, lookup, member_views, present, view_of, Json, JsonView, Member, Node,
    NodeView,
};
use crate::types::{valid_or_absent, Claim, ClaimView, Code, Cost, Fill, LabValue};
use vstd::prelude::*;

verus! {

/// A member that must be there, read by `decode`.
pub open spec fn required<T>(
    members: Seq<(Seq<char>, JsonView)>,
    field: FactField,
    decode: spec_fn(JsonView) -> Result<T, DecodeError>,
) -> Result<T, DecodeError> {
    match lookup(members, field.key()) {
        Some(value) => decode(value),
        None => Err(DecodeError::InvalidFacts(field)),
    }
}

/// A member that, where it is there, is read by `decode`.
pub open spec fn optional<T>(
    members: Seq<(Seq<char>, JsonView)>,
    field: FactField,
    decode: spec_fn(JsonView) -> Result<T, DecodeError>,
) -> Result<Option<T>, DecodeError> {
    match present(members, field.key()) {
        Some(value) => match decode(value) {
            Ok(value) => Ok(Some(value)),
            Err(e) => Err(e),
        },
        None => Ok(None),
    }
}

/// A member that holds a claim, written only where there is one.
pub open spec fn claim_part(claim: Option<ClaimView>) -> Seq<(Seq<char>, JsonView)> {
    match claim {
        Some(claim) => seq![(FactField::Claim.key(), claim.tree())],
        None => Seq::empty(),
    }
}

/// Whether a claim that may be absent has, where present, a text.
pub open spec fn claim_encodable(claim: Option<ClaimView>) -> bool {
    claim matches Some(claim) ==> claim.encodable()
}

fn put_claim(parts: &mut Vec<Member>, claim: &Option<Claim>) -> (result: Result<(), EncodeError>)
    ensures
        result is Ok <==> claim_encodable(view_of(*claim)),
        result is Ok ==> member_views(final(parts)@) == member_views(old(parts)@) + claim_part(
            view_of(*claim),
        ),
{
    match claim {
        Some(claim) => {
            let tree = claim.to_json()?;
            put(parts, FactField::Claim.name(), tree);
            assert(member_views(parts@) =~= member_views(old(parts)@) + claim_part(Some(claim@)));
        },
        None => {
            assert(member_views(parts@) =~= member_views(old(parts)@) + claim_part(None));
        },
    }
    Ok(())
}

/// The facts of a claim that a value stands for.
pub open spec fn claim_facts_of(value: JsonView) -> Result<ClaimFactsView, DecodeError> {
    match value.node {
        NodeView::Object(members) => match required(
            members,
            FactField::Claim,
            |v: JsonView| claim_of(v),
        ) {
            Ok(claim) => match optional_location_at(members) {
                Ok(location) => match optional(members, FactField::Cost, |v: JsonView| cost_of(v)) {
                    Ok(cost) => Ok(ClaimFactsView { claim, location, cost }),
                    Err(e) => Err(e),
                },
                Err(e) => Err(e),
            },
            Err(e) => Err(e),
        },
        _ => Err(DecodeError::InvalidFacts(FactField::Facts)),
    }
}

impl ClaimFacts {
    /// Decodes the facts of a claim.
    pub fn from_json(value: &Json) -> (result: Result<ClaimFacts, DecodeError>)
        ensures
            agrees(result, claim_facts_of(value@)),
    {
        let members = match value.members() {
            Some(members) => members,
            None => return Err(DecodeError::InvalidFacts(FactField::Facts)),
        };
        let claim = match find(members, FactField::Claim.name()) {
            Some(value) => Claim::from_json(value)?,
            None => return Err(DecodeError::InvalidFacts(FactField::Claim)),
        };
        let location = get_optional_location(members)?;
        let cost = match find_present(members, FactField::Cost.name()) {
            Some(value) => Some(Cost::from_json(value)?),
            None => None,
        };
        Ok(ClaimFacts { claim, location, cost })
    }

    /// The value that the facts are written as.
    pub fn to_json(&self) -> (result: Result<Json, EncodeError>)
        ensures
            result is Ok <==> self@.encodable(),
            result matches Ok(tree) ==> tree@ == self@.tree(),
    {
        let mut parts: Vec<Member> = Vec::new();
        let claim = self.claim.to_json()?;
        put(&mut parts, FactField::Claim.name(), claim);
        put_location(&mut parts, self.location);
        match &self.cost {
            Some(cost) => {
                let tree = cost.to_json()?;
                put(&mut parts, FactField::Cost.name(), tree);
            },
            None => {},
        }
        assert(member_views(parts@) =~= self@.parts());
        Ok(Json::object(parts))
    }

    /// Encodes the facts.
    pub fn encode(&self) -> (result: Result<String, EncodeError>)
        ensures
            result is Ok <==> self@.encodable(),
            result matches Ok(text) ==> text@ == self@.text(),
    {
        text_of(self.to_json())
    }
}

impl ClaimFactsView {
    /// Whether the facts have a text.
    pub open spec fn encodable(self) -> bool {
        &&& self.claim.encodable()
        &&& self.cost matches Some(cost) ==> cost.encodable()
    }

    /// The members of the facts.
    pub open spec fn parts(self) -> Seq<(Seq<char>, JsonView)> {
        seq![(FactField::Claim.key(), self.claim.tree())]
            + location_part(self.location)
            + match self.cost {
                Some(cost) => seq![(FactField::Cost.key(), cost.tree())],
                None => Seq::empty(),
            }
    }

    /// The facts as they are written.
    pub open spec fn tree(self) -> JsonView {
        object_tree(self.parts())
    }

    /// The text of the facts.
    pub open spec fn text(self) -> Seq<char> {
        self.tree().raw
    }
}

/// The member `field` of demographic facts, which must spell a demographic
/// field.
pub open spec fn demographic_field_at(members: Seq<(Seq<char>, JsonView)>) -> Result<
    DemographicField,
    DecodeError,
> {
    match lookup(members, FactField::Field.key()) {
        Some(value) => match value.node {
            NodeView::String(tag) => match DemographicField::of_text(tag) {
                Some(field) => Ok(field),
                None => Err(DecodeError::InvalidFacts(FactField::Field)),
            },
            _ => Err(DecodeError::InvalidFacts(FactField::Field)),
        },
        None => Err(DecodeError::InvalidFacts(FactField::Field)),
    }
}

/// The demographic facts that a value stands for. The member `info` is
/// kept as it stands, whatever JSON it is.
pub open spec fn demographic_facts_of(value: JsonView) -> Result<
    DemographicFactsView,
    DecodeError,
> {
    match value.node {
        NodeView::Object(members) => match demographic_field_at(members) {
            Ok(field) => Ok(
                DemographicFactsView { field, info: present(members, FactField::Info.key()) },
            ),
            Err(e) => Err(e),
        },
        _ => Err(DecodeError::InvalidFacts(FactField::Facts)),
    }
}

impl DemographicFacts {
    /// Decodes demographic facts. What is known of the field is not `null`;
    /// and where the value that is decoded is sound, it has the text of a
    /// JSON value.
    pub fn from_json(value: &Json) -> (result: Result<DemographicFacts, DecodeError>)
        ensures
            agrees(result, demographic_facts_of(value@)),
            result matches Ok(facts) ==> FactsView::Demographics(facts@).wf() && (value@.sound()
                ==> FactsView::Demographics(facts@).valid()),
    {
        let members = match value.members() {
            Some(members) => members,
            None => return Err(DecodeError::InvalidFacts(FactField::Facts)),
        };
        let field = match find(members, FactField::Field.name()) {
            Some(value) => match &value.node {
                Node::String(tag) => match DemographicField::from_tag(tag.as_str()) {
                    Some(field) => field,
                    None => return Err(DecodeError::InvalidFacts(FactField::Field)),
                },
                _ => return Err(DecodeError::InvalidFacts(FactField::Field)),
            },
            None => return Err(DecodeError::InvalidFacts(FactField::Field)),
        };
        let info = match find_present(members, FactField::Info.name()) {
            Some(value) => Some(value.copy()),
            None => None,
        };
        Ok(DemographicFacts { field, info })
    }

    /// The value that the facts are written as.
    pub fn to_json(&self) -> (result: Result<Json, EncodeError>)
        ensures
            result is Ok <==> self@.encodable(),
            result matches Ok(tree) ==> tree@ == self@.tree(),
    {
        let mut parts: Vec<Member> = Vec::new();
        put(&mut parts, FactField::Field.name(), Json::tag(self.field.tag()));
        put_optional_cell(&mut parts, FactField::Info.name(), &self.info)?;
        assert(member_views(parts@) =~= self@.parts());
        Ok(Json::object(parts))
    }

    /// Encodes the facts.
    pub fn encode(&self) -> (result: Result<String, EncodeError>)
        ensures
            result is Ok <==> self@.encodable(),
            result matches Ok(text) ==> text@ == self@.text(),
    {
        text_of(self.to_json())
    }
}

impl DemographicFactsView {
    /// Whether the facts have a text: what is known of the field, where
    /// anything is, must be JSON.
    pub open spec fn encodable(self) -> bool {
        valid_or_absent(self.info)
    }

    /// The members of the facts.
    pub open spec fn parts(self) -> Seq<(Seq<char>, JsonView)> {
        seq![(FactField::Field.key(), tag_tree(self.field.tag_text()))] + optional_part(
            FactField::Info.key(),
            self.info,
        )
    }

    /// The facts as they are written.
    pub open spec fn tree(self) -> JsonView {
        object_tree(self.parts())
    }

    /// The text of the facts.
    pub open spec fn text(self) -> Seq<char> {
        self.tree().raw
    }
}

/// The facts of a diagnosis that a value stands for.
pub open spec fn diagnosis_facts_of(value: JsonView) -> Result<DiagnosisFactsView, DecodeError> {
    match value.node {
        NodeView::Object(members) => match required(
            members,
            FactField::Code,
            |v: JsonView| code_of(v),
        ) {
            Ok(code) => match optional(members, FactField::Claim, |v: JsonView| claim_of(v)) {
                Ok(claim) => match optional_location_at(members) {
                    Ok(location) => Ok(DiagnosisFactsView { code, claim, location }),
                    Err(e) => Err(e),
                },
                Err(e) => Err(e),
            },
            Err(e) => Err(e),
        },
        _ => Err(DecodeError::InvalidFacts(FactField::Facts)),
    }
}

impl DiagnosisFacts {
    /// Decodes the facts of a diagnosis.
    pub fn from_json(value: &Json) -> (result: Result<DiagnosisFacts, DecodeError>)
        ensures
            agrees(result, diagnosis_facts_of(value@)),
    {
        let members = match value.members() {
            Some(members) => members,
            None => return Err(DecodeError::InvalidFacts(FactField::Facts)),
        };
        let code = match find(members, FactField::Code.name()) {
            Some(value) => Code::from_json(value)?,
            None => return Err(DecodeError::InvalidFacts(FactField::Code)),
        };
        let claim = match find_present(members, FactField::Claim.name()) {
            Some(value) => Some(Claim::from_json(value)?),
            None => None,
        };
        let location = get_optional_location(members)?;
        Ok(DiagnosisFacts { code, claim, location })
    }

    /// The value that the facts are written as.
    pub fn to_json(&self) -> (result: Result<Json, EncodeError>)
        ensures
            result is Ok <==> self@.encodable(),
            result matches Ok(tree) ==> tree@ == self@.tree(),
    {
        let mut parts: Vec<Member> = Vec::new();
        let code = self.code.to_json()?;
        put(&mut parts, FactField::Code.name(), code);
        put_claim(&mut parts, &self.claim)?;
        put_location(&mut parts, self.location);
        assert(member_views(parts@) =~= self@.parts());
        Ok(Json::object(parts))
    }

    /// Encodes the facts.
    pub fn encode(&self) -> (result: Result<String, EncodeError>)
        ensures
            result is Ok <==> self@.encodable(),
            result matches Ok(text) ==> text@ == self@.text(),
    {
        text_of(self.to_json())
    }
}

impl DiagnosisFactsView {
    /// Whether the facts have a text.
    pub open spec fn encodable(self) -> bool {
        &&& self.code.encodable()
        &&& claim_encodable(self.claim)
    }

    /// The members of the facts.
    pub open spec fn parts(self) -> Seq<(Seq<char>, JsonView)> {
        seq![(FactField::Code.key(), self.code.tree())]
            + claim_part(self.claim)
            + location_part(self.location)
    }

    /// The facts as they are written.
    pub open spec fn tree(self) -> JsonView {
        object_tree(self.parts())
    }

    /// The text of the facts.
    pub open spec fn text(self) -> Seq<char> {
        self.tree().raw
    }
}

/// The facts of a laboratory result that a value stands for.
pub open spec fn labs_facts_of(value: JsonView) -> Result<LabsFactsView, DecodeError> {
    match value.node {
        NodeView::Object(members) => match required(
            members,
            FactField::Code,
            |v: JsonView| code_of(v),
        ) {
            Ok(code) => match required(members, FactField::Value, |v: JsonView| lab_value_of(v)) {
                Ok(value) => match optional(members, FactField::Claim, |v: JsonView| claim_of(v)) {
                    Ok(claim) => match optional_location_at(members) {
                        Ok(location) => Ok(LabsFactsView { code, value, claim, location }),
                        Err(e) => Err(e),
                    },
                    Err(e) => Err(e),
                },
                Err(e) => Err(e),
            },
            Err(e) => Err(e),
        },
        _ => Err(DecodeError::InvalidFacts(FactField::Facts)),
    }
}

impl LabsFacts {
    /// Decodes the facts of a laboratory result.
    pub fn from_json(value: &Json) -> (result: Result<LabsFacts, DecodeError>)
        ensures
            agrees(result, labs_facts_of(value@)),
            result matches Ok(facts) ==> facts@.value.wf() && (value@.sound()
                ==> facts@.value.valid()),
    {
        let members = match value.members() {
            Some(members) => members,
            None => return Err(DecodeError::InvalidFacts(FactField::Facts)),
        };
        let code = match find(members, FactField::Code.name()) {
            Some(value) => Code::from_json(value)?,
            None => return Err(DecodeError::InvalidFacts(FactField::Code)),
        };
        let value = match find(members, FactField::Value.name()) {
            Some(value) => LabValue::from_json(value)?,
            None => return Err(DecodeError::InvalidFacts(FactField::Value)),
        };
        let claim = match find_present(members, FactField::Claim.name()) {
            Some(value) => Some(Claim::from_json(value)?),
            None => None,
        };
        let location = get_optional_location(members)?;
        Ok(LabsFacts { code, value, claim, location })
    }

    /// The value that the facts are written as.
    pub fn to_json(&self) -> (result: Result<Json, EncodeError>)
        ensures
            result is Ok <==> self@.encodable(),
            result matches Ok(tree) ==> tree@ == self@.tree(),
    {
        let mut parts: Vec<Member> = Vec::new();
        let code = self.code.to_json()?;
        put(&mut parts, FactField::Code.name(), code);
        let value = self.value.to_json()?;
        put(&mut parts, FactField::Value.name(), value);
        put_claim(&mut parts, &self.claim)?;
        put_location(&mut parts, self.location);
        assert(member_views(parts@) =~= self@.parts());
        Ok(Json::object(parts))
    }

    /// Encodes the facts.
    pub fn encode(&self) -> (result: Result<String, EncodeError>)
        ensures
            result is Ok <==> self@.encodable(),
            result matches Ok(text) ==> text@ == self@.text(),
    {
        text_of(self.to_json())
    }
}

impl LabsFactsView {
    /// Whether the facts have a text.
    pub open spec fn encodable(self) -> bool {
        &&& self.code.encodable()
        &&& self.value.encodable()
        &&& claim_encodable(self.claim)
    }

    /// The members of the facts.
    pub open spec fn parts(self) -> Seq<(Seq<char>, JsonView)> {
        seq![(FactField::Code.key(), self.code.tree())]
            + seq![(FactField::Value.key(), self.value.tree())]
            + claim_part(self.claim)
            + location_part(self.location)
    }

    /// The facts as they are written.
    pub open spec fn tree(self) -> JsonView {
        object_tree(self.parts())
    }

    /// The text of the facts.
    pub open spec fn text(self) -> Seq<char> {
        self.tree().raw
    }
}

/// The facts of a medication that a value stands for.
pub open spec fn medication_facts_of(value: JsonView) -> Result<MedicationFactsView, DecodeError> {
    match value.node {
        NodeView::Object(members) => match required(
            members,
            FactField::Code,
            |v: JsonView| code_of(v),
        ) {
            Ok(code) => match optional(members, FactField::Fill, |v: JsonView| fill_of(v)) {
                Ok(fill) => match optional_location_at(members) {
                    Ok(location) => match optional(
                        members,
                        FactField::Claim,
                        |v: JsonView| claim_of(v),
                    ) {
                        Ok(claim) => Ok(MedicationFactsView { code, fill, location, claim }),
                        Err(e) => Err(e),
                    },
                    Err(e) => Err(e),
                },
                Err(e) => Err(e),
            },
            Err(e) => Err(e),
        },
        _ => Err(DecodeError::InvalidFacts(FactField::Facts)),
    }
}

impl MedicationFacts {
    /// Decodes the facts of a medication.
    pub fn from_json(value: &Json) -> (result: Result<MedicationFacts, DecodeError>)
        ensures
            agrees(result, medication_facts_of(value@)),
    {
        let members = match value.members() {
            Some(members) => members,
            None => return Err(DecodeError::InvalidFacts(FactField::Facts)),
        };
        let code = match find(members, FactField::Code.name()) {
            Some(value) => Code::from_json(value)?,
            None => return Err(DecodeError::InvalidFacts(FactField::Code)),
        };
        let fill = match find_present(members, FactField::Fill.name()) {
            Some(value) => Some(Fill::from_json(value)?),
            None => None,
        };
        let location = get_optional_location(members)?;
        let claim = match find_present(members, FactField::Claim.name()) {
            Some(value) => Some(Claim::from_json(value)?),
            None => None,
        };
        Ok(MedicationFacts { code, fill, location, claim })
    }

    /// The value that the facts are written as.
    pub fn to_json(&self) -> (result: Result<Json, EncodeError>)
        ensures
            result is Ok <==> self@.encodable(),
            result matches Ok(tree) ==> tree@ == self@.tree(),
    {
        let mut parts: Vec<Member> = Vec::new();
        let code = self.code.to_json()?;
        put(&mut parts, FactField::Code.name(), code);
        match &self.fill {
            Some(fill) => {
                let tree = fill.to_json()?;
                put(&mut parts, FactField::Fill.name(), tree);
            },
            None => {},
        }
        put_location(&mut parts, self.location);
        put_claim(&mut parts, &self.claim)?;
        assert(member_views(parts@) =~= self@.parts());
        Ok(Json::object(parts))
    }

    /// Encodes the facts.
    pub fn encode(&self) -> (result: Result<String, EncodeError>)
        ensures
            result is Ok <==> self@.encodable(),
            result matches Ok(text) ==> text@ == self@.text(),
    {
        text_of(self.to_json())
    }
}

impl MedicationFactsView {
    /// Whether the facts have a text.
    pub open spec fn encodable(self) -> bool {
        &&& self.code.encodable()
        &&& self.fill matches Some(fill) ==> fill.encodable()
        &&& claim_encodable(self.claim)
    }

    /// The members of the facts.
    pub open spec fn parts(self) -> Seq<(Seq<char>, JsonView)> {
        seq![(FactField::Code.key(), self.code.tree())]
            + match self.fill {
                Some(fill) => seq![(FactField::Fill.key(), fill.tree())],
                None => Seq::empty(),
            }
            + location_part(self.location)
            + claim_part(self.claim)
    }

    /// The facts as they are written.
    pub open spec fn tree(self) -> JsonView {
        object_tree(self.parts())
    }

    /// The text of the facts.
    pub open spec fn text(self) -> Seq<char> {
        self.tree().raw
    }
}

/// The facts of a procedure that a value stands for.
pub open spec fn procedure_facts_of(value: JsonView) -> Result<ProcedureFactsView, DecodeError> {
    match value.node {
        NodeView::Object(members) => match required(
            members,
            FactField::Code,
            |v: JsonView| code_of(v),
        ) {
            Ok(code) => match optional(members, FactField::Claim, |v: JsonView| claim_of(v)) {
                Ok(claim) => match optional_location_at(members) {
                    Ok(location) => Ok(ProcedureFactsView { code, claim, location }),
                    Err(e) => Err(e),
                },
                Err(e) => Err(e),
            },
            Err(e) => Err(e),
        },
        _ => Err(DecodeError::InvalidFacts(FactField::Facts)),
    }
}

impl ProcedureFacts {
    /// Decodes the facts of a procedure.
    pub fn from_json(value: &Json) -> (result: Result<ProcedureFacts, DecodeError>)
        ensures
            agrees(result, procedure_facts_of(value@)),
    {
        let members = match value.members() {
            Some(members) => members,
            None => return Err(DecodeError::InvalidFacts(FactField::Facts)),
        };
        let code = match find(members, FactField::Code.name()) {
            Some(value) => Code::from_json(value)?,
            None => return Err(DecodeError::InvalidFacts(FactField::Code)),
        };
        let claim = match find_present(members, FactField::Claim.name()) {
            Some(value) => Some(Claim::from_json(value)?),
            None => None,
        };
        let location = get_optional_location(members)?;
        Ok(ProcedureFacts { code, claim, location })
    }

    /// The value that the facts are written as.
    pub fn to_json(&self) -> (result: Result<Json, EncodeError>)
        ensures
            result is Ok <==> self@.encodable(),
            result matches Ok(tree) ==> tree@ == self@.tree(),
    {
        let mut parts: Vec<Member> = Vec::new();
        let code = self.code.to_json()?;
        put(&mut parts, FactField::Code.name(), code);
        put_claim(&mut parts, &self.claim)?;
        put_location(&mut parts, self.location);
        assert(member_views(parts@) =~= self@.parts());
        Ok(Json::object(parts))
    }

    /// Encodes the facts.
    pub fn encode(&self) -> (result: Result<String, EncodeError>)
        ensures
            result is Ok <==> self@.encodable(),
            result matches Ok(text) ==> text@ == self@.text(),
    {
        text_of(self.to_json())
    }
}

impl ProcedureFactsView {
    /// Whether the facts have a text.
    pub open spec fn encodable(self) -> bool {
        &&& self.code.encodable()
        &&& claim_encodable(self.claim)
    }

    /// The members of the facts.
    pub open spec fn parts(self) -> Seq<(Seq<char>, JsonView)> {
        seq![(FactField::Code.key(), self.code.tree())]
            + claim_part(self.claim)
            + location_part(self.location)
    }

    /// The facts as they are written.
    pub open spec fn tree(self) -> JsonView {
        object_tree(self.parts())
    }

    /// The text of the facts.
    pub open spec fn text(self) -> Seq<char> {
        self.tree().raw
    }
}

/// The facts of `domain` that a value stands for: the payload is held to
/// the schema of that domain and of no other. For a domain without members
/// any object will do.
pub open spec fn facts_of(domain: Domain, value: JsonView) -> Result<FactsView, DecodeError> {
    match domain {
        Domain::Claim => match claim_facts_of(value) {
            Ok(f) => Ok(FactsView::Claim(f)),
            Err(e) => Err(e),
        },
        Domain::Death => if value.node is Object {
            Ok(FactsView::Death(DeathFacts {  }))
        } else {
            Err(DecodeError::InvalidFacts(FactField::Facts))
        },
        Domain::Demographics => match demographic_facts_of(value) {
            Ok(f) => Ok(FactsView::Demographics(f)),
            Err(e) => Err(e),
        },
        Domain::Diagnosis => match diagnosis_facts_of(value) {
            Ok(f) => Ok(FactsView::Diagnosis(f)),
            Err(e) => Err(e),
        },
        Domain::Eligibility => if value.node is Object {
            Ok(FactsView::Eligibility(EligibilityFacts {  }))
        } else {
            Err(DecodeError::InvalidFacts(FactField::Facts))
        },
        Domain::Enrollment => if value.node is Object {
            Ok(FactsView::Enrollment(EnrollmentFacts {  }))
        } else {
            Err(DecodeError::InvalidFacts(FactField::Facts))
        },
        Domain::Labs => match labs_facts_of(value) {
            Ok(f) => Ok(FactsView::Labs(f)),
            Err(e) => Err(e),
        },
        Domain::Medication => match medication_facts_of(value) {
            Ok(f) => Ok(FactsView::Medication(f)),
            Err(e) => Err(e),
        },
        Domain::Procedure => match procedure_facts_of(value) {
            Ok(f) => Ok(FactsView::Procedure(f)),
            Err(e) => Err(e),
        },
    }
}

/// Reads a payload for a domain without members.
fn check_object(value: &Json) -> (result: Result<(), DecodeError>)
    ensures
        match result {
            Ok(_) => value@.node is Object,
            Err(e) => !(value@.node is Object) && e == DecodeError::InvalidFacts(
                FactField::Facts,
            ),
        },
{
    match value.members() {
        Some(_) => Ok(()),
        None => Err(DecodeError::InvalidFacts(FactField::Facts)),
    }
}

impl Facts {
    /// Decodes a payload against the schema of `domain`. The facts that
    /// come back are those of `domain` and are well formed; where the
    /// payload is sound, their opaque cells have the text of JSON values.
    pub fn from_json(domain: Domain, value: &Json) -> (result: Result<Facts, DecodeError>)
        ensures
            agrees(result, facts_of(domain, value@)),
            result matches Ok(facts) ==> facts@.domain() == domain && facts@.wf() && (
            value@.sound() ==> facts@.valid()),
    {
        match domain {
            Domain::Claim => Ok(Facts::Claim(ClaimFacts::from_json(value)?)),
            Domain::Death => {
                check_object(value)?;
                Ok(Facts::Death(DeathFacts {  }))
            },
            Domain::Demographics => Ok(Facts::Demographics(DemographicFacts::from_json(value)?)),
            Domain::Diagnosis => Ok(Facts::Diagnosis(DiagnosisFacts::from_json(value)?)),
            Domain::Eligibility => {
                check_object(value)?;
                Ok(Facts::Eligibility(EligibilityFacts {  }))
            },
            Domain::Enrollment => {
                check_object(value)?;
                Ok(Facts::Enrollment(EnrollmentFacts {  }))
            },
            Domain::Labs => Ok(Facts::Labs(LabsFacts::from_json(value)?)),
            Domain::Medication => Ok(Facts::Medication(MedicationFacts::from_json(value)?)),
            Domain::Procedure => Ok(Facts::Procedure(ProcedureFacts::from_json(value)?)),
        }
    }

    /// The value that the payload is written as, by the schema of its
    /// domain.
    pub fn to_json(&self) -> (result: Result<Json, EncodeError>)
        ensures
            result is Ok <==> self@.encodable(),
            result matches Ok(tree) ==> tree@ == self@.tree(),
    {
        match self {
            Facts::Claim(f) => f.to_json(),
            Facts::Demographics(f) => f.to_json(),
            Facts::Diagnosis(f) => f.to_json(),
            Facts::Labs(f) => f.to_json(),
            Facts::Medication(f) => f.to_json(),
            Facts::Procedure(f) => f.to_json(),
            Facts::Death(_) | Facts::Eligibility(_) | Facts::Enrollment(_) => {
                let parts: Vec<Member> = Vec::new();
                assert(member_views(parts@) =~= self@.parts());
                Ok(Json::object(parts))
            },
        }
    }

    /// Encodes the payload by the schema of its domain.
    pub fn encode(&self) -> (result: Result<String, EncodeError>)
        ensures
            result is Ok <==> self@.encodable(),
            result matches Ok(text) ==> text@ == self@.text(),
    {
        text_of(self.to_json())
    }
}

impl FactsView {
    /// Whether the facts have a text.
    pub open spec fn encodable(self) -> bool {
        match self {
            FactsView::Claim(f) => f.encodable(),
            FactsView::Demographics(f) => f.encodable(),
            FactsView::Diagnosis(f) => f.encodable(),
            FactsView::Labs(f) => f.encodable(),
            FactsView::Medication(f) => f.encodable(),
            FactsView::Procedure(f) => f.encodable(),
            FactsView::Death(_) | FactsView::Eligibility(_) | FactsView::Enrollment(_) => true,
        }
    }

    /// The members of the payload, by the schema of the domain.
    pub open spec fn parts(self) -> Seq<(Seq<char>, JsonView)> {
        match self {
            FactsView::Claim(f) => f.parts(),
            FactsView::Demographics(f) => f.parts(),
            FactsView::Diagnosis(f) => f.parts(),
            FactsView::Labs(f) => f.parts(),
            FactsView::Medication(f) => f.parts(),
            FactsView::Procedure(f) => f.parts(),
            FactsView::Death(_) | FactsView::Eligibility(_) | FactsView::Enrollment(_) => {
                Seq::empty()
            },
        }
    }

    /// The payload as it is written.
    pub open spec fn tree(self) -> JsonView {
        object_tree(self.parts())
    }

    /// The text of the payload.
    pub open spec fn text(self) -> Seq<char> {
        self.tree().raw
    }
}

} // verus!
