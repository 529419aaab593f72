//! The facts of each domain: one shape per domain, and the union of them
//! that a context holds.

use crate::tags::{DemographicField, Domain, Location};
use crate::tree::{view_of, Json, JsonView};
use crate::types::{
    some_or_absent, valid_or_absent, Claim, ClaimView, Code, CodeView, Cost, CostView, Fill,
    FillView, LabValue, LabValueView,
};
use vstd::prelude::*;

verus! {

/// Facts of a claim.
#[derive(Debug, PartialEq, Eq)]
pub struct ClaimFacts {
    pub claim: Claim,
    pub location: Option<Location>,
    pub cost: Option<Cost>,
}

/// The value of a `ClaimFacts` as contracts speak of it: with sequences of
/// characters for its strings.
pub struct ClaimFactsView {
    pub claim: ClaimView,
    pub location: Option<Location>,
    pub cost: Option<CostView>,
}

impl View for ClaimFacts {
    type V = ClaimFactsView;

    open spec fn view(&self) -> ClaimFactsView {
        ClaimFactsView { claim: self.claim@, location: self.location, cost: view_of(self.cost) }
    }
}

/// A death. It has no members.
#[derive(Clone, Copy, Debug, PartialEq, Eq, Structural)]
pub struct DeathFacts {}

/// One demographic field and what is known of it, kept as the JSON it was
/// read from.
#[derive(Debug, PartialEq, Eq)]
pub struct DemographicFacts {
    pub field: DemographicField,
    pub info: Option<Json>,
}

/// The value of a `DemographicFacts` as contracts speak of it: with sequences of
/// characters for its strings.
pub struct DemographicFactsView {
    pub field: DemographicField,
    pub info: Option<JsonView>,
}

impl View for DemographicFacts {
    type V = DemographicFactsView;

    open spec fn view(&self) -> DemographicFactsView {
        DemographicFactsView { field: self.field, info: view_of(self.info) }
    }
}

/// A diagnosis.
#[derive(Debug, PartialEq, Eq)]
pub struct DiagnosisFacts {
    pub code: Code,
    pub claim: Option<Claim>,
    pub location: Option<Location>,
}

/// The value of a `DiagnosisFacts` as contracts speak of it: with sequences of
/// characters for its strings.
pub struct DiagnosisFactsView {
    pub code: CodeView,
    pub claim: Option<ClaimView>,
    pub location: Option<Location>,
}

impl View for DiagnosisFacts {
    type V = DiagnosisFactsView;

    open spec fn view(&self) -> DiagnosisFactsView {
        DiagnosisFactsView { code: self.code@, claim: view_of(self.claim), location: self.location }
    }
}

/// A period of eligibility. It has no members.
#[derive(Clone, Copy, Debug, PartialEq, Eq, Structural)]
pub struct EligibilityFacts {}

/// A period of enrollment. It has no members.
#[derive(Clone, Copy, Debug, PartialEq, Eq, Structural)]
pub struct EnrollmentFacts {}

/// A laboratory result.
#[derive(Debug, PartialEq, Eq)]
pub struct LabsFacts {
    pub code: Code,
    pub value: LabValue,
    pub claim: Option<Claim>,
    pub location: Option<Location>,
}

/// The value of a `LabsFacts` as contracts speak of it: with sequences of
/// characters for its strings.
pub struct LabsFactsView {
    pub code: CodeView,
    pub value: LabValueView,
    pub claim: Option<ClaimView>,
    pub location: Option<Location>,
}

impl View for LabsFacts {
    type V = LabsFactsView;

    open spec fn view(&self) -> LabsFactsView {
        LabsFactsView {
            code: self.code@,
            value: self.value@,
            claim: view_of(self.claim),
            location: self.location,
        }
    }
}

/// A medication.
#[derive(Debug, PartialEq, Eq)]
pub struct MedicationFacts {
    pub code: Code,
    pub fill: Option<Fill>,
    pub location: Option<Location>,
    pub claim: Option<Claim>,
}

/// The value of a `MedicationFacts` as contracts speak of it: with sequences of
/// characters for its strings.
pub struct MedicationFactsView {
    pub code: CodeView,
    pub fill: Option<FillView>,
    pub location: Option<Location>,
    pub claim: Option<ClaimView>,
}

impl View for MedicationFacts {
    type V = MedicationFactsView;

    open spec fn view(&self) -> MedicationFactsView {
        MedicationFactsView {
            code: self.code@,
            fill: view_of(self.fill),
            location: self.location,
            claim: view_of(self.claim),
        }
    }
}

/// A procedure.
#[derive(Debug, PartialEq, Eq)]
pub struct ProcedureFacts {
    pub code: Code,
    pub claim: Option<Claim>,
    pub location: Option<Location>,
}

/// The value of a `ProcedureFacts` as contracts speak of it: with sequences of
/// characters for its strings.
pub struct ProcedureFactsView {
    pub code: CodeView,
    pub claim: Option<ClaimView>,
    pub location: Option<Location>,
}

impl View for ProcedureFacts {
    type V = ProcedureFactsView;

    open spec fn view(&self) -> ProcedureFactsView {
        ProcedureFactsView { code: self.code@, claim: view_of(self.claim), location: self.location }
    }
}

/// The facts of a context: those of exactly one domain. The variant is the
/// domain, so tag and payload cannot disagree.
#[derive(Debug, PartialEq, Eq)]
pub enum Facts {
    Claim(ClaimFacts),
    Death(DeathFacts),
    Demographics(DemographicFacts),
    Diagnosis(DiagnosisFacts),
    Eligibility(EligibilityFacts),
    Enrollment(EnrollmentFacts),
    Labs(LabsFacts),
    Medication(MedicationFacts),
    Procedure(ProcedureFacts),
}

/// The value of a `Facts` as contracts speak of it: with sequences of
/// characters for its strings.
pub enum FactsView {
    Claim(ClaimFactsView),
    Death(DeathFacts),
    Demographics(DemographicFactsView),
    Diagnosis(DiagnosisFactsView),
    Eligibility(EligibilityFacts),
    Enrollment(EnrollmentFacts),
    Labs(LabsFactsView),
    Medication(MedicationFactsView),
    Procedure(ProcedureFactsView),
}

impl View for Facts {
    type V = FactsView;

    open spec fn view(&self) -> FactsView {
        match self {
            Facts::Claim(f) => FactsView::Claim(f@),
            Facts::Death(f) => FactsView::Death(*f),
            Facts::Demographics(f) => FactsView::Demographics(f@),
            Facts::Diagnosis(f) => FactsView::Diagnosis(f@),
            Facts::Eligibility(f) => FactsView::Eligibility(*f),
            Facts::Enrollment(f) => FactsView::Enrollment(*f),
            Facts::Labs(f) => FactsView::Labs(f@),
            Facts::Medication(f) => FactsView::Medication(f@),
            Facts::Procedure(f) => FactsView::Procedure(f@),
        }
    }
}

impl FactsView {
    /// The domain that the facts belong to.
    pub open spec fn domain(self) -> Domain {
        match self {
            FactsView::Claim(_) => Domain::Claim,
            FactsView::Death(_) => Domain::Death,
            FactsView::Demographics(_) => Domain::Demographics,
            FactsView::Diagnosis(_) => Domain::Diagnosis,
            FactsView::Eligibility(_) => Domain::Eligibility,
            FactsView::Enrollment(_) => Domain::Enrollment,
            FactsView::Labs(_) => Domain::Labs,
            FactsView::Medication(_) => Domain::Medication,
            FactsView::Procedure(_) => Domain::Procedure,
        }
    }

    /// What is known of a demographic field, where anything is, is not
    /// `null`, and the number of a laboratory result is marked as one.
    pub open spec fn wf(self) -> bool {
        match self {
            FactsView::Demographics(f) => some_or_absent(f.info),
            FactsView::Labs(f) => f.value.wf(),
            _ => true,
        }
    }

    /// Every opaque cell has the text of a JSON value, and the number of a
    /// laboratory result that of a number.
    pub open spec fn valid(self) -> bool {
        match self {
            FactsView::Demographics(f) => valid_or_absent(f.info),
            FactsView::Labs(f) => f.value.valid(),
            _ => true,
        }
    }
}

impl Facts {
    /// The domain that the facts belong to.
    pub fn domain(&self) -> (d: Domain)
        ensures
            d == self@.domain(),
    {
        match self {
            Facts::Claim(_) => Domain::Claim,
            Facts::Death(_) => Domain::Death,
            Facts::Demographics(_) => Domain::Demographics,
            Facts::Diagnosis(_) => Domain::Diagnosis,
            Facts::Eligibility(_) => Domain::Eligibility,
            Facts::Enrollment(_) => Domain::Enrollment,
            Facts::Labs(_) => Domain::Labs,
            Facts::Medication(_) => Domain::Medication,
            Facts::Procedure(_) => Domain::Procedure,
        }
    }
}

} // verus!
