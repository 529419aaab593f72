//! The data model of events: the envelope, the context, and the leaves that
//! the facts are built from.
//!
//! Each type has a view, a value of plain sequences and integers, which is
//! what the contracts of the decoders and encoders speak of.

pub use crate::facts::{
    ClaimFacts, DeathFacts, DemographicFacts, DiagnosisFacts, EligibilityFacts, EnrollmentFacts,
    Facts, LabsFacts, MedicationFacts, ProcedureFacts,
};
use crate::facts::FactsView;
use crate::json::{json_number, json_valid, texts};
pub use crate::tags::{Codebook, DemographicField, Domain, Location};
use crate::tree::{view_of, JsonView};
pub use crate::tree::{Json, Member, Node};
use vstd::prelude::*;

verus! {

/// Whether an opaque cell that may be absent is, where present, JSON.
pub open spec fn valid_or_absent(cell: Option<JsonView>) -> bool {
    cell matches Some(value) ==> json_valid(value.raw)
}

/// Whether an opaque cell that may be absent is, where present, something
/// other than `null`, which would stand for absence.
pub open spec fn some_or_absent(cell: Option<JsonView>) -> bool {
    cell matches Some(value) ==> !(value.node is Null)
}

/// The identifier of a subject: a number or a text, as the source wrote it.
#[derive(Debug, PartialEq, Eq)]
pub enum SubjectID {
    IDstr(String),
    Idint(u64),
}

/// The value of a `SubjectID` as contracts speak of it: with sequences of
/// characters for its strings.
pub enum SubjectIDView {
    IDstr(Seq<char>),
    Idint(u64),
}

impl View for SubjectID {
    type V = SubjectIDView;

    open spec fn view(&self) -> SubjectIDView {
        match self {
            SubjectID::IDstr(s) => SubjectIDView::IDstr(s@),
            SubjectID::Idint(n) => SubjectIDView::Idint(*n),
        }
    }
}

/// A span of time whose two ends are written alike: both as integers or both
/// as texts. The end may be open.
#[derive(Debug, PartialEq, Eq)]
pub enum Interval {
    IntervalInt { begin: u64, end: Option<u64> },
    IntervalStr { begin: String, end: Option<String> },
}

/// The value of an `Interval` as contracts speak of it: with sequences of
/// characters for its strings.
pub enum IntervalView {
    IntervalInt { begin: u64, end: Option<u64> },
    IntervalStr { begin: Seq<char>, end: Option<Seq<char>> },
}

impl View for Interval {
    type V = IntervalView;

    open spec fn view(&self) -> IntervalView {
        match self {
            Interval::IntervalInt { begin, end } => IntervalView::IntervalInt {
                begin: *begin,
                end: *end,
            },
            Interval::IntervalStr { begin, end } => IntervalView::IntervalStr {
                begin: begin@,
                end: view_of(*end),
            },
        }
    }
}

/// A code and, where known, the code system it is drawn from.
#[derive(Debug, PartialEq, Eq)]
pub struct Code {
    pub code: String,
    pub codebook: Option<Codebook>,
}

/// The value of a `Code` as contracts speak of it: with sequences of
/// characters for its strings.
pub struct CodeView {
    pub code: Seq<char>,
    pub codebook: Option<Codebook>,
}

impl View for Code {
    type V = CodeView;

    open spec fn view(&self) -> CodeView {
        CodeView { code: self.code@, codebook: self.codebook }
    }
}

/// The claim that a fact was recorded on.
#[derive(Debug, PartialEq, Eq)]
pub struct Claim {
    pub id: String,
    /// The member `type` of the wire format.
    pub kind: Option<String>,
    pub index: Option<u32>,
    pub procedure: Option<String>,
}

/// The value of a `Claim` as contracts speak of it: with sequences of
/// characters for its strings.
pub struct ClaimView {
    pub id: Seq<char>,
    pub kind: Option<Seq<char>>,
    pub index: Option<u32>,
    pub procedure: Option<Seq<char>>,
}

impl View for Claim {
    type V = ClaimView;

    open spec fn view(&self) -> ClaimView {
        ClaimView {
            id: self.id@,
            kind: view_of(self.kind),
            index: self.index,
            procedure: view_of(self.procedure),
        }
    }
}

/// The amounts of a claim, each as the text that the source gave.
#[derive(Debug, PartialEq, Eq)]
pub struct Cost {
    pub charge: Option<String>,
    pub cost: String,
    pub allowed: Option<String>,
    pub transaction: Option<String>,
}

/// The value of a `Cost` as contracts speak of it: with sequences of
/// characters for its strings.
pub struct CostView {
    pub charge: Option<Seq<char>>,
    pub cost: Seq<char>,
    pub allowed: Option<Seq<char>>,
    pub transaction: Option<Seq<char>>,
}

impl View for Cost {
    type V = CostView;

    open spec fn view(&self) -> CostView {
        CostView {
            charge: view_of(self.charge),
            cost: self.cost@,
            allowed: view_of(self.allowed),
            transaction: view_of(self.transaction),
        }
    }
}

/// How a medication was dispensed.
#[derive(Debug, PartialEq, Eq)]
pub struct Fill {
    pub days_supply: Option<i32>,
    pub quantity: Option<i32>,
    pub strength: Option<String>,
}

/// The value of a `Fill` as contracts speak of it: with sequences of
/// characters for its strings.
pub struct FillView {
    pub days_supply: Option<i32>,
    pub quantity: Option<i32>,
    pub strength: Option<Seq<char>>,
}

impl View for Fill {
    type V = FillView;

    open spec fn view(&self) -> FillView {
        FillView {
            days_supply: self.days_supply,
            quantity: self.quantity,
            strength: view_of(self.strength),
        }
    }
}

/// The result of a laboratory test. The number is kept as the JSON number
/// that the source wrote, literal and all.
#[derive(Debug, PartialEq, Eq)]
pub struct LabValue {
    pub text: Option<String>,
    pub number: Option<Json>,
    pub units: String,
}

/// The value of a `LabValue` as contracts speak of it: with sequences of
/// characters for its strings.
pub struct LabValueView {
    pub text: Option<Seq<char>>,
    pub number: Option<JsonView>,
    pub units: Seq<char>,
}

impl LabValueView {
    /// The number, where there is one, is marked as a number.
    pub open spec fn wf(self) -> bool {
        self.number matches Some(number) ==> number.node is Number
    }

    /// The number, where there is one, has the text of a number.
    pub open spec fn valid(self) -> bool {
        self.number matches Some(number) ==> json_number(number.raw)
    }
}

impl View for LabValue {
    type V = LabValueView;

    open spec fn view(&self) -> LabValueView {
        LabValueView {
            text: view_of(self.text),
            number: view_of(self.number),
            units: self.units@,
        }
    }
}

/// What is known of a subject at a time: who, when, the facts of one domain,
/// and two attachments that are carried along as they stand.
#[derive(Debug, PartialEq, Eq)]
pub struct Context {
    pub patient_id: SubjectID,
    pub time: Interval,
    pub facts: Facts,
    pub source: Option<Json>,
    pub misc: Option<Json>,
}

/// The value of a `Context` as contracts speak of it: with sequences of
/// characters for its strings.
pub struct ContextView {
    pub patient_id: SubjectIDView,
    pub time: IntervalView,
    pub facts: FactsView,
    pub source: Option<JsonView>,
    pub misc: Option<JsonView>,
}

impl View for Context {
    type V = ContextView;

    open spec fn view(&self) -> ContextView {
        ContextView {
            patient_id: self.patient_id@,
            time: self.time@,
            facts: self.facts@,
            source: view_of(self.source),
            misc: view_of(self.misc),
        }
    }
}

impl ContextView {
    /// No attachment that is there is `null`, and the facts are well
    /// formed.
    pub open spec fn wf(self) -> bool {
        &&& self.facts.wf()
        &&& some_or_absent(self.source)
        &&& some_or_absent(self.misc)
    }

    /// Every opaque cell has the text of a JSON value.
    pub open spec fn valid(self) -> bool {
        &&& self.facts.valid()
        &&& valid_or_absent(self.source)
        &&& valid_or_absent(self.misc)
    }
}

/// One record: the subject, the two ends of its time as the source wrote
/// them, the domain tag, the concepts in their order, and the context.
#[derive(Debug, PartialEq, Eq)]
pub struct Event {
    pub p: SubjectID,
    pub b: Json,
    pub e: Json,
    pub d: String,
    pub concepts: Vec<String>,
    pub context: Context,
}

/// The value of an `Event` as contracts speak of it: with sequences of
/// characters for its strings.
pub struct EventView {
    pub p: SubjectIDView,
    pub b: JsonView,
    pub e: JsonView,
    pub d: Seq<char>,
    pub concepts: Seq<Seq<char>>,
    pub context: ContextView,
}

impl View for Event {
    type V = EventView;

    open spec fn view(&self) -> EventView {
        EventView {
            p: self.p@,
            b: self.b@,
            e: self.e@,
            d: self.d@,
            concepts: texts(self.concepts@),
            context: self.context@,
        }
    }
}

impl EventView {
    /// The domain tag is one of the closed set, and the context is well
    /// formed.
    pub open spec fn wf(self) -> bool {
        &&& Domain::of_text(self.d) is Some
        &&& self.context.wf()
    }

    /// Every opaque cell has the text of a JSON value.
    pub open spec fn valid(self) -> bool {
        &&& json_valid(self.b.raw)
        &&& json_valid(self.e.raw)
        &&& self.context.valid()
    }
}

} // verus!
