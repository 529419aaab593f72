//! The text that given values are encoded to, and the values that have
//! none.

use eddeserus::error::EncodeError;
use eddeserus::sede::serialize_event;
use eddeserus::text::{signed_text, unsigned_text};
use eddeserus::types::{
    Claim, ClaimFacts, Code, Codebook, Context, Cost, DeathFacts, DemographicFacts,
    DemographicField, DiagnosisFacts, EligibilityFacts, EnrollmentFacts, Event, Facts, Fill,
    Interval, Json, LabValue, LabsFacts, Location, MedicationFacts, Node, ProcedureFacts,
    SubjectID,
};

fn raw(text: &str) -> Json {
    Json::parse(text, 1).unwrap()
}

fn broken(text: &str) -> Json {
    Json { raw: text.to_string(), node: Node::Other }
}

fn code(text: &str) -> Code {
    Code { code: text.to_string(), codebook: None }
}

fn claim(id: &str) -> Claim {
    Claim { id: id.to_string(), kind: None, index: None, procedure: None }
}

fn death_context() -> Context {
    Context {
        patient_id: SubjectID::Idint(1),
        time: Interval::IntervalInt { begin: 0, end: None },
        facts: Facts::Death(DeathFacts {}),
        source: None,
        misc: None,
    }
}

fn death_event() -> Event {
    Event {
        p: SubjectID::Idint(1),
        b: raw("0"),
        e: raw("null"),
        d: "Death".to_string(),
        concepts: vec![],
        context: death_context(),
    }
}

#[test]
fn numerals() {
    assert_eq!(unsigned_text(0), "0");
    assert_eq!(unsigned_text(7), "7");
    assert_eq!(unsigned_text(10), "10");
    assert_eq!(unsigned_text(123), "123");
    assert_eq!(unsigned_text(1000000), "1000000");
    assert_eq!(unsigned_text(u64::MAX), "18446744073709551615");
    assert_eq!(signed_text(0), "0");
    assert_eq!(signed_text(42), "42");
    assert_eq!(signed_text(-5), "-5");
    assert_eq!(signed_text(i32::MAX), "2147483647");
    assert_eq!(signed_text(i32::MIN), "-2147483648");
}

#[test]
fn code_without_codebook_has_no_such_member() {
    assert_eq!(code("Z21").encode().unwrap(), "{\"code\":\"Z21\"}");
    assert_eq!(
        Code { code: "Z21".to_string(), codebook: Some(Codebook::ICD10) }.encode().unwrap(),
        "{\"code\":\"Z21\",\"codebook\":\"ICD10\"}"
    );
}

#[test]
fn subject_is_written_in_its_shape() {
    assert_eq!(SubjectID::Idint(123).encode().unwrap(), "123");
    assert_eq!(SubjectID::IDstr("123".to_string()).encode().unwrap(), "\"123\"");
    assert_eq!(SubjectID::IDstr("abc".to_string()).encode().unwrap(), "\"abc\"");
    assert_eq!(SubjectID::from_json(&raw("123")).unwrap().encode().unwrap(), "123");
    assert_eq!(SubjectID::from_json(&raw("\"abc\"")).unwrap().encode().unwrap(), "\"abc\"");
    assert_eq!(SubjectID::from_json(&raw("\"123\"")).unwrap().encode().unwrap(), "\"123\"");
}

#[test]
fn strings_are_escaped() {
    assert_eq!(
        SubjectID::IDstr("a\"b\\c\nd".to_string()).encode().unwrap(),
        "\"a\\\"b\\\\c\\nd\""
    );
    assert_eq!(code("").encode().unwrap(), "{\"code\":\"\"}");
}

#[test]
fn interval_always_has_both_ends() {
    assert_eq!(
        Interval::IntervalInt { begin: 3, end: Some(40) }.encode().unwrap(),
        "{\"begin\":3,\"end\":40}"
    );
    assert_eq!(
        Interval::IntervalInt { begin: 3, end: None }.encode().unwrap(),
        "{\"begin\":3,\"end\":null}"
    );
    assert_eq!(
        Interval::IntervalStr { begin: "2010".to_string(), end: Some("2011".to_string()) }
            .encode()
            .unwrap(),
        "{\"begin\":\"2010\",\"end\":\"2011\"}"
    );
    assert_eq!(
        Interval::IntervalStr { begin: "2010".to_string(), end: None }.encode().unwrap(),
        "{\"begin\":\"2010\",\"end\":null}"
    );
}

#[test]
fn leaves_with_every_member() {
    assert_eq!(
        Claim {
            id: "c".to_string(),
            kind: Some("t".to_string()),
            index: Some(7),
            procedure: Some("p".to_string()),
        }
        .encode()
        .unwrap(),
        "{\"id\":\"c\",\"type\":\"t\",\"index\":7,\"procedure\":\"p\"}"
    );
    assert_eq!(
        Cost {
            charge: Some("1".to_string()),
            cost: "2".to_string(),
            allowed: Some("3".to_string()),
            transaction: Some("4".to_string()),
        }
        .encode()
        .unwrap(),
        "{\"charge\":\"1\",\"cost\":\"2\",\"allowed\":\"3\",\"transaction\":\"4\"}"
    );
    assert_eq!(
        Fill { days_supply: Some(30), quantity: Some(-1), strength: Some("5mg".to_string()) }
            .encode()
            .unwrap(),
        "{\"days_supply\":30,\"quantity\":-1,\"strength\":\"5mg\"}"
    );
    assert_eq!(
        LabValue { text: Some("high".to_string()), number: Some(raw("1.50e2")), units: "mg".to_string() }
            .encode()
            .unwrap(),
        "{\"text\":\"high\",\"number\":1.50e2,\"units\":\"mg\"}"
    );
}

#[test]
fn leaves_with_no_optional_member() {
    assert_eq!(claim("c").encode().unwrap(), "{\"id\":\"c\"}");
    assert_eq!(
        Cost { charge: None, cost: "2".to_string(), allowed: None, transaction: None }
            .encode()
            .unwrap(),
        "{\"cost\":\"2\"}"
    );
    assert_eq!(
        Fill { days_supply: None, quantity: None, strength: None }.encode().unwrap(),
        "{}"
    );
    assert_eq!(
        LabValue { text: None, number: None, units: "mg".to_string() }.encode().unwrap(),
        "{\"units\":\"mg\"}"
    );
}

#[test]
fn facts_of_each_domain() {
    let cases: Vec<(Facts, &str, &str)> = vec![
        (
            Facts::Claim(ClaimFacts {
                claim: claim("c"),
                location: Some(Location::Unknown),
                cost: Some(Cost { charge: None, cost: "9".to_string(), allowed: None, transaction: None }),
            }),
            "Claim",
            "{\"claim\":{\"id\":\"c\"},\"location\":\"Unknown\",\"cost\":{\"cost\":\"9\"}}",
        ),
        (Facts::Death(DeathFacts {}), "Death", "{}"),
        (
            Facts::Demographics(DemographicFacts { field: DemographicField::CountyFIPS, info: None }),
            "Demographics",
            "{\"field\":\"CountyFIPS\"}",
        ),
        (
            Facts::Demographics(DemographicFacts {
                field: DemographicField::RaceCodes,
                info: Some(raw("{\"b\": 1, \"a\": [2.0, null]}")),
            }),
            "Demographics",
            "{\"field\":\"RaceCodes\",\"info\":{\"b\": 1, \"a\": [2.0, null]}}",
        ),
        (
            Facts::Diagnosis(DiagnosisFacts {
                code: code("Z21"),
                claim: Some(claim("c")),
                location: Some(Location::Outpatient),
            }),
            "Diagnosis",
            "{\"code\":{\"code\":\"Z21\"},\"claim\":{\"id\":\"c\"},\"location\":\"Outpatient\"}",
        ),
        (Facts::Eligibility(EligibilityFacts {}), "Eligibility", "{}"),
        (Facts::Enrollment(EnrollmentFacts {}), "Enrollment", "{}"),
        (
            Facts::Labs(LabsFacts {
                code: code("L"),
                value: LabValue { text: None, number: Some(raw("0.1")), units: "mg".to_string() },
                claim: None,
                location: None,
            }),
            "Labs",
            "{\"code\":{\"code\":\"L\"},\"value\":{\"number\":0.1,\"units\":\"mg\"}}",
        ),
        (
            Facts::Medication(MedicationFacts {
                code: code("A"),
                fill: Some(Fill { days_supply: Some(30), quantity: None, strength: None }),
                location: Some(Location::Inpatient),
                claim: Some(claim("c")),
            }),
            "Medication",
            "{\"code\":{\"code\":\"A\"},\"fill\":{\"days_supply\":30},\"location\":\"Inpatient\",\"claim\":{\"id\":\"c\"}}",
        ),
        (
            Facts::Procedure(ProcedureFacts { code: code("P"), claim: None, location: None }),
            "Procedure",
            "{\"code\":{\"code\":\"P\"}}",
        ),
    ];
    for (facts, tag, text) in cases {
        assert_eq!(facts.domain().tag(), tag);
        assert_eq!(facts.encode().unwrap(), text);
        let context = Context { facts, ..death_context() };
        assert_eq!(
            context.encode().unwrap(),
            format!(
                "{{\"patient_id\":1,\"time\":{{\"begin\":0,\"end\":null}},\"domain\":\"{}\",\"facts\":{}}}",
                tag, text
            )
        );
    }
}

#[test]
fn attachments_are_written_as_they_stand() {
    let context = Context {
        source: Some(raw("{ \"table\" : \"t\" }")),
        misc: Some(raw("[1.0,  2e3]")),
        ..death_context()
    };
    assert_eq!(
        context.encode().unwrap(),
        "{\"patient_id\":1,\"time\":{\"begin\":0,\"end\":null},\"domain\":\"Death\",\"facts\":{},\"source\":{ \"table\" : \"t\" },\"misc\":[1.0,  2e3]}"
    );
    let only_misc = Context { misc: Some(raw("0")), ..death_context() };
    assert_eq!(
        only_misc.encode().unwrap(),
        "{\"patient_id\":1,\"time\":{\"begin\":0,\"end\":null},\"domain\":\"Death\",\"facts\":{},\"misc\":0}"
    );
}

#[test]
fn event_is_an_array_of_six_cells() {
    let event = Event {
        p: SubjectID::IDstr("xyz".to_string()),
        b: raw("\"2010-01-01\""),
        e: raw("1.0"),
        d: "Death".to_string(),
        concepts: vec!["a".to_string(), "b\"".to_string(), "a".to_string()],
        context: death_context(),
    };
    assert_eq!(
        serialize_event(&event).unwrap(),
        "[\"xyz\",\"2010-01-01\",1.0,\"Death\",[\"a\",\"b\\\"\",\"a\"],{\"patient_id\":1,\"time\":{\"begin\":0,\"end\":null},\"domain\":\"Death\",\"facts\":{}}]"
    );
    assert_eq!(
        death_event().encode().unwrap(),
        "[1,0,null,\"Death\",[],{\"patient_id\":1,\"time\":{\"begin\":0,\"end\":null},\"domain\":\"Death\",\"facts\":{}}]"
    );
}

#[test]
fn opaque_cell_that_is_not_json_cannot_be_encoded() {
    assert_eq!(Event { b: broken("{"), ..death_event() }.encode(), Err(EncodeError {}));
    assert_eq!(Event { e: broken(""), ..death_event() }.encode(), Err(EncodeError {}));
    assert_eq!(Event { e: broken("1,2"), ..death_event() }.encode(), Err(EncodeError {}));
    let source = Context { source: Some(broken("nul")), ..death_context() };
    assert_eq!(source.encode(), Err(EncodeError {}));
    let misc = Context { misc: Some(broken("\"open")), ..death_context() };
    assert_eq!(misc.encode(), Err(EncodeError {}));
    assert_eq!(
        serialize_event(&Event { context: misc, ..death_event() }),
        Err(EncodeError {})
    );
    let info = DemographicFacts { field: DemographicField::State, info: Some(broken("[1,")) };
    assert_eq!(info.encode(), Err(EncodeError {}));
}

#[test]
fn number_that_is_no_number_cannot_be_encoded() {
    let value = LabValue { text: None, number: Some(raw("\"1\"")), units: "mg".to_string() };
    assert_eq!(value.encode(), Err(EncodeError {}));
    let value = LabValue { text: None, number: Some(broken("1e")), units: "mg".to_string() };
    assert_eq!(value.encode(), Err(EncodeError {}));
    let value = LabValue { text: None, number: Some(raw("-12.5E-3")), units: "mg".to_string() };
    assert_eq!(value.encode().unwrap(), "{\"number\":-12.5E-3,\"units\":\"mg\"}");
}

#[test]
fn tag_outside_the_closed_set_cannot_be_encoded() {
    assert_eq!(
        Event { d: "Unknown".to_string(), ..death_event() }.encode(),
        Err(EncodeError {})
    );
    assert_eq!(Event { d: "".to_string(), ..death_event() }.encode(), Err(EncodeError {}));
}
