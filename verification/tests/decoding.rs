//! What is decoded from given texts, and which error each malformed text
//! gives.

use eddeserus::error::{DecodeError, FactField};
use eddeserus::sede::deserialize_event;
use eddeserus::types::{
    Claim, Code, Codebook, Context, Cost, DemographicField, Domain, Event, Facts, Fill, Interval,
    Json, LabValue, Location, Node, SubjectID,
};

fn json(text: &str) -> Json {
    Json::parse(text, 8).unwrap()
}

fn context_with(domain: &str, facts: &str) -> String {
    format!(
        "{{\"patient_id\":123,\"time\":{{\"begin\":0,\"end\":1}},\"domain\":{},\"facts\":{}}}",
        domain, facts
    )
}

#[test]
fn claim_context_decodes_to_its_fields() {
    let json = "{\"patient_id\":123,\"time\":{\"begin\":0,\"end\":1},\"domain\":\"Claim\",\"facts\":{\"claim\":{\"id\":\"claim1\"}}}";
    let context = Context::decode(json).unwrap();
    assert_eq!(context.patient_id, SubjectID::Idint(123));
    assert_eq!(context.time, Interval::IntervalInt { begin: 0, end: Some(1) });
    assert_eq!(context.source, None);
    assert_eq!(context.misc, None);
    match &context.facts {
        Facts::Claim(facts) => {
            assert_eq!(facts.claim.id, "claim1");
            assert_eq!(facts.claim.kind, None);
            assert_eq!(facts.claim.index, None);
            assert_eq!(facts.claim.procedure, None);
            assert_eq!(facts.location, None);
            assert_eq!(facts.cost, None);
        }
        other => panic!("not claim facts: {:?}", other),
    }
    assert_eq!(context.encode().unwrap(), json);
}

#[test]
fn event_decodes_to_its_cells() {
    let json = "[\"xyz\",\"2010-01-01\",null,\"Claim\",[\"a\",\"b\",\"a\"],{\"domain\":\"Claim\",\"patient_id\":\"xyz\",\"time\":{\"begin\":0,\"end\":1},\"facts\":{\"claim\":{\"id\":\"claim1\"}}}]".to_string();
    let event = deserialize_event(&json).unwrap();
    assert_eq!(event.p, SubjectID::IDstr("xyz".to_string()));
    assert_eq!(event.b.raw, "\"2010-01-01\"");
    assert_eq!(event.b.node, Node::String("2010-01-01".to_string()));
    assert_eq!(event.e.raw, "null");
    assert_eq!(event.e.node, Node::Null);
    assert_eq!(event.d, "Claim");
    assert_eq!(event.concepts, vec!["a".to_string(), "b".to_string(), "a".to_string()]);
    assert_eq!(event.context.patient_id, SubjectID::IDstr("xyz".to_string()));
    assert!(matches!(event.context.facts, Facts::Claim(_)));
}

#[test]
fn white_space_around_cells_is_skipped() {
    let json = " [ 7 , 1 , 2 , \"Death\" , [ \"x\" ] , { \"patient_id\" : 7 , \"time\" : { \"begin\" : \"a\" } , \"domain\" : \"Death\" , \"facts\" : { } } ] ";
    let event = Event::decode(json).unwrap();
    assert_eq!(event.p, SubjectID::Idint(7));
    assert_eq!(event.b.raw, "1");
    assert_eq!(event.e.raw, "2");
    assert_eq!(event.concepts, vec!["x".to_string()]);
    assert_eq!(
        event.context.time,
        Interval::IntervalStr { begin: "a".to_string(), end: None }
    );
    assert_eq!(
        event.encode().unwrap(),
        "[7,1,2,\"Death\",[\"x\"],{\"patient_id\":7,\"time\":{\"begin\":\"a\",\"end\":null},\"domain\":\"Death\",\"facts\":{}}]"
    );
}

#[test]
fn subject_keeps_the_shape_it_was_written_in() {
    assert_eq!(SubjectID::from_json(&json("123")), Ok(SubjectID::Idint(123)));
    assert_eq!(SubjectID::from_json(&json("\"123\"")), Ok(SubjectID::IDstr("123".to_string())));
    assert_eq!(SubjectID::from_json(&json("\"abc\"")), Ok(SubjectID::IDstr("abc".to_string())));
    assert_eq!(
        SubjectID::from_json(&json("18446744073709551615")),
        Ok(SubjectID::Idint(u64::MAX))
    );
}

#[test]
fn subject_of_no_shape_is_a_mismatch() {
    for text in ["true", "-1", "1.5", "18446744073709551616", "null", "[1]", "{}"] {
        assert_eq!(SubjectID::from_json(&json(text)), Err(DecodeError::ShapeMismatch), "{}", text);
    }
}

#[test]
fn string_escapes_are_resolved() {
    assert_eq!(
        SubjectID::from_json(&json("\"a\\\"b\\u0041\"")),
        Ok(SubjectID::IDstr("a\"bA".to_string()))
    );
}

#[test]
fn interval_shapes() {
    assert_eq!(
        Interval::from_json(&json("{\"begin\":5,\"end\":9}")),
        Ok(Interval::IntervalInt { begin: 5, end: Some(9) })
    );
    assert_eq!(
        Interval::from_json(&json("{\"begin\":5,\"end\":null}")),
        Ok(Interval::IntervalInt { begin: 5, end: None })
    );
    assert_eq!(
        Interval::from_json(&json("{\"begin\":5}")),
        Ok(Interval::IntervalInt { begin: 5, end: None })
    );
    assert_eq!(
        Interval::from_json(&json("{\"end\":\"2011\",\"begin\":\"2010\"}")),
        Ok(Interval::IntervalStr { begin: "2010".to_string(), end: Some("2011".to_string()) })
    );
    assert_eq!(
        Interval::from_json(&json("{\"begin\":\"2010\"}")),
        Ok(Interval::IntervalStr { begin: "2010".to_string(), end: None })
    );
}

#[test]
fn interval_of_mixed_ends_is_a_mismatch() {
    for text in [
        "{\"begin\":5,\"end\":\"9\"}",
        "{\"begin\":\"5\",\"end\":9}",
        "{\"end\":9}",
        "{\"begin\":null}",
        "[5,9]",
        "{\"begin\":1.5}",
        "{\"begin\":-1}",
    ] {
        assert_eq!(Interval::from_json(&json(text)), Err(DecodeError::ShapeMismatch), "{}", text);
    }
}

#[test]
fn text_that_is_not_json_is_a_syntax_error() {
    assert_eq!(Event::decode("[1,2"), Err(DecodeError::SyntaxError));
    assert_eq!(Event::decode(""), Err(DecodeError::SyntaxError));
    assert_eq!(Event::decode("[1,2,3,4,5,6] x"), Err(DecodeError::SyntaxError));
    assert_eq!(Context::decode("{\"patient_id\":"), Err(DecodeError::SyntaxError));
    assert_eq!(Context::decode("{'a':1}"), Err(DecodeError::SyntaxError));
    assert_eq!(Code::decode("{\"code\":\"a\",}"), Err(DecodeError::SyntaxError));
    assert_eq!(
        deserialize_event(&"not json".to_string()),
        Err(DecodeError::SyntaxError)
    );
    assert_eq!(Json::parse("[1,", 3), Err(DecodeError::SyntaxError));
    assert_eq!(Json::parse("{\"a\":[1,]}", 0), Err(DecodeError::SyntaxError));
}

#[test]
fn envelope_of_wrong_layout_is_malformed() {
    let context = context_with("\"Death\"", "{}");
    assert_eq!(Event::decode("{}"), Err(DecodeError::MalformedEnvelope));
    assert_eq!(Event::decode("12"), Err(DecodeError::MalformedEnvelope));
    assert_eq!(Event::decode("[]"), Err(DecodeError::MalformedEnvelope));
    assert_eq!(
        Event::decode(&format!("[1,2,3,\"Death\",[],{},7]", context)),
        Err(DecodeError::MalformedEnvelope)
    );
    assert_eq!(
        Event::decode(&format!("[1,2,3,\"Death\",{}]", context)),
        Err(DecodeError::MalformedEnvelope)
    );
    assert_eq!(
        Event::decode(&format!("[1,2,3,5,[],{}]", context)),
        Err(DecodeError::MalformedEnvelope)
    );
    assert_eq!(
        Event::decode(&format!("[1,2,3,\"Death\",\"x\",{}]", context)),
        Err(DecodeError::MalformedEnvelope)
    );
    assert_eq!(
        Event::decode(&format!("[1,2,3,\"Death\",[\"x\",4],{}]", context)),
        Err(DecodeError::MalformedEnvelope)
    );
    assert_eq!(
        Event::decode("[1,2,3,\"Death\",[],[]]"),
        Err(DecodeError::MalformedEnvelope)
    );
    assert_eq!(Event::decode(&format!("[1,2,3,\"Death\",[],{}]", context)).map(|_| ()), Ok(()));
}

#[test]
fn context_of_wrong_layout_is_malformed() {
    assert_eq!(Context::decode("[]"), Err(DecodeError::MalformedEnvelope));
    assert_eq!(Context::decode("null"), Err(DecodeError::MalformedEnvelope));
    assert_eq!(
        Context::decode("{\"patient_id\":1,\"time\":{\"begin\":0},\"facts\":{}}"),
        Err(DecodeError::MalformedEnvelope)
    );
    assert_eq!(
        Context::decode("{\"patient_id\":1,\"time\":{\"begin\":0},\"domain\":7,\"facts\":{}}"),
        Err(DecodeError::MalformedEnvelope)
    );
    assert_eq!(
        Context::decode("{\"time\":{\"begin\":0},\"domain\":\"Death\",\"facts\":{}}"),
        Err(DecodeError::MalformedEnvelope)
    );
    assert_eq!(
        Context::decode("{\"patient_id\":1,\"domain\":\"Death\",\"facts\":{}}"),
        Err(DecodeError::MalformedEnvelope)
    );
}

#[test]
fn envelope_subject_of_no_shape_is_a_mismatch() {
    let context = context_with("\"Death\"", "{}");
    assert_eq!(
        Event::decode(&format!("[true,2,3,\"Death\",[],{}]", context)),
        Err(DecodeError::ShapeMismatch)
    );
}

#[test]
fn context_subject_and_time_of_no_shape_are_mismatches() {
    assert_eq!(
        Context::decode("{\"patient_id\":[1],\"time\":{\"begin\":0},\"domain\":\"Death\",\"facts\":{}}"),
        Err(DecodeError::ShapeMismatch)
    );
    assert_eq!(
        Context::decode("{\"patient_id\":1,\"time\":5,\"domain\":\"Death\",\"facts\":{}}"),
        Err(DecodeError::ShapeMismatch)
    );
}

#[test]
fn domain_outside_the_closed_set_is_unknown() {
    assert_eq!(
        Context::decode(&context_with("\"Unknown\"", "{}")),
        Err(DecodeError::UnknownDomain)
    );
    assert_eq!(
        Context::decode(&context_with("\"Unknown\"", "{\"claim\":{\"id\":\"claim1\"}}")),
        Err(DecodeError::UnknownDomain)
    );
    assert_eq!(
        Context::decode(&context_with("\"Unknown\"", "17")),
        Err(DecodeError::UnknownDomain)
    );
    assert_eq!(
        Context::decode(&context_with("\"claim\"", "{\"claim\":{\"id\":\"claim1\"}}")),
        Err(DecodeError::UnknownDomain)
    );
    assert_eq!(Context::decode(&context_with("\"\"", "{}")), Err(DecodeError::UnknownDomain));
    assert_eq!(
        Context::decode("{\"patient_id\":true,\"time\":3,\"domain\":\"Undefined\"}"),
        Err(DecodeError::UnknownDomain)
    );
}

#[test]
fn envelope_tag_outside_the_closed_set_is_unknown() {
    let context = context_with("\"Death\"", "{}");
    assert_eq!(
        Event::decode(&format!("[1,2,3,\"Unknown\",[],{}]", context)),
        Err(DecodeError::UnknownDomain)
    );
    let unknown = context_with("\"Unknown\"", "{}");
    assert_eq!(
        Event::decode(&format!("[1,2,3,\"Death\",[],{}]", unknown)),
        Err(DecodeError::UnknownDomain)
    );
}

#[test]
fn every_domain_is_known() {
    for tag in [
        "Claim",
        "Death",
        "Demographics",
        "Diagnosis",
        "Eligibility",
        "Enrollment",
        "Labs",
        "Medication",
        "Procedure",
    ] {
        let result = Context::decode(&context_with(&format!("\"{}\"", tag), "null"));
        assert_eq!(result, Err(DecodeError::InvalidFacts(FactField::Facts)), "{}", tag);
    }
}

#[test]
fn facts_that_miss_their_schema_name_the_member() {
    let cases: Vec<(&str, &str, FactField)> = vec![
        ("Claim", "{}", FactField::Claim),
        ("Claim", "{\"claim\":5}", FactField::Claim),
        ("Claim", "{\"claim\":{}}", FactField::Id),
        ("Claim", "{\"claim\":{\"id\":5}}", FactField::Id),
        ("Claim", "{\"claim\":{\"id\":null}}", FactField::Id),
        ("Claim", "{\"claim\":{\"id\":\"a\",\"type\":1}}", FactField::Type),
        ("Claim", "{\"claim\":{\"id\":\"a\",\"index\":-1}}", FactField::Index),
        ("Claim", "{\"claim\":{\"id\":\"a\",\"index\":4294967296}}", FactField::Index),
        ("Claim", "{\"claim\":{\"id\":\"a\",\"procedure\":[]}}", FactField::Procedure),
        ("Claim", "{\"claim\":{\"id\":\"a\"},\"location\":\"Home\"}", FactField::Location),
        ("Claim", "{\"claim\":{\"id\":\"a\"},\"location\":3}", FactField::Location),
        ("Claim", "{\"claim\":{\"id\":\"a\"},\"cost\":\"9\"}", FactField::Cost),
        ("Claim", "{\"claim\":{\"id\":\"a\"},\"cost\":{}}", FactField::Cost),
        ("Claim", "{\"claim\":{\"id\":\"a\"},\"cost\":{\"cost\":\"9\",\"charge\":1}}", FactField::Charge),
        ("Claim", "{\"claim\":{\"id\":\"a\"},\"cost\":{\"cost\":\"9\",\"allowed\":1}}", FactField::Allowed),
        ("Claim", "{\"claim\":{\"id\":\"a\"},\"cost\":{\"cost\":\"9\",\"transaction\":1}}", FactField::Transaction),
        ("Death", "[]", FactField::Facts),
        ("Eligibility", "\"x\"", FactField::Facts),
        ("Enrollment", "1", FactField::Facts),
        ("Demographics", "{}", FactField::Field),
        ("Demographics", "{\"field\":\"Height\"}", FactField::Field),
        ("Demographics", "{\"field\":1}", FactField::Field),
        ("Diagnosis", "{}", FactField::Code),
        ("Diagnosis", "{\"code\":\"Z21\"}", FactField::Code),
        ("Diagnosis", "{\"code\":{}}", FactField::Code),
        ("Diagnosis", "{\"code\":{\"code\":\"Z21\",\"codebook\":\"ICD11\"}}", FactField::Codebook),
        ("Diagnosis", "{\"code\":{\"code\":\"Z21\",\"codebook\":9}}", FactField::Codebook),
        ("Diagnosis", "{\"code\":{\"code\":\"Z21\"},\"claim\":{}}", FactField::Id),
        ("Labs", "{\"code\":{\"code\":\"L\"}}", FactField::Value),
        ("Labs", "{\"code\":{\"code\":\"L\"},\"value\":1}", FactField::Value),
        ("Labs", "{\"code\":{\"code\":\"L\"},\"value\":{}}", FactField::Units),
        ("Labs", "{\"code\":{\"code\":\"L\"},\"value\":{\"units\":\"mg\",\"text\":1}}", FactField::Text),
        ("Labs", "{\"code\":{\"code\":\"L\"},\"value\":{\"units\":\"mg\",\"number\":\"1\"}}", FactField::Number),
        ("Labs", "{\"code\":{\"code\":\"L\"},\"value\":{\"units\":\"mg\",\"number\":true}}", FactField::Number),
        ("Medication", "{\"code\":{\"code\":\"A\"},\"fill\":1}", FactField::Fill),
        ("Medication", "{\"code\":{\"code\":\"A\"},\"fill\":{\"days_supply\":1.5}}", FactField::DaysSupply),
        ("Medication", "{\"code\":{\"code\":\"A\"},\"fill\":{\"days_supply\":2147483648}}", FactField::DaysSupply),
        ("Medication", "{\"code\":{\"code\":\"A\"},\"fill\":{\"quantity\":-2147483649}}", FactField::Quantity),
        ("Medication", "{\"code\":{\"code\":\"A\"},\"fill\":{\"strength\":1}}", FactField::Strength),
        ("Procedure", "{\"claim\":{\"id\":\"a\"}}", FactField::Code),
    ];
    for (domain, facts, field) in cases {
        let text = context_with(&format!("\"{}\"", domain), facts);
        assert_eq!(
            Context::decode(&text),
            Err(DecodeError::InvalidFacts(field)),
            "{}",
            text
        );
    }
}

#[test]
fn context_without_facts_is_invalid() {
    assert_eq!(
        Context::decode("{\"patient_id\":1,\"time\":{\"begin\":0},\"domain\":\"Death\"}"),
        Err(DecodeError::InvalidFacts(FactField::Facts))
    );
}

#[test]
fn payload_is_held_to_the_schema_of_its_domain() {
    let payload = "{\"claim\":{\"id\":\"c\"},\"code\":{\"code\":\"x\"}}";
    let as_claim = Context::decode(&context_with("\"Claim\"", payload)).unwrap();
    assert!(matches!(as_claim.facts, Facts::Claim(_)));
    let as_procedure = Context::decode(&context_with("\"Procedure\"", payload)).unwrap();
    match as_procedure.facts {
        Facts::Procedure(facts) => {
            assert_eq!(facts.code, Code { code: "x".to_string(), codebook: None });
            assert_eq!(facts.claim.map(|claim| claim.id), Some("c".to_string()));
        }
        other => panic!("not procedure facts: {:?}", other),
    }
    assert_eq!(
        Facts::from_json(Domain::Death, &json("{\"anything\":1}")).map(|f| f.domain()),
        Ok(Domain::Death)
    );
    assert_eq!(
        Facts::from_json(Domain::Labs, &json(payload)),
        Err(DecodeError::InvalidFacts(FactField::Value))
    );
}

#[test]
fn leaves_decode_to_their_fields() {
    assert_eq!(
        Claim::from_json(&json("{\"id\":\"c1\",\"type\":\"rx\",\"index\":4294967295,\"procedure\":\"p\"}")),
        Ok(Claim {
            id: "c1".to_string(),
            kind: Some("rx".to_string()),
            index: Some(u32::MAX),
            procedure: Some("p".to_string()),
        })
    );
    assert_eq!(
        Cost::from_json(&json("{\"charge\":\"1\",\"cost\":\"2\",\"allowed\":\"3\",\"transaction\":\"4\"}")),
        Ok(Cost {
            charge: Some("1".to_string()),
            cost: "2".to_string(),
            allowed: Some("3".to_string()),
            transaction: Some("4".to_string()),
        })
    );
    assert_eq!(
        Fill::from_json(&json("{\"days_supply\":-3,\"quantity\":2147483647,\"strength\":\"5mg\"}")),
        Ok(Fill { days_supply: Some(-3), quantity: Some(i32::MAX), strength: Some("5mg".to_string()) })
    );
    assert_eq!(
        Fill::from_json(&json("{\"days_supply\":-2147483648}")),
        Ok(Fill { days_supply: Some(i32::MIN), quantity: None, strength: None })
    );
    assert_eq!(
        LabValue::from_json(&json("{\"text\":\"high\",\"number\":1.50e2,\"units\":\"mg\"}")),
        Ok(LabValue {
            text: Some("high".to_string()),
            number: Some(Json {
                raw: "1.50e2".to_string(),
                node: Node::Number { unsigned: None, signed: None },
            }),
            units: "mg".to_string(),
        })
    );
    assert_eq!(
        Code::decode("{\"code\":\"Z21\",\"codebook\":\"ICD10\"}"),
        Ok(Code { code: "Z21".to_string(), codebook: Some(Codebook::ICD10) })
    );
}

#[test]
fn null_stands_for_an_absent_member() {
    assert_eq!(
        Claim::from_json(&json("{\"id\":\"c1\",\"type\":null,\"index\":null,\"procedure\":null}")),
        Ok(Claim { id: "c1".to_string(), kind: None, index: None, procedure: None })
    );
    let context = Context::decode("{\"patient_id\":1,\"time\":{\"begin\":0},\"domain\":\"Demographics\",\"facts\":{\"field\":\"Gender\",\"info\":null},\"source\":null,\"misc\":null}").unwrap();
    assert_eq!(context.source, None);
    assert_eq!(context.misc, None);
    match context.facts {
        Facts::Demographics(facts) => {
            assert_eq!(facts.field, DemographicField::Gender);
            assert_eq!(facts.info, None);
        }
        other => panic!("not demographic facts: {:?}", other),
    }
}

#[test]
fn members_that_are_not_of_the_schema_are_passed_over() {
    assert_eq!(
        Code::decode("{\"extra\":[1,2],\"code\":\"Z21\"}"),
        Ok(Code { code: "Z21".to_string(), codebook: None })
    );
}

#[test]
fn every_tag_is_read_as_its_member() {
    for location in [Location::Unknown, Location::Inpatient, Location::Outpatient] {
        assert_eq!(Location::from_tag(location.tag()), Some(location));
    }
    for codebook in [
        Codebook::CDT,
        Codebook::CPT,
        Codebook::HCPCS,
        Codebook::ICD9,
        Codebook::ICD9PC,
        Codebook::ICD10,
        Codebook::ICD10PC,
        Codebook::LOINC,
        Codebook::MedicaidCat,
        Codebook::NABSP,
        Codebook::NDC,
        Codebook::NDC9,
        Codebook::UB92,
        Codebook::USSTATE,
    ] {
        assert_eq!(Codebook::from_tag(codebook.tag()), Some(codebook));
    }
    for field in [
        DemographicField::BirthYear,
        DemographicField::BirthDate,
        DemographicField::Race,
        DemographicField::RaceCodes,
        DemographicField::Gender,
        DemographicField::Zipcode,
        DemographicField::County,
        DemographicField::CountyFIPS,
        DemographicField::State,
        DemographicField::Ethnicity,
        DemographicField::Region,
        DemographicField::UrbanRural,
    ] {
        assert_eq!(DemographicField::from_tag(field.tag()), Some(field));
    }
    assert_eq!(Codebook::MedicaidCat.tag(), "medicaid_cat");
    assert_eq!(Codebook::USSTATE.tag(), "US_STATE");
    assert_eq!(Codebook::from_tag("MedicaidCat"), None);
    assert_eq!(Codebook::from_tag("USSTATE"), None);
    assert_eq!(Location::from_tag("inpatient"), None);
    assert_eq!(FactField::DaysSupply.name(), "days_supply");
    assert_eq!(FactField::Type.name(), "type");
}
