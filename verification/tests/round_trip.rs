//! Decoding what was encoded from a decoded record gives the same record
//! again, through the text and through the value that is written.

use eddeserus::sede::{deserialize_event, serialize_event};
use eddeserus::types::{Context, Event};

fn contexts() -> Vec<&'static str> {
    vec![
        "{\"patient_id\":123,\"time\":{\"begin\":0,\"end\":1},\"domain\":\"Claim\",\"facts\":{\"claim\":{\"id\":\"claim1\"}}}",
        "{\"patient_id\":123,\"time\":{\"begin\":0,\"end\":1},\"domain\":\"Claim\",\"facts\":{\"claim\":{\"id\":\"claim1\",\"type\":\"rx\",\"index\":3,\"procedure\":\"p\"},\"location\":\"Inpatient\",\"cost\":{\"charge\":\"uiui\",\"cost\":\"99\",\"allowed\":\"90\",\"transaction\":\"t\"}}}",
        "{\"patient_id\":\"abc\",\"time\":{\"begin\":\"2010-01-01\",\"end\":null},\"domain\":\"Death\",\"facts\":{}}",
        "{\"patient_id\":\"abc\",\"time\":{\"begin\":0,\"end\":1},\"domain\":\"Demographics\",\"facts\":{\"field\":\"RaceCodes\",\"info\":[\"some\",\"info\"]},\"source\":{\"table\":\"somewhere\",\"db\":\"optum\"},\"misc\":{\"key1\":\"val1\",\"key2\":\"val2\"}}",
        "{\"patient_id\":123,\"time\":{\"begin\":0,\"end\":1},\"domain\":\"Diagnosis\",\"facts\":{\"code\":{\"code\":\"Z21\",\"codebook\":\"ICD10\"},\"claim\":{\"id\":\"c\"},\"location\":\"Outpatient\"}}",
        "{\"patient_id\":123,\"time\":{\"begin\":0,\"end\":1},\"domain\":\"Eligibility\",\"facts\":{}}",
        "{\"patient_id\":123,\"time\":{\"begin\":0,\"end\":1},\"domain\":\"Enrollment\",\"facts\":{}}",
        "{\"patient_id\":123,\"time\":{\"begin\":0,\"end\":1},\"domain\":\"Labs\",\"facts\":{\"code\":{\"code\":\"L21\",\"codebook\":\"LOINC\"},\"value\":{\"text\":\"high\",\"number\":0.1,\"units\":\"mg\"},\"claim\":{\"id\":\"c\"},\"location\":\"Unknown\"}}",
        "{\"patient_id\":123,\"time\":{\"begin\":0,\"end\":1},\"domain\":\"Medication\",\"facts\":{\"code\":{\"code\":\"A21\",\"codebook\":\"NDC\"},\"fill\":{\"days_supply\":30,\"quantity\":-2,\"strength\":\"5mg\"},\"location\":\"Inpatient\",\"claim\":{\"id\":\"c\"}}}",
        "{\"patient_id\":123,\"time\":{\"begin\":0,\"end\":1},\"domain\":\"Procedure\",\"facts\":{\"code\":{\"code\":\"A21\",\"codebook\":\"CPT\"},\"location\":\"Inpatient\"}}",
    ]
}

#[test]
fn contexts_of_every_domain_come_back_as_written() {
    for json in contexts() {
        let context = Context::decode(json).unwrap();
        assert_eq!(context.encode().unwrap(), json);
    }
}

#[test]
fn events_of_every_domain_come_back_as_written() {
    for context in contexts() {
        let domain = Context::decode(context).unwrap().facts.domain().tag();
        let json = format!("[\"p1\",1577836800,\"2020-12-31\",\"{}\",[\"c1\",\"c2\"],{}]", domain, context);
        let event = deserialize_event(&json).unwrap();
        assert_eq!(serialize_event(&event).unwrap(), json);
    }
}

#[test]
fn decoding_again_gives_the_same_event() {
    let mut records: Vec<String> = contexts()
        .into_iter()
        .map(|context| format!(" [ 5 , \"b\" , null , \"Labs\" , [ ] , {} ] ", context))
        .collect();
    records.push("[\"s\",1.0,2e1,\"Death\",[\"x\",\"x\"],{\"misc\":{ \"k\" : [ 1 , 2 ] },\"facts\":{\"ignored\":true},\"domain\":\"Death\",\"time\":{\"begin\":7},\"patient_id\":\"\\u0041\",\"extra\":0,\"source\":null}]".to_string());
    for json in records {
        let first = Event::decode(&json).unwrap();
        let text = first.encode().unwrap();
        let second = Event::decode(&text).unwrap();
        assert_eq!(second, first);
        assert_eq!(second.encode().unwrap(), text);
    }
}

#[test]
fn decoding_again_gives_the_same_context() {
    for json in contexts() {
        let first = Context::decode(json).unwrap();
        let second = Context::decode(&first.encode().unwrap()).unwrap();
        assert_eq!(second, first);
    }
}

#[test]
fn the_value_that_is_written_decodes_to_the_same_event() {
    for context in contexts() {
        let json = format!("[\"p1\",{{\"at\":[1,2]}},null,\"Claim\",[\"c1\",\"c1\"],{}]", context);
        let event = Event::decode(&json).unwrap();
        let written = event.to_json().unwrap();
        assert_eq!(written.raw, event.encode().unwrap());
        assert_eq!(Event::from_json(&written), Ok(event));
    }
}

#[test]
fn the_value_that_is_written_decodes_to_the_same_context() {
    for json in contexts() {
        let context = Context::decode(json).unwrap();
        let written = context.to_json().unwrap();
        assert_eq!(written.raw, json);
        assert_eq!(Context::from_json(&written), Ok(context));
    }
}
