//! Round trips of literal records: what is decoded is encoded to the very
//! text it came from.

use eddeserus::types::{Code, Context, Event};

#[test]
fn test_medicaid_cat() {
    let json = "\
        {\
         \"code\":\"abc\",\
         \"codebook\":\"medicaid_cat\"\
        }".to_string();

    let code = Code::decode(&json);
    println!("Code\n{:?}\n", &code);
    assert_eq!(json, code.unwrap().encode().unwrap());
}

#[test]
fn test_us_state() {
    let json = "\
        {\
         \"code\":\"abc\",\
         \"codebook\":\"US_STATE\"\
        }".to_string();

    let code = Code::decode(&json);
    println!("Code\n{:?}\n", &code);
    assert_eq!(json, code.unwrap().encode().unwrap());
}

#[test]
fn test_icd10pc() {
    let json = "\
        {\
         \"code\":\"abc\",\
         \"codebook\":\"ICD10PC\"\
        }".to_string();

    let code = Code::decode(&json);
    println!("Code\n{:?}\n", &code);
    assert_eq!(json, code.unwrap().encode().unwrap());
}

#[test]
fn types_test1() {
    let json = "[\
        \"xyz\",2,null,\"Demographics\",[],\
        {\
         \"patient_id\":\"abc\",\
         \"time\":{\"begin\":0,\"end\":1},\
         \"domain\":\"Demographics\",\
         \"facts\":{\"field\":\"BirthYear\",\"info\":\"1980\"},\
         \"source\":{\"table\":\"somewhere\",\"db\":\"optum\"},\
         \"misc\":{\"key1\":\"val1\",\"key2\":\"val2\"}\
        }]".to_string();

    let evnt = Event::decode(&json);
    println!("Demographics event\n{:?}\n", &evnt);
    assert_eq!(json, evnt.unwrap().encode().unwrap());
}

#[test]
fn types_test1_claim_context() {
    let json = "{\
                    \"patient_id\":123,\
                    \"time\":{\"begin\":0,\"end\":1},\
                    \"domain\":\"Claim\",\
                    \"facts\":{\
                        \"claim\":{\"id\":\"claim1\"}\
                      }\
                    }".to_string();

    let ctxt = Context::decode(&json);
    println!("Claim context:\n{:?}\n", &ctxt);
    assert_eq!(json, ctxt.unwrap().encode().unwrap());
}

#[test]
fn types_test2() {
    let json = "{\
                    \"patient_id\":123,\
                    \"time\":{\"begin\":0,\"end\":1},\
                    \"domain\":\"Claim\",\
                    \"facts\":{\
                        \"claim\":{\"id\":\"claim1\"},\
                        \"cost\":{\"charge\":\"uiui\",\"cost\":\"99\"}\
                      }\
                    }".to_string();

    let ctxt = Context::decode(&json);
    println!("Claim context:\n{:?}\n", &ctxt);
    assert_eq!(json, ctxt.unwrap().encode().unwrap());
}

#[test]
fn types_test1_death_context() {
    let json = "{\
            \"patient_id\":123,\
            \"time\":{\"begin\":0,\"end\":1},\
            \"domain\":\"Death\",\
            \"facts\":{}\
            }".to_string();

    let ctxt = Context::decode(&json);
    println!("Death context\n{:?}\n", &ctxt);
    assert_eq!(json, ctxt.unwrap().encode().unwrap());
}

#[test]
fn types_test1_demographic_context() {
    let json = "{\
                    \"patient_id\":\"abc\",\
                    \"time\":{\"begin\":0,\"end\":1},\
                    \"domain\":\"Demographics\",\
                    \"facts\":{\"field\":\"BirthYear\",\"info\":\"1980\"},\
                    \"source\":{\"table\":\"somewhere\",\"db\":\"optum\"},\
                    \"misc\":{\"key1\":\"val1\",\"key2\":\"val2\"}\
                    }".to_string();

    let ctxt = Context::decode(&json);
    println!("Demographic context:\n{:?}\n", &ctxt);
    assert_eq!(json, ctxt.unwrap().encode().unwrap());
}

#[test]
fn types_test2_demographic_context() {
    let json = "{\
                    \"patient_id\":\"abc\",\
                    \"time\":{\"begin\":0,\"end\":1},\
                    \"domain\":\"Demographics\",\
                    \"facts\":{\"field\":\"RaceCodes\",\"info\":[\"some\",\"info\"]},\
                    \"source\":{\"table\":\"somewhere\",\"db\":\"optum\"},\
                    \"misc\":{\"key1\":\"val1\",\"key2\":\"val2\"}\
                    }".to_string();

    let ctxt = Context::decode(&json);
    println!("Demographic context:\n{:?}\n", &ctxt);
    assert_eq!(json, ctxt.unwrap().encode().unwrap());
}

#[test]
fn types_test1_diagnosis_context() {
    let json = "{\
            \"patient_id\":123,\
            \"time\":{\"begin\":0,\"end\":1},\
            \"domain\":\"Diagnosis\",\
            \"facts\":{\
                \"code\":{\"code\":\"Z21\"},\
                \"location\":\"Outpatient\"}\
            }".to_string();

    let ctxt = Context::decode(&json);
    println!("Diagnosis context\n{:?}\n", &ctxt);
    assert_eq!(json, ctxt.unwrap().encode().unwrap());
}

#[test]
fn types_test1_eligibility_context() {
    let json = "{\
            \"patient_id\":123,\
            \"time\":{\"begin\":0,\"end\":1},\
            \"domain\":\"Eligibility\",\
            \"facts\":{}\
            }".to_string();

    let ctxt = Context::decode(&json);
    println!("Eligibility context\n{:?}\n", &ctxt);
    assert_eq!(json, ctxt.unwrap().encode().unwrap());
}

#[test]
fn types_test1_enrollment_context() {
    let json = "{\
            \"patient_id\":123,\
            \"time\":{\"begin\":0,\"end\":1},\
            \"domain\":\"Enrollment\",\
            \"facts\":{}\
            }".to_string();

    let ctxt = Context::decode(&json);
    println!("Enrollment context:\n{:?}\n", &ctxt);
    assert_eq!(json, ctxt.unwrap().encode().unwrap());
}

#[test]
fn types_test1_labs_context() {
    let json = "{\
            \"patient_id\":123,\
            \"time\":{\"begin\":0,\"end\":1},\
            \"domain\":\"Labs\",\
            \"facts\":{\"code\":{\"code\":\"L21\"},\
                       \"value\":{\"number\":0.1,\"units\":\"mg\"}}\
            }".to_string();

    let ctxt = Context::decode(&json);
    println!("Lab context\n{:?}\n", &ctxt);
    assert_eq!(json, ctxt.unwrap().encode().unwrap());
}

#[test]
fn types_test1_medication_context() {
    let json = "{\
            \"patient_id\":123,\
            \"time\":{\"begin\":0,\"end\":1},\
            \"domain\":\"Medication\",\
            \"facts\":{\"code\":{\"code\":\"A21\"},\
                       \"location\":\"Inpatient\"}\
            }".to_string();

    let ctxt = Context::decode(&json);
    println!("Medication context:\n{:?}\n", &ctxt);
    assert_eq!(json, ctxt.unwrap().encode().unwrap());
}

#[test]
fn types_test1_procedure_context() {
    let json = "{\
            \"patient_id\":123,\
            \"time\":{\"begin\":0,\"end\":1},\
            \"domain\":\"Procedure\",\
            \"facts\":{\"code\":{\"code\":\"A21\"},\
                       \"location\":\"Inpatient\"}\
            }".to_string();

    let ctxt = Context::decode(&json);
    println!("{:?}", &ctxt);
    assert_eq!(json, ctxt.unwrap().encode().unwrap());
}
