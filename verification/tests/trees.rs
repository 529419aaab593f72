//! JSON values as they are read, and decoders on values written by hand.

use eddeserus::error::{DecodeError, FactField};
use eddeserus::tree::{find, find_present};
use eddeserus::types::{
    Claim, Code, Codebook, Context, Domain, Event, Facts, Interval, Json, Member, Node, SubjectID,
};

fn leaf(raw: &str, node: Node) -> Json {
    Json { raw: raw.to_string(), node }
}

fn string(s: &str) -> Json {
    leaf(&format!("\"{}\"", s), Node::String(s.to_string()))
}

fn number(n: u64) -> Json {
    leaf(&n.to_string(), Node::Number { unsigned: Some(n), signed: Some(n as i64) })
}

fn member(name: &str, value: Json) -> Member {
    Member { name: name.to_string(), value }
}

fn object(members: Vec<Member>) -> Json {
    leaf("{}", Node::Object(members))
}

#[test]
fn scalars_are_read_by_their_kind() {
    assert_eq!(Json::parse("\"a\\nb\"", 1), Ok(leaf("\"a\\nb\"", Node::String("a\nb".to_string()))));
    assert_eq!(
        Json::parse("12", 1),
        Ok(leaf("12", Node::Number { unsigned: Some(12), signed: Some(12) }))
    );
    assert_eq!(
        Json::parse("-12", 1),
        Ok(leaf("-12", Node::Number { unsigned: None, signed: Some(-12) }))
    );
    assert_eq!(
        Json::parse("18446744073709551615", 1),
        Ok(leaf("18446744073709551615", Node::Number { unsigned: Some(u64::MAX), signed: None }))
    );
    assert_eq!(
        Json::parse("1.0", 1),
        Ok(leaf("1.0", Node::Number { unsigned: None, signed: None }))
    );
    assert_eq!(
        Json::parse("2e3", 1),
        Ok(leaf("2e3", Node::Number { unsigned: None, signed: None }))
    );
    assert_eq!(Json::parse("null", 1), Ok(leaf("null", Node::Null)));
    assert_eq!(Json::parse("true", 1), Ok(leaf("true", Node::Other)));
    assert_eq!(Json::parse("false", 1), Ok(leaf("false", Node::Other)));
}

#[test]
fn text_is_kept_as_it_stands() {
    let tree = Json::parse(" [ 1 ,  \"a\" ] ", 2).unwrap();
    assert_eq!(tree.raw, " [ 1 ,  \"a\" ] ");
    assert_eq!(
        tree.node,
        Node::Array(vec![
            leaf("1", Node::Number { unsigned: Some(1), signed: Some(1) }),
            leaf("\"a\"", Node::String("a".to_string())),
        ])
    );
    assert_eq!(tree.items().map(|items| items.len()), Some(2));
    assert!(tree.members().is_none());
}

#[test]
fn reading_stops_at_the_depth_given() {
    let text = "{\"a\":{\"b\":[1,{\"c\":null}]},\"d\":\"x\"}";
    assert_eq!(Json::parse(text, 0), Ok(leaf(text, Node::Other)));
    assert_eq!(
        Json::parse(text, 1),
        Ok(leaf(
            text,
            Node::Object(vec![
                member("a", leaf("{\"b\":[1,{\"c\":null}]}", Node::Other)),
                member("d", leaf("\"x\"", Node::Other)),
            ])
        ))
    );
    assert_eq!(
        Json::parse(text, 3),
        Ok(leaf(
            text,
            Node::Object(vec![
                member(
                    "a",
                    leaf(
                        "{\"b\":[1,{\"c\":null}]}",
                        Node::Object(vec![member(
                            "b",
                            leaf(
                                "[1,{\"c\":null}]",
                                Node::Array(vec![
                                    leaf("1", Node::Other),
                                    leaf("{\"c\":null}", Node::Other),
                                ])
                            )
                        )])
                    )
                ),
                member("d", leaf("\"x\"", Node::String("x".to_string()))),
            ])
        ))
    );
}

#[test]
fn deep_nesting_is_read_no_deeper_than_asked() {
    let mut text = String::new();
    for _ in 0..5000 {
        text.push('[');
    }
    for _ in 0..5000 {
        text.push(']');
    }
    let tree = Json::parse(&text, 2).unwrap();
    let inner = &text[1..text.len() - 1];
    assert_eq!(tree.node, Node::Array(vec![leaf(inner, Node::Array(vec![leaf(&inner[1..inner.len() - 1], Node::Other)]))]));
    let event = format!("[1,{},null,\"Death\",[],{{\"patient_id\":1,\"time\":{{\"begin\":0}},\"domain\":\"Death\",\"facts\":{{}},\"misc\":{}}}]", text, text);
    let decoded = Event::decode(&event).unwrap();
    assert_eq!(decoded.b.raw, text);
    assert_eq!(decoded.encode().unwrap(), format!("[1,{},null,\"Death\",[],{{\"patient_id\":1,\"time\":{{\"begin\":0,\"end\":null}},\"domain\":\"Death\",\"facts\":{{}},\"misc\":{}}}]", text, text));
}

#[test]
fn a_copy_is_equal_to_what_was_copied() {
    let tree = Json::parse("{\"a\":[1,\"x\",null,{\"b\":-2.5}],\"c\":true}", 4).unwrap();
    assert_eq!(tree.copy(), tree);
}

#[test]
fn values_are_built_with_their_text() {
    assert_eq!(Json::string("a\"b"), Ok(leaf("\"a\\\"b\"", Node::String("a\"b".to_string()))));
    assert_eq!(Json::tag("Claim"), leaf("\"Claim\"", Node::String("Claim".to_string())));
    assert_eq!(Json::unsigned(0), leaf("0", Node::Number { unsigned: Some(0), signed: Some(0) }));
    assert_eq!(
        Json::unsigned(u64::MAX),
        leaf("18446744073709551615", Node::Number { unsigned: Some(u64::MAX), signed: None })
    );
    assert_eq!(Json::signed(-7), leaf("-7", Node::Number { unsigned: None, signed: Some(-7) }));
    assert_eq!(Json::signed(7), leaf("7", Node::Number { unsigned: Some(7), signed: Some(7) }));
    assert_eq!(Json::null(), leaf("null", Node::Null));
    assert_eq!(Json::object(vec![]).raw, "{}");
    assert_eq!(Json::array(vec![]).raw, "[]");
    let built = Json::object(vec![
        member("b", Json::array(vec![Json::unsigned(1), Json::null()])),
        member("a", Json::string("x").unwrap()),
    ]);
    assert_eq!(built.raw, "{\"b\":[1,null],\"a\":\"x\"}");
    assert_eq!(built.members().map(|members| members.len()), Some(2));
}

#[test]
fn values_that_are_built_are_read_back_alike() {
    for built in [
        Json::string("a\"b\n").unwrap(),
        Json::tag("Claim"),
        Json::unsigned(0),
        Json::unsigned(u64::MAX),
        Json::signed(i32::MIN),
        Json::signed(12),
        Json::null(),
        Json::array(vec![Json::unsigned(1), Json::null(), Json::array(vec![])]),
        Json::object(vec![
            member("a", Json::array(vec![Json::unsigned(1)])),
            member("b", Json::string("x").unwrap()),
        ]),
    ] {
        assert_eq!(Json::parse(&built.raw, 4), Ok(built));
    }
}

#[test]
fn members_are_found_by_their_key() {
    let members = vec![
        member("a", number(1)),
        member("b", leaf("null", Node::Null)),
        member("a", number(2)),
    ];
    assert_eq!(find(&members, "a"), Some(&number(1)));
    assert_eq!(find(&members, "b"), Some(&leaf("null", Node::Null)));
    assert_eq!(find(&members, "c"), None);
    assert_eq!(find(&members, ""), None);
    assert_eq!(find_present(&members, "a"), Some(&number(1)));
    assert_eq!(find_present(&members, "b"), None);
    assert_eq!(find_present(&members, "c"), None);
}

#[test]
fn of_a_key_written_twice_the_last_value_is_read() {
    let tree = Json::parse("{\"k\":1,\"k\":2}", 2).unwrap();
    assert_eq!(
        tree.node,
        Node::Object(vec![member("k", leaf("2", Node::Number { unsigned: Some(2), signed: Some(2) }))])
    );
}

#[test]
fn decoders_take_values_written_by_hand() {
    assert_eq!(SubjectID::from_json(&number(123)), Ok(SubjectID::Idint(123)));
    assert_eq!(SubjectID::from_json(&string("abc")), Ok(SubjectID::IDstr("abc".to_string())));
    assert_eq!(
        SubjectID::from_json(&leaf("-1", Node::Number { unsigned: None, signed: Some(-1) })),
        Err(DecodeError::ShapeMismatch)
    );
    assert_eq!(
        Code::from_json(&object(vec![
            member("codebook", string("LOINC")),
            member("code", string("L21")),
        ])),
        Ok(Code { code: "L21".to_string(), codebook: Some(Codebook::LOINC) })
    );
    assert_eq!(
        Code::from_json(&object(vec![])),
        Err(DecodeError::InvalidFacts(FactField::Code))
    );
    assert_eq!(
        Claim::from_json(&object(vec![member("id", string("c")), member("index", number(7))])),
        Ok(Claim { id: "c".to_string(), kind: None, index: Some(7), procedure: None })
    );
    assert_eq!(
        Interval::from_json(&object(vec![
            member("begin", number(1)),
            member("end", leaf("null", Node::Null)),
        ])),
        Ok(Interval::IntervalInt { begin: 1, end: None })
    );
    assert_eq!(
        Facts::from_json(Domain::Enrollment, &object(vec![])).map(|facts| facts.domain()),
        Ok(Domain::Enrollment)
    );
}

#[test]
fn a_value_read_too_shallow_does_not_decode() {
    let text = "{\"patient_id\":123,\"time\":{\"begin\":0,\"end\":1},\"domain\":\"Claim\",\"facts\":{\"claim\":{\"id\":\"claim1\"}}}";
    assert!(Context::from_json(&Json::parse(text, 4).unwrap()).is_ok());
    assert!(Context::from_json(&Json::parse(text, 9).unwrap()).is_ok());
    assert_eq!(
        Context::from_json(&Json::parse(text, 3).unwrap()),
        Err(DecodeError::InvalidFacts(FactField::Id))
    );
    assert_eq!(
        Context::from_json(&Json::parse(text, 1).unwrap()),
        Err(DecodeError::MalformedEnvelope)
    );
    assert_eq!(
        Context::from_json(&Json::parse(text, 0).unwrap()),
        Err(DecodeError::MalformedEnvelope)
    );
}
