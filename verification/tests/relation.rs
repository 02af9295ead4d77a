use room_message::json::{Json, JsonNumber};
use room_message::relationships::{
    decode_relation, decode_relation_with, encode_relation, Annotation, InReplyTo, Reference,
    RelatesToJsonRepr, Relation, RelationJsonRepr, Replacement,
};
use serde_json::Value;

fn tree(value: &Value) -> Json {
    match value {
        Value::Null => Json::Null,
        Value::Bool(b) => Json::Bool(*b),
        Value::Number(n) => {
            if let Some(u) = n.as_u64() {
                Json::Number(JsonNumber::Unsigned(u))
            } else if let Some(i) = n.as_i64() {
                Json::Number(JsonNumber::Negative(i))
            } else {
                Json::Number(JsonNumber::Real(n.as_f64().unwrap().to_bits()))
            }
        }
        Value::String(s) => Json::String(s.clone()),
        Value::Array(items) => Json::Array(items.iter().map(tree).collect()),
        Value::Object(members) => {
            Json::Object(members.iter().map(|(k, v)| (k.clone(), tree(v))).collect())
        }
    }
}

fn value(tree: &Json) -> Value {
    match tree {
        Json::Null => Value::Null,
        Json::Bool(b) => Value::Bool(*b),
        Json::Number(JsonNumber::Unsigned(u)) => Value::from(*u),
        Json::Number(JsonNumber::Negative(i)) => Value::from(*i),
        Json::Number(JsonNumber::Real(bits)) => Value::from(f64::from_bits(*bits)),
        Json::String(s) => Value::String(s.clone()),
        Json::Array(items) => Value::Array(items.iter().map(value).collect()),
        Json::Object(members) => {
            let mut map = serde_json::Map::new();
            for (k, v) in members {
                map.insert(k.clone(), value(v));
            }
            Value::Object(map)
        }
    }
}

fn parse(text: &str) -> Value {
    serde_json::from_str(text).unwrap()
}

fn read(text: &str) -> Relation {
    decode_relation(&tree(&parse(text)))
}

fn reply(event_id: &str) -> Relation {
    Relation::Reply { in_reply_to: InReplyTo { event_id: event_id.to_owned() } }
}

#[test]
fn reply_is_read_and_written_back() {
    let text = r#"{"m.in_reply_to":{"event_id":"$abc:example.com"}}"#;
    let relation = read(text);
    assert_eq!(relation, reply("$abc:example.com"));
    assert_eq!(value(&encode_relation(&relation)), parse(text));
    assert_eq!(
        encode_relation(&relation),
        Json::Object(vec![(
            "m.in_reply_to".to_owned(),
            Json::Object(vec![("event_id".to_owned(), Json::String("$abc:example.com".to_owned()))])
        )])
    );
}

#[test]
fn custom_relation_is_kept_as_it_came() {
    let text = r#"{"foo":"bar"}"#;
    let relation = read(text);
    assert_eq!(relation, Relation::Custom(tree(&parse(text))));
    assert_eq!(value(&encode_relation(&relation)), parse(text));
    assert_eq!(encode_relation(&relation), tree(&parse(text)));
}

#[test]
fn reply_wins_over_rel_type() {
    let both = r#"{
        "rel_type": "m.annotation",
        "event_id": "$other:example.com",
        "key": "x",
        "m.in_reply_to": {"event_id": "$abc:example.com"}
    }"#;
    assert_eq!(read(both), reply("$abc:example.com"));
    let reference = r#"{"rel_type":"m.reference","event_id":"$o:e.com","m.in_reply_to":{"event_id":"$a:e.com"}}"#;
    assert_eq!(read(reference), reply("$a:e.com"));
    let replace = r#"{"rel_type":"m.replace","event_id":"$o:e.com","m.in_reply_to":{"event_id":"$a:e.com"}}"#;
    assert_eq!(read(replace), reply("$a:e.com"));
    assert_eq!(decode_relation_with(&tree(&parse(both)), false), reply("$abc:example.com"));
}

#[test]
fn malformed_reply_falls_through_to_rel_type() {
    let text = r#"{"rel_type":"m.reference","event_id":"$o:e.com","m.in_reply_to":"nope"}"#;
    assert_eq!(
        read(text),
        Relation::Reference(Reference { event_id: "$o:e.com".to_owned() })
    );
    let inner = r#"{"rel_type":"m.reference","event_id":"$o:e.com","m.in_reply_to":{"event_id":7}}"#;
    assert_eq!(
        read(inner),
        Relation::Reference(Reference { event_id: "$o:e.com".to_owned() })
    );
}

#[test]
fn annotation_reference_and_replacement_are_told_by_rel_type() {
    let annotation = r#"{"rel_type":"m.annotation","event_id":"$e:x.org","key":"+1"}"#;
    assert_eq!(
        read(annotation),
        Relation::Annotation(Annotation { event_id: "$e:x.org".to_owned(), key: "+1".to_owned() })
    );
    let reference = r#"{"rel_type":"m.reference","event_id":"$e:x.org"}"#;
    assert_eq!(read(reference), Relation::Reference(Reference { event_id: "$e:x.org".to_owned() }));
    let replacement = r#"{"rel_type":"m.replace","event_id":"$e:x.org"}"#;
    assert_eq!(
        read(replacement),
        Relation::Replacement(Replacement { event_id: "$e:x.org".to_owned() })
    );
    for text in [annotation, reference, replacement] {
        assert_eq!(value(&encode_relation(&read(text))), parse(text));
        assert_eq!(read(text), decode_relation(&encode_relation(&read(text))));
    }
}

#[test]
fn written_relation_starts_with_rel_type() {
    let annotation =
        Relation::Annotation(Annotation { event_id: "$e:x.org".to_owned(), key: "+1".to_owned() });
    assert_eq!(
        encode_relation(&annotation),
        Json::Object(vec![
            ("rel_type".to_owned(), Json::String("m.annotation".to_owned())),
            ("event_id".to_owned(), Json::String("$e:x.org".to_owned())),
            ("key".to_owned(), Json::String("+1".to_owned())),
        ])
    );
}

#[test]
fn shapes_that_are_not_quite_known_stay_custom() {
    for text in [
        r#"{"rel_type":"m.annotation","event_id":"$e:x.org"}"#,
        r#"{"rel_type":"m.annotation","event_id":"$e:x.org","key":1}"#,
        r#"{"rel_type":"m.thread","event_id":"$e:x.org"}"#,
        r#"{"rel_type":"M.REFERENCE","event_id":"$e:x.org"}"#,
        r#"{"rel_type":"m.reference"}"#,
        r#"{"rel_type":7,"event_id":"$e:x.org"}"#,
        r#"{"m.in_reply_to":{}}"#,
        r#"{}"#,
        r#"[1,2]"#,
        r#""text""#,
        r#"null"#,
        r#"1.5"#,
        r#"-3"#,
    ] {
        let relation = read(text);
        assert_eq!(relation, Relation::Custom(tree(&parse(text))), "{}", text);
        assert_eq!(value(&encode_relation(&relation)), parse(text));
    }
}

#[test]
fn rel_type_kinds_can_be_switched_off() {
    let text = r#"{"rel_type":"m.annotation","event_id":"$e:x.org","key":"+1"}"#;
    let json = tree(&parse(text));
    assert_eq!(decode_relation_with(&json, false), Relation::Custom(json.clone()));
    assert_eq!(
        decode_relation_with(&json, true),
        Relation::Annotation(Annotation { event_id: "$e:x.org".to_owned(), key: "+1".to_owned() })
    );
    assert_eq!(encode_relation(&decode_relation_with(&json, false)), json);
}

#[test]
fn logical_and_wire_shapes_match_one_to_one() {
    let relations = vec![
        Relation::Reference(Reference { event_id: "$a".to_owned() }),
        Relation::Annotation(Annotation { event_id: "$a".to_owned(), key: "k".to_owned() }),
        Relation::Replacement(Replacement { event_id: "$a".to_owned() }),
        reply("$a"),
        Relation::Custom(Json::Number(JsonNumber::Unsigned(3))),
    ];
    let wires: Vec<RelatesToJsonRepr> = relations.iter().map(|r| r.clone().to_wire()).collect();
    assert_eq!(
        wires[0],
        RelatesToJsonRepr::Relation(RelationJsonRepr::Reference(Reference {
            event_id: "$a".to_owned()
        }))
    );
    assert_eq!(
        wires[3],
        RelatesToJsonRepr::Reply { in_reply_to: InReplyTo { event_id: "$a".to_owned() } }
    );
    assert_eq!(wires[4], RelatesToJsonRepr::Custom(Json::Number(JsonNumber::Unsigned(3))));
    for i in 0..relations.len() {
        assert_eq!(Relation::from_wire(wires[i].clone()), relations[i]);
        assert_eq!(relations[i].wire(), wires[i]);
        for j in 0..relations.len() {
            assert_eq!(wires[i] == wires[j], i == j);
        }
    }
}

#[test]
fn wire_shape_reads_and_writes_json() {
    let text = r#"{"m.in_reply_to":{"event_id":"$a"}}"#;
    let wire = RelatesToJsonRepr::from_json(&tree(&parse(text)), true);
    assert_eq!(
        wire,
        RelatesToJsonRepr::Reply { in_reply_to: InReplyTo { event_id: "$a".to_owned() } }
    );
    assert_eq!(value(&wire.to_json()), parse(text));
}

#[test]
fn numbers_in_a_custom_relation_survive() {
    let text = r#"{"count": 3, "delta": -4, "ratio": 0.25, "big": 18446744073709551615}"#;
    let relation = read(text);
    assert_eq!(value(&encode_relation(&relation)), parse(text));
}

#[test]
fn conversions_are_the_transform() {
    let relation = reply("$a");
    let wire = RelatesToJsonRepr::from(relation.clone());
    assert_eq!(wire, relation.clone().to_wire());
    assert_eq!(Relation::from(wire.clone()), relation);
    let back: Relation = wire.into();
    assert_eq!(back, relation);
    let custom = Relation::Custom(Json::Bool(true));
    let wire: RelatesToJsonRepr = custom.clone().into();
    assert_eq!(wire, RelatesToJsonRepr::Custom(Json::Bool(true)));
    assert_eq!(Relation::from(wire), custom);
}
