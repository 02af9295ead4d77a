use room_message::error::SchemaError;
use room_message::event::{MessageEvent, Unsigned};
use room_message::json::{Json, JsonNumber};
use room_message::message::MessageEventContent;
use room_message::names::Field;
use room_message::object::{find, get_opt_int, get_opt_uint, get_uint};
use room_message::relation::{AnnotationChunk, BundledAnnotation, BundledReaction, Relations};
use room_message::safe_int::{MAX_SAFE_INT, MAX_SAFE_UINT, MIN_SAFE_INT};
use serde_json::Value;

fn tree(value: &Value) -> Json {
    match value {
        Value::Null => Json::Null,
        Value::Bool(b) => Json::Bool(*b),
        Value::Number(n) => {
            if let Some(u) = n.as_u64() {
                Json::Number(JsonNumber::Unsigned(u))
            } else if let Some(i) = n.as_i64() {
                Json::Number(JsonNumber::Negative(i))
            } else {
                Json::Number(JsonNumber::Real(n.as_f64().unwrap().to_bits()))
            }
        }
        Value::String(s) => Json::String(s.clone()),
        Value::Array(items) => Json::Array(items.iter().map(tree).collect()),
        Value::Object(members) => {
            Json::Object(members.iter().map(|(k, v)| (k.clone(), tree(v))).collect())
        }
    }
}

fn value(tree: &Json) -> Value {
    match tree {
        Json::Null => Value::Null,
        Json::Bool(b) => Value::Bool(*b),
        Json::Number(JsonNumber::Unsigned(u)) => Value::from(*u),
        Json::Number(JsonNumber::Negative(i)) => Value::from(*i),
        Json::Number(JsonNumber::Real(bits)) => Value::from(f64::from_bits(*bits)),
        Json::String(s) => Value::String(s.clone()),
        Json::Array(items) => Value::Array(items.iter().map(value).collect()),
        Json::Object(members) => {
            let mut map = serde_json::Map::new();
            for (k, v) in members {
                map.insert(k.clone(), value(v));
            }
            Value::Object(map)
        }
    }
}

fn parse(text: &str) -> Value {
    serde_json::from_str(text).unwrap()
}

#[test]
fn safe_unsigned_integers_end_at_two_to_the_53_less_one() {
    assert_eq!(MAX_SAFE_UINT, 9_007_199_254_740_991);
    assert_eq!(JsonNumber::Unsigned(0).to_safe_uint(), Some(0));
    assert_eq!(JsonNumber::Unsigned(MAX_SAFE_UINT).to_safe_uint(), Some(MAX_SAFE_UINT));
    assert_eq!(JsonNumber::Unsigned(MAX_SAFE_UINT + 1).to_safe_uint(), None);
    assert_eq!(JsonNumber::Unsigned(u64::MAX).to_safe_uint(), None);
    assert_eq!(JsonNumber::Negative(-1).to_safe_uint(), None);
    assert_eq!(JsonNumber::Negative(5).to_safe_uint(), Some(5));
    assert_eq!(JsonNumber::Real(0).to_safe_uint(), None);
}

#[test]
fn safe_signed_integers_lie_between_the_two_bounds() {
    assert_eq!(MAX_SAFE_INT, 9_007_199_254_740_991);
    assert_eq!(MIN_SAFE_INT, -9_007_199_254_740_991);
    assert_eq!(JsonNumber::Negative(MIN_SAFE_INT).to_safe_int(), Some(MIN_SAFE_INT));
    assert_eq!(JsonNumber::Negative(MIN_SAFE_INT - 1).to_safe_int(), None);
    assert_eq!(JsonNumber::Negative(i64::MIN).to_safe_int(), None);
    assert_eq!(JsonNumber::Unsigned(MAX_SAFE_UINT).to_safe_int(), Some(MAX_SAFE_INT));
    assert_eq!(JsonNumber::Unsigned(MAX_SAFE_UINT + 1).to_safe_int(), None);
    assert_eq!(JsonNumber::Unsigned(u64::MAX).to_safe_int(), None);
    assert_eq!(JsonNumber::Real(1).to_safe_int(), None);
    assert_eq!(JsonNumber::from_int(-7), JsonNumber::Negative(-7));
    assert_eq!(JsonNumber::from_int(7), JsonNumber::Unsigned(7));
    assert_eq!(JsonNumber::from_int(0), JsonNumber::Unsigned(0));
}

#[test]
fn number_members_say_why_they_cannot_be_read() {
    let members = match tree(&parse(r#"{"a": 1, "size": 9007199254740992, "count": -2, "age": 1.5, "h": null, "w": "3"}"#)) {
        Json::Object(members) => members,
        _ => unreachable!(),
    };
    assert_eq!(get_opt_uint(&members, Field::Size), Err(SchemaError::OutOfRange(Field::Size)));
    assert_eq!(get_uint(&members, Field::Count), Err(SchemaError::OutOfRange(Field::Count)));
    assert_eq!(get_opt_int(&members, Field::Count), Ok(Some(-2)));
    assert_eq!(get_opt_int(&members, Field::Age), Err(SchemaError::WrongType(Field::Age)));
    assert_eq!(get_opt_uint(&members, Field::Height), Ok(None));
    assert_eq!(get_uint(&members, Field::Height), Err(SchemaError::WrongType(Field::Height)));
    assert_eq!(get_opt_uint(&members, Field::Width), Err(SchemaError::WrongType(Field::Width)));
    assert_eq!(get_opt_uint(&members, Field::Duration), Ok(None));
    assert_eq!(get_uint(&members, Field::Duration), Err(SchemaError::Missing(Field::Duration)));
}

#[test]
fn the_first_member_with_a_key_is_the_one_that_is_read() {
    let members = vec![
        ("size".to_owned(), Json::Number(JsonNumber::Unsigned(1))),
        ("size".to_owned(), Json::Number(JsonNumber::Unsigned(2))),
    ];
    assert_eq!(find(&members, Field::Size), Some(&Json::Number(JsonNumber::Unsigned(1))));
    assert_eq!(find(&members, Field::Body), None);
    assert_eq!(get_uint(&members, Field::Size), Ok(1));
}

#[test]
fn a_tree_is_copied_whole() {
    let text = r#"{"a":[1,-2,2.5,null,true,"s",{"b":{"c":[]}}],"d":{}}"#;
    let json = tree(&parse(text));
    let copy = json.clone();
    assert_eq!(copy, json);
    assert_eq!(value(&copy), parse(text));
}

fn summary() -> Relations {
    Relations {
        annotation: Some(AnnotationChunk {
            chunk: vec![
                BundledAnnotation::Reaction(BundledReaction {
                    key: "\u{1f44d}".to_owned(),
                    origin_server_ts: Some(1_598_000_000_000),
                    count: 3,
                }),
                BundledAnnotation::Reaction(BundledReaction {
                    key: "x".to_owned(),
                    origin_server_ts: None,
                    count: 1,
                }),
            ],
            next_batch: Some("token".to_owned()),
        }),
    }
}

#[test]
fn bundled_reactions_are_read_and_written() {
    let text = r#"{
        "m.annotation": {
            "chunk": [
                {"type": "m.reaction", "key": "\ud83d\udc4d", "origin_server_ts": 1598000000000, "count": 3},
                {"type": "m.reaction", "key": "x", "count": 1}
            ],
            "next_batch": "token"
        }
    }"#;
    assert_eq!(value(&summary().encode()), parse(text));
    assert_eq!(Relations::decode(&tree(&parse(text))), Ok(summary()));
    assert_eq!(Relations::decode(&summary().encode()), Ok(summary()));
    assert_eq!(Relations::decode(&tree(&parse("{}"))), Ok(Relations { annotation: None }));
    assert_eq!(value(&Relations::default().encode()), parse("{}"));
    let empty = AnnotationChunk::default();
    assert_eq!(value(&empty.encode()), parse(r#"{"chunk":[]}"#));
    assert_eq!(AnnotationChunk::decode(&empty.encode()), Ok(empty));
    let negative = BundledAnnotation::Reaction(BundledReaction {
        key: "k".to_owned(),
        origin_server_ts: Some(-5),
        count: 0,
    });
    assert_eq!(
        negative.encode(),
        Json::Object(vec![
            ("type".to_owned(), Json::String("m.reaction".to_owned())),
            ("key".to_owned(), Json::String("k".to_owned())),
            ("origin_server_ts".to_owned(), Json::Number(JsonNumber::Negative(-5))),
            ("count".to_owned(), Json::Number(JsonNumber::Unsigned(0))),
        ])
    );
    assert_eq!(BundledAnnotation::decode(&negative.encode()), Ok(negative));
}

#[test]
fn bundled_reactions_that_are_malformed_are_refused() {
    let read = |text: &str| Relations::decode(&tree(&parse(text)));
    assert_eq!(read(r#"[]"#), Err(SchemaError::NotAnObject));
    assert_eq!(read(r#"{"m.annotation":{}}"#), Err(SchemaError::Missing(Field::Chunk)));
    assert_eq!(read(r#"{"m.annotation":{"chunk":{}}}"#), Err(SchemaError::WrongType(Field::Chunk)));
    assert_eq!(read(r#"{"m.annotation":{"chunk":[1]}}"#), Err(SchemaError::NotAnObject));
    assert_eq!(
        read(r#"{"m.annotation":{"chunk":[{"key":"k","count":1}]}}"#),
        Err(SchemaError::Missing(Field::Type))
    );
    assert_eq!(
        read(r#"{"m.annotation":{"chunk":[{"type":"m.poll","key":"k","count":1}]}}"#),
        Err(SchemaError::UnknownKind(Field::Type))
    );
    assert_eq!(
        read(r#"{"m.annotation":{"chunk":[{"type":"m.reaction","key":"k"}]}}"#),
        Err(SchemaError::Missing(Field::Count))
    );
    assert_eq!(
        read(r#"{"m.annotation":{"chunk":[{"type":"m.reaction","key":"k","count":1},{"type":"m.reaction","count":1},{"type":1}]}}"#),
        Err(SchemaError::Missing(Field::Key))
    );
    assert_eq!(
        read(r#"{"m.annotation":{"chunk":[{"type":"m.reaction","key":"k","count":1,"origin_server_ts":-9007199254740992}]}}"#),
        Err(SchemaError::OutOfRange(Field::OriginServerTs))
    );
    assert_eq!(
        read(r#"{"m.annotation":{"chunk":[],"next_batch":5}}"#),
        Err(SchemaError::WrongType(Field::NextBatch))
    );
}

fn event() -> MessageEvent {
    MessageEvent {
        content: MessageEventContent::text_html("hi", "<b>hi</b>"),
        event_id: "$1:example.org".to_owned(),
        sender: "@u:example.org".to_owned(),
        origin_server_ts: 1_598_000_000_000,
        room_id: "!r:example.org".to_owned(),
        unsigned: Unsigned { age: Some(1234), transaction_id: Some("txn".to_owned()), relations: Some(summary()) },
    }
}

#[test]
fn an_event_comes_back_with_what_the_server_added() {
    let written = event().encode();
    assert_eq!(MessageEvent::decode(&written), Ok(event()));
    let members = match &written {
        Json::Object(members) => members,
        _ => unreachable!(),
    };
    assert_eq!(members[0], ("type".to_owned(), Json::String("m.room.message".to_owned())));
    assert_eq!(members.len(), 7);
    let mut bare = event();
    bare.unsigned = Unsigned::default();
    assert!(bare.unsigned.is_empty());
    assert!(!event().unsigned.is_empty());
    let written = bare.encode();
    assert_eq!(MessageEvent::decode(&written), Ok(bare));
    assert!(matches!(&written, Json::Object(members) if members.len() == 6));
}

#[test]
fn an_event_that_is_malformed_is_refused() {
    let read = |text: &str| MessageEvent::decode(&tree(&parse(text)));
    let content = r#"{"msgtype":"m.text","body":"b"}"#;
    assert_eq!(read("3"), Err(SchemaError::NotAnObject));
    assert_eq!(read(&format!(r#"{{"content":{}}}"#, content)), Err(SchemaError::Missing(Field::Type)));
    assert_eq!(read(r#"{"type":"m.room.message"}"#), Err(SchemaError::Missing(Field::Content)));
    assert_eq!(
        read(&format!(r#"{{"type":"m.room.topic","content":{}}}"#, content)),
        Err(SchemaError::EventType)
    );
    assert_eq!(
        read(&format!(r#"{{"type":"m.room.message","content":{}}}"#, content)),
        Err(SchemaError::Missing(Field::EventId))
    );
    assert_eq!(
        read(&format!(
            r#"{{"type":"m.room.message","content":{},"event_id":"$e","sender":"@s","origin_server_ts":"now","room_id":"!r"}}"#,
            content
        )),
        Err(SchemaError::WrongType(Field::OriginServerTs))
    );
    assert_eq!(
        read(&format!(
            r#"{{"type":"m.room.message","content":{},"event_id":"$e","sender":"@s","origin_server_ts":1,"room_id":"!r","unsigned":{{"age":"old"}}}}"#,
            content
        )),
        Err(SchemaError::WrongType(Field::Age))
    );
    assert_eq!(
        read(&format!(
            r#"{{"type":"m.room.message","content":{},"event_id":"$e","sender":"@s","origin_server_ts":1,"room_id":"!r","unsigned":{{}}}}"#,
            content
        )),
        Ok(MessageEvent {
            content: MessageEventContent::text_plain("b"),
            event_id: "$e".to_owned(),
            sender: "@s".to_owned(),
            origin_server_ts: 1,
            room_id: "!r".to_owned(),
            unsigned: Unsigned::default(),
        })
    );
}
