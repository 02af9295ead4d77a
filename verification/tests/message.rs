use room_message::content::AudioMessageEventContent;
use room_message::event::{MessageEvent, Unsigned};
use room_message::format::{FormattedBody, MessageFormat};
use room_message::json::{Json, JsonNumber};
use room_message::message::MessageEventContent;
use room_message::relationships::{InReplyTo, Relation};
use room_message::text::TextMessageEventContent;
use serde_json::Value;

fn tree(value: &Value) -> Json {
    match value {
        Value::Null => Json::Null,
        Value::Bool(b) => Json::Bool(*b),
        Value::Number(n) => {
            if let Some(u) = n.as_u64() {
                Json::Number(JsonNumber::Unsigned(u))
            } else if let Some(i) = n.as_i64() {
                Json::Number(JsonNumber::Negative(i))
            } else {
                Json::Number(JsonNumber::Real(n.as_f64().unwrap().to_bits()))
            }
        }
        Value::String(s) => Json::String(s.clone()),
        Value::Array(items) => Json::Array(items.iter().map(tree).collect()),
        Value::Object(members) => {
            Json::Object(members.iter().map(|(k, v)| (k.clone(), tree(v))).collect())
        }
    }
}

fn value(tree: &Json) -> Value {
    match tree {
        Json::Null => Value::Null,
        Json::Bool(b) => Value::Bool(*b),
        Json::Number(JsonNumber::Unsigned(u)) => Value::from(*u),
        Json::Number(JsonNumber::Negative(i)) => Value::from(*i),
        Json::Number(JsonNumber::Real(bits)) => Value::from(f64::from_bits(*bits)),
        Json::String(s) => Value::String(s.clone()),
        Json::Array(items) => Value::Array(items.iter().map(value).collect()),
        Json::Object(members) => {
            let mut map = serde_json::Map::new();
            for (k, v) in members {
                map.insert(k.clone(), value(v));
            }
            Value::Object(map)
        }
    }
}

fn parse(text: &str) -> Value {
    serde_json::from_str(text).unwrap()
}

#[test]
fn serialization() {
    let ev = MessageEvent {
        content: MessageEventContent::Audio(AudioMessageEventContent {
            body: "test".into(),
            info: None,
            url: Some("http://example.com/audio.mp3".into()),
            file: None,
        }),
        event_id: "$143273582443PhrSn:example.org".into(),
        origin_server_ts: 10_000,
        room_id: "!testroomid:example.org".into(),
        sender: "@user:example.org".into(),
        unsigned: Unsigned::default(),
    };

    assert_eq!(
        value(&ev.encode()),
        parse(
            r#"{
                "type": "m.room.message",
                "event_id": "$143273582443PhrSn:example.org",
                "origin_server_ts": 10000,
                "room_id": "!testroomid:example.org",
                "sender": "@user:example.org",
                "content": {
                    "body": "test",
                    "msgtype": "m.audio",
                    "url": "http://example.com/audio.mp3"
                }
            }"#
        )
    );
}

#[test]
fn content_serialization() {
    let message_event_content = MessageEventContent::Audio(AudioMessageEventContent {
        body: "test".into(),
        info: None,
        url: Some("http://example.com/audio.mp3".into()),
        file: None,
    });

    assert_eq!(
        value(&message_event_content.encode()),
        parse(
            r#"{
                "body": "test",
                "msgtype": "m.audio",
                "url": "http://example.com/audio.mp3"
            }"#
        )
    );
}

#[test]
fn formatted_body_serialization() {
    let message_event_content = MessageEventContent::Text(TextMessageEventContent {
        body: "Hello, World!".into(),
        formatted: Some(FormattedBody {
            format: MessageFormat::Html,
            body: "Hello, <em>World</em>!".into(),
        }),
        relates_to: None,
    });

    assert_eq!(
        value(&message_event_content.encode()),
        parse(
            r#"{
                "body": "Hello, World!",
                "msgtype": "m.text",
                "format": "org.matrix.custom.html",
                "formatted_body": "Hello, <em>World</em>!"
            }"#
        )
    );
}

#[test]
fn plain_text_content_serialization() {
    let message_event_content = MessageEventContent::Text(TextMessageEventContent::plain(
        "> <@test:example.com> test\n\ntest reply",
    ));

    assert_eq!(
        value(&message_event_content.encode()),
        parse(
            r#"{
                "body": "> <@test:example.com> test\n\ntest reply",
                "msgtype": "m.text"
            }"#
        )
    );
}

#[test]
fn relates_to_content_serialization() {
    let message_event_content = MessageEventContent::Text(TextMessageEventContent {
        body: "> <@test:example.com> test\n\ntest reply".to_owned(),
        formatted: None,
        relates_to: Some(Relation::Reply {
            in_reply_to: InReplyTo { event_id: "$15827405538098VGFWH:example.com".to_owned() },
        }),
    });

    let json_data = parse(
        r#"{
            "body": "> <@test:example.com> test\n\ntest reply",
            "msgtype": "m.text",
            "m.relates_to": {
                "m.in_reply_to": {
                    "event_id": "$15827405538098VGFWH:example.com"
                }
            }
        }"#,
    );

    assert_eq!(value(&message_event_content.encode()), json_data);
}

#[test]
fn content_deserialization() {
    let json_data = parse(
        r#"{
            "body": "test",
            "msgtype": "m.audio",
            "url": "http://example.com/audio.mp3"
        }"#,
    );

    assert!(matches!(
        MessageEventContent::decode(&tree(&json_data)).unwrap(),
        MessageEventContent::Audio(AudioMessageEventContent {
            body,
            info: None,
            url: Some(url),
            file: None,
        }) if body == "test" && url == "http://example.com/audio.mp3"
    ));
}

#[test]
fn content_deserialization_failure() {
    let json_data = parse(
        r#"{
            "body": "test","msgtype": "m.location",
            "url": "http://example.com/audio.mp3"
        }"#,
    );
    assert!(MessageEventContent::decode(&tree(&json_data)).is_err());
}
