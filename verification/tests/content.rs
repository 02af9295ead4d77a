use room_message::content::{
    AudioInfo, AudioMessageEventContent, EmoteMessageEventContent, FileInfo,
    FileMessageEventContent, ImageMessageEventContent, LocationInfo, LocationMessageEventContent,
    VideoInfo, VideoMessageEventContent,
};
use room_message::error::SchemaError;
use room_message::format::{fold, hoist, FormattedBody, MessageFormat};
use room_message::json::{Json, JsonNumber};
use room_message::media::{EncryptedFile, ImageInfo, JsonWebKey, ThumbnailInfo};
use room_message::message::{decode_content, encode_content, MessageEventContent};
use room_message::names::{Field, MessageKind};
use room_message::relationships::{Annotation, InReplyTo, Relation};
use room_message::server_notice::{LimitType, ServerNoticeMessageEventContent, ServerNoticeType};
use room_message::text::{NoticeMessageEventContent, TextMessageEventContent};
use serde_json::Value;

fn tree(value: &Value) -> Json {
    match value {
        Value::Null => Json::Null,
        Value::Bool(b) => Json::Bool(*b),
        Value::Number(n) => {
            if let Some(u) = n.as_u64() {
                Json::Number(JsonNumber::Unsigned(u))
            } else if let Some(i) = n.as_i64() {
                Json::Number(JsonNumber::Negative(i))
            } else {
                Json::Number(JsonNumber::Real(n.as_f64().unwrap().to_bits()))
            }
        }
        Value::String(s) => Json::String(s.clone()),
        Value::Array(items) => Json::Array(items.iter().map(tree).collect()),
        Value::Object(members) => {
            Json::Object(members.iter().map(|(k, v)| (k.clone(), tree(v))).collect())
        }
    }
}

fn value(tree: &Json) -> Value {
    match tree {
        Json::Null => Value::Null,
        Json::Bool(b) => Value::Bool(*b),
        Json::Number(JsonNumber::Unsigned(u)) => Value::from(*u),
        Json::Number(JsonNumber::Negative(i)) => Value::from(*i),
        Json::Number(JsonNumber::Real(bits)) => Value::from(f64::from_bits(*bits)),
        Json::String(s) => Value::String(s.clone()),
        Json::Array(items) => Value::Array(items.iter().map(value).collect()),
        Json::Object(members) => {
            let mut map = serde_json::Map::new();
            for (k, v) in members {
                map.insert(k.clone(), value(v));
            }
            Value::Object(map)
        }
    }
}

fn parse(text: &str) -> Value {
    serde_json::from_str(text).unwrap()
}

fn read(text: &str) -> Result<MessageEventContent, SchemaError> {
    MessageEventContent::decode(&tree(&parse(text)))
}

fn round_trip(content: MessageEventContent) {
    let written = content.encode();
    assert_eq!(MessageEventContent::decode(&written), Ok(content.clone()));
    assert_eq!(decode_content(&written, "m.room.message"), Ok(content.clone()));
    let through_text = serde_json::to_string(&value(&written)).unwrap();
    assert_eq!(read(&through_text), Ok(content));
}

fn key() -> JsonWebKey {
    JsonWebKey {
        kty: "oct".to_owned(),
        key_ops: vec!["encrypt".to_owned(), "decrypt".to_owned()],
        alg: "A256CTR".to_owned(),
        k: "aWF6-32KGYaC3A_FEUCk1Bt0JA37zP0wrStgmdCaW-0".to_owned(),
        ext: true,
    }
}

fn file() -> EncryptedFile {
    EncryptedFile {
        url: "mxc://example.org/FHyPlCeYUSFFxlgbQYZmoEoe".to_owned(),
        key: key(),
        iv: "w+sE15fzSc0AAAAAAAAAAA".to_owned(),
        hashes: vec![("sha256".to_owned(), "fdSLu/YkRx3Wyh3KQabP3rd6+SFiKg5lsJZQHtkSAYA".to_owned())],
        v: "v2".to_owned(),
    }
}

fn thumbnail() -> ThumbnailInfo {
    ThumbnailInfo { height: Some(32), width: Some(48), mimetype: Some("image/png".to_owned()), size: Some(2048) }
}

#[test]
fn every_known_kind_comes_back() {
    round_trip(MessageEventContent::Audio(AudioMessageEventContent {
        body: "clip".to_owned(),
        info: Some(Box::new(AudioInfo {
            duration: Some(9_007_199_254_740_991),
            mimetype: Some("audio/aac".to_owned()),
            size: Some(0),
        })),
        url: Some("mxc://example.org/a".to_owned()),
        file: Some(Box::new(file())),
    }));
    round_trip(MessageEventContent::Emote(EmoteMessageEventContent {
        body: "waves".to_owned(),
        formatted: Some(FormattedBody {
            format: MessageFormat::_Custom("text/markdown".to_owned()),
            body: "*waves*".to_owned(),
        }),
    }));
    round_trip(MessageEventContent::File(FileMessageEventContent {
        body: "report.doc".to_owned(),
        filename: Some("report.doc".to_owned()),
        info: Some(Box::new(FileInfo {
            mimetype: Some("application/msword".to_owned()),
            size: Some(46144),
            thumbnail_info: Some(Box::new(thumbnail())),
            thumbnail_url: Some("mxc://example.org/t".to_owned()),
            thumbnail_file: Some(Box::new(file())),
        })),
        url: None,
        file: Some(Box::new(file())),
    }));
    round_trip(MessageEventContent::Image(ImageMessageEventContent {
        body: "cat.png".to_owned(),
        info: Some(Box::new(ImageInfo {
            height: Some(398),
            width: Some(394),
            mimetype: Some("image/png".to_owned()),
            size: Some(31037),
            thumbnail_info: Some(Box::new(thumbnail())),
            thumbnail_url: None,
            thumbnail_file: None,
        })),
        url: Some("mxc://example.org/JWEIFJgwEIhweiWJE".to_owned()),
        file: None,
    }));
    round_trip(MessageEventContent::Location(LocationMessageEventContent {
        body: "Big Ben, London, UK".to_owned(),
        geo_uri: "geo:51.5008,0.1247".to_owned(),
        info: Some(Box::new(LocationInfo {
            thumbnail_info: Some(Box::new(thumbnail())),
            thumbnail_url: Some("mxc://example.org/t".to_owned()),
            thumbnail_file: None,
        })),
    }));
    round_trip(MessageEventContent::Notice(NoticeMessageEventContent {
        body: "the bot is here".to_owned(),
        formatted: Some(FormattedBody::html("the <b>bot</b> is here")),
        relates_to: Some(Relation::Annotation(Annotation {
            event_id: "$e:example.org".to_owned(),
            key: "+1".to_owned(),
        })),
    }));
    round_trip(MessageEventContent::ServerNotice(ServerNoticeMessageEventContent {
        body: "limit reached".to_owned(),
        server_notice_type: ServerNoticeType::UsageLimitReached,
        admin_contact: Some("mailto:server.admin@example.org".to_owned()),
        limit_type: Some(LimitType::MonthlyActiveUser),
    }));
    round_trip(MessageEventContent::ServerNotice(ServerNoticeMessageEventContent {
        body: "something else".to_owned(),
        server_notice_type: ServerNoticeType::_Custom("org.example.notice".to_owned()),
        admin_contact: None,
        limit_type: Some(LimitType::_Custom("disk".to_owned())),
    }));
    round_trip(MessageEventContent::Text(TextMessageEventContent {
        body: "Hello".to_owned(),
        formatted: Some(FormattedBody::html("<em>Hello</em>")),
        relates_to: Some(Relation::Reply {
            in_reply_to: InReplyTo { event_id: "$1:example.org".to_owned() },
        }),
    }));
    round_trip(MessageEventContent::Text(TextMessageEventContent {
        body: "Hello".to_owned(),
        formatted: None,
        relates_to: Some(Relation::Custom(tree(&parse(r#"{"foo":["bar",1,null,true,{"x":2.5}]}"#)))),
    }));
    round_trip(MessageEventContent::Video(VideoMessageEventContent {
        body: "Gangnam Style".to_owned(),
        info: Some(Box::new(VideoInfo {
            duration: Some(2140786),
            height: Some(320),
            width: Some(480),
            mimetype: Some("video/mp4".to_owned()),
            size: Some(1563685),
            thumbnail_info: Some(Box::new(thumbnail())),
            thumbnail_url: Some("mxc://example.org/FHyPlCeYUSFFxlgbQYZmoEoe".to_owned()),
            thumbnail_file: Some(Box::new(file())),
        })),
        url: Some("mxc://example.org/a526eYUSFFxlgbQYZmo442".to_owned()),
        file: None,
    }));
}

#[test]
fn unknown_tag_gives_a_custom_payload() {
    let text = r#"{
        "msgtype": "m.unknown_future_type",
        "body": "from the future",
        "answer": 42,
        "nested": {"list": [1, 2.5, -3, null, false], "more": {"deep": "down"}},
        "url": 7
    }"#;
    let json = tree(&parse(text));
    let content = MessageEventContent::decode(&json).unwrap();
    assert_eq!(content, MessageEventContent::Custom(json.clone()));
    assert_eq!(content.kind(), None);
    assert_eq!(content.encode(), json);
    assert_eq!(encode_content(&content), json);
    assert_eq!(value(&content.encode()), parse(text));
    round_trip(content);
}

#[test]
fn tags_are_matched_exactly() {
    for tag in ["M.TEXT", "m.text ", " m.text", "m.Text", "text", "", "m.texts"] {
        let json = Json::Object(vec![
            ("msgtype".to_owned(), Json::String(tag.to_owned())),
            ("body".to_owned(), Json::Number(JsonNumber::Unsigned(1))),
        ]);
        assert_eq!(MessageEventContent::decode(&json), Ok(MessageEventContent::Custom(json.clone())));
    }
}

#[test]
fn absent_members_are_left_out() {
    let body = || "b".to_owned();
    let two = |tag: &str| {
        Json::Object(vec![
            ("msgtype".to_owned(), Json::String(tag.to_owned())),
            ("body".to_owned(), Json::String("b".to_owned())),
        ])
    };
    assert_eq!(
        MessageEventContent::Audio(AudioMessageEventContent { body: body(), info: None, url: None, file: None })
            .encode(),
        two("m.audio")
    );
    assert_eq!(
        MessageEventContent::Emote(EmoteMessageEventContent { body: body(), formatted: None }).encode(),
        two("m.emote")
    );
    assert_eq!(
        MessageEventContent::File(FileMessageEventContent {
            body: body(),
            filename: None,
            info: None,
            url: None,
            file: None
        })
        .encode(),
        two("m.file")
    );
    assert_eq!(
        MessageEventContent::Image(ImageMessageEventContent { body: body(), info: None, url: None, file: None })
            .encode(),
        two("m.image")
    );
    assert_eq!(MessageEventContent::notice_plain("b").encode(), two("m.notice"));
    assert_eq!(MessageEventContent::text_plain("b").encode(), two("m.text"));
    assert_eq!(
        MessageEventContent::Video(VideoMessageEventContent { body: body(), info: None, url: None, file: None })
            .encode(),
        two("m.video")
    );
    assert_eq!(
        MessageEventContent::Location(LocationMessageEventContent {
            body: body(),
            geo_uri: "geo:1,2".to_owned(),
            info: None
        })
        .encode(),
        Json::Object(vec![
            ("msgtype".to_owned(), Json::String("m.location".to_owned())),
            ("body".to_owned(), Json::String("b".to_owned())),
            ("geo_uri".to_owned(), Json::String("geo:1,2".to_owned())),
        ])
    );
    assert_eq!(
        MessageEventContent::ServerNotice(ServerNoticeMessageEventContent {
            body: body(),
            server_notice_type: ServerNoticeType::UsageLimitReached,
            admin_contact: None,
            limit_type: None,
        })
        .encode(),
        Json::Object(vec![
            ("msgtype".to_owned(), Json::String("m.server_notice".to_owned())),
            ("body".to_owned(), Json::String("b".to_owned())),
            (
                "server_notice_type".to_owned(),
                Json::String("m.server_notice.usage_limit_reached".to_owned())
            ),
        ])
    );
    let empty_info = MessageEventContent::Audio(AudioMessageEventContent {
        body: body(),
        info: Some(Box::new(AudioInfo { duration: None, mimetype: None, size: None })),
        url: None,
        file: None,
    });
    assert_eq!(value(&empty_info.encode()), parse(r#"{"msgtype":"m.audio","body":"b","info":{}}"#));
}

#[test]
fn formatted_body_lies_flat() {
    let content = MessageEventContent::Text(TextMessageEventContent {
        body: "Hello, World!".to_owned(),
        formatted: Some(FormattedBody { format: MessageFormat::Html, body: "<em>World</em>".to_owned() }),
        relates_to: None,
    });
    let text = r#"{"body":"Hello, World!","msgtype":"m.text","format":"org.matrix.custom.html","formatted_body":"<em>World</em>"}"#;
    assert_eq!(value(&content.encode()), parse(text));
    assert_eq!(read(text), Ok(content.clone()));
    assert_eq!(content, MessageEventContent::text_html("Hello, World!", "<em>World</em>"));
    assert_eq!(
        content.encode(),
        Json::Object(vec![
            ("msgtype".to_owned(), Json::String("m.text".to_owned())),
            ("body".to_owned(), Json::String("Hello, World!".to_owned())),
            ("format".to_owned(), Json::String("org.matrix.custom.html".to_owned())),
            ("formatted_body".to_owned(), Json::String("<em>World</em>".to_owned())),
        ])
    );
}

#[test]
fn hoist_and_fold_are_each_other_s_inverse() {
    let formatted = Some(FormattedBody::html("<b>x</b>"));
    let mut members = vec![("body".to_owned(), Json::String("x".to_owned()))];
    hoist(&mut members, &formatted);
    assert_eq!(
        members,
        vec![
            ("body".to_owned(), Json::String("x".to_owned())),
            ("format".to_owned(), Json::String("org.matrix.custom.html".to_owned())),
            ("formatted_body".to_owned(), Json::String("<b>x</b>".to_owned())),
        ]
    );
    assert_eq!(fold(&members), formatted);
    let mut plain = vec![("body".to_owned(), Json::String("x".to_owned()))];
    hoist(&mut plain, &None);
    assert_eq!(plain.len(), 1);
    assert_eq!(fold(&plain), None);
}

#[test]
fn half_a_formatted_body_is_none() {
    let only_format = r#"{"msgtype":"m.text","body":"b","format":"org.matrix.custom.html"}"#;
    assert_eq!(read(only_format), Ok(MessageEventContent::text_plain("b")));
    let only_body = r#"{"msgtype":"m.text","body":"b","formatted_body":"<b>b</b>"}"#;
    assert_eq!(read(only_body), Ok(MessageEventContent::text_plain("b")));
    let wrong_type = r#"{"msgtype":"m.text","body":"b","format":"org.matrix.custom.html","formatted_body":3}"#;
    assert_eq!(read(wrong_type), Ok(MessageEventContent::text_plain("b")));
    let other = r#"{"msgtype":"m.notice","body":"b","format":"text/x","formatted_body":"y"}"#;
    assert_eq!(
        read(other),
        Ok(MessageEventContent::Notice(NoticeMessageEventContent {
            body: "b".to_owned(),
            formatted: Some(FormattedBody {
                format: MessageFormat::_Custom("text/x".to_owned()),
                body: "y".to_owned()
            }),
            relates_to: None,
        }))
    );
}

#[test]
fn known_tag_with_a_bad_member_is_an_error() {
    assert_eq!(
        read(r#"{"msgtype":"m.location","url":"..."}"#),
        Err(SchemaError::Missing(Field::Body))
    );
    assert_eq!(
        read(r#"{"msgtype":"m.location","body":"here","url":"..."}"#),
        Err(SchemaError::Missing(Field::GeoUri))
    );
    assert_eq!(
        read(r#"{"msgtype":"m.location","body":"here","geo_uri":5}"#),
        Err(SchemaError::WrongType(Field::GeoUri))
    );
    for kind in ["m.audio", "m.emote", "m.file", "m.image", "m.notice", "m.server_notice", "m.text", "m.video"] {
        let missing = Json::Object(vec![("msgtype".to_owned(), Json::String(kind.to_owned()))]);
        assert_eq!(MessageEventContent::decode(&missing), Err(SchemaError::Missing(Field::Body)));
        let wrong = Json::Object(vec![
            ("msgtype".to_owned(), Json::String(kind.to_owned())),
            ("body".to_owned(), Json::Null),
        ]);
        assert_eq!(MessageEventContent::decode(&wrong), Err(SchemaError::WrongType(Field::Body)));
    }
    assert_eq!(
        read(r#"{"msgtype":"m.server_notice","body":"b"}"#),
        Err(SchemaError::Missing(Field::ServerNoticeType))
    );
    assert_eq!(
        read(r#"{"msgtype":"m.audio","body":"b","url":false}"#),
        Err(SchemaError::WrongType(Field::Url))
    );
    assert_eq!(
        read(r#"{"msgtype":"m.audio","body":"b","info":"big"}"#),
        Err(SchemaError::NotAnObject)
    );
    assert_eq!(
        read(r#"{"msgtype":"m.audio","body":"b","info":{"size":"big"}}"#),
        Err(SchemaError::WrongType(Field::Size))
    );
    assert_eq!(
        read(r#"{"msgtype":"m.audio","body":"b","info":{"duration":1.5}}"#),
        Err(SchemaError::WrongType(Field::Duration))
    );
    assert_eq!(
        read(r#"{"msgtype":"m.audio","body":"b","info":{"size":-1}}"#),
        Err(SchemaError::OutOfRange(Field::Size))
    );
    assert_eq!(
        read(r#"{"msgtype":"m.audio","body":"b","info":{"size":9007199254740992}}"#),
        Err(SchemaError::OutOfRange(Field::Size))
    );
    assert_eq!(
        read(r#"{"msgtype":"m.image","body":"b","file":{"url":"u","iv":"i","hashes":{},"v":"v2"}}"#),
        Err(SchemaError::Missing(Field::Key))
    );
    assert_eq!(
        read(r#"{"msgtype":"m.image","body":"b","file":{"url":"u","key":{"kty":"oct","key_ops":["a",1],"alg":"A","k":"k","ext":true},"iv":"i","hashes":{},"v":"v2"}}"#),
        Err(SchemaError::WrongType(Field::KeyOps))
    );
    assert_eq!(
        read(r#"{"msgtype":"m.image","body":"b","file":{"url":"u","key":{"kty":"oct","key_ops":[],"alg":"A","k":"k","ext":"yes"},"iv":"i","hashes":{},"v":"v2"}}"#),
        Err(SchemaError::WrongType(Field::Ext))
    );
    assert_eq!(
        read(r#"{"msgtype":"m.image","body":"b","file":{"url":"u","key":{"kty":"oct","key_ops":[],"alg":"A","k":"k","ext":true},"iv":"i","hashes":{"sha256":1},"v":"v2"}}"#),
        Err(SchemaError::WrongType(Field::Hashes))
    );
}

#[test]
fn the_first_bad_member_is_the_one_that_is_named() {
    assert_eq!(
        read(r#"{"msgtype":"m.file","body":1,"filename":2,"url":3}"#),
        Err(SchemaError::WrongType(Field::Body))
    );
    assert_eq!(
        read(r#"{"msgtype":"m.file","body":"b","filename":2,"url":3}"#),
        Err(SchemaError::WrongType(Field::Filename))
    );
    assert_eq!(
        read(r#"{"msgtype":"m.file","body":"b","url":3, "info": 4}"#),
        Err(SchemaError::NotAnObject)
    );
}

#[test]
fn a_value_without_a_tag_is_refused() {
    assert_eq!(read(r#"{"body":"test"}"#), Err(SchemaError::Missing(Field::MsgType)));
    assert_eq!(read(r#"{}"#), Err(SchemaError::Missing(Field::MsgType)));
    assert_eq!(read(r#"{"msgtype":7,"body":"test"}"#), Err(SchemaError::WrongType(Field::MsgType)));
    assert_eq!(read(r#"{"msgtype":null,"body":"test"}"#), Err(SchemaError::WrongType(Field::MsgType)));
    assert_eq!(read(r#"{"msgtype":["m.text"],"body":"t"}"#), Err(SchemaError::WrongType(Field::MsgType)));
    assert_eq!(read(r#"["m.text"]"#), Err(SchemaError::NotAnObject));
    assert_eq!(read(r#""m.text""#), Err(SchemaError::NotAnObject));
    assert_eq!(read(r#"null"#), Err(SchemaError::NotAnObject));
    assert_eq!(read(r#"12"#), Err(SchemaError::NotAnObject));
    assert_eq!(SchemaError::Missing(Field::MsgType).field(), Some(Field::MsgType));
    assert_eq!(SchemaError::NotAnObject.field(), None);
    assert_eq!(SchemaError::EventType.field(), None);
}

#[test]
fn content_of_another_event_is_refused() {
    let json = tree(&parse(r#"{"msgtype":"m.text","body":"b"}"#));
    assert_eq!(decode_content(&json, "m.room.message"), Ok(MessageEventContent::text_plain("b")));
    assert_eq!(decode_content(&json, "m.room.member"), Err(SchemaError::EventType));
    assert_eq!(decode_content(&json, "M.ROOM.MESSAGE"), Err(SchemaError::EventType));
    assert_eq!(decode_content(&json, ""), Err(SchemaError::EventType));
    assert_eq!(MessageEventContent::event_type(), "m.room.message");
}

#[test]
fn null_reads_as_absent() {
    let text = r#"{"msgtype":"m.audio","body":"b","info":null,"url":null,"file":null}"#;
    assert_eq!(
        read(text),
        Ok(MessageEventContent::Audio(AudioMessageEventContent {
            body: "b".to_owned(),
            info: None,
            url: None,
            file: None
        }))
    );
    let text = r#"{"msgtype":"m.text","body":"b","m.relates_to":null}"#;
    assert_eq!(read(text), Ok(MessageEventContent::text_plain("b")));
}

#[test]
fn members_that_are_not_known_are_passed_over() {
    let text = r#"{"msgtype":"m.emote","body":"b","extra":[1,2,3],"url":9}"#;
    assert_eq!(
        read(text),
        Ok(MessageEventContent::Emote(EmoteMessageEventContent { body: "b".to_owned(), formatted: None }))
    );
}

#[test]
fn relation_in_a_message_follows_the_switch() {
    let text = r#"{"msgtype":"m.text","body":"b","m.relates_to":{"rel_type":"m.replace","event_id":"$e"}}"#;
    let json = tree(&parse(text));
    let relation = tree(&parse(r#"{"rel_type":"m.replace","event_id":"$e"}"#));
    let off = MessageEventContent::decode_with(&json, false).unwrap();
    assert_eq!(
        off,
        MessageEventContent::Text(TextMessageEventContent {
            body: "b".to_owned(),
            formatted: None,
            relates_to: Some(Relation::Custom(relation)),
        })
    );
    assert_eq!(value(&off.encode()), parse(text));
    let on = MessageEventContent::decode_with(&json, true).unwrap();
    assert_eq!(on, MessageEventContent::decode(&json).unwrap());
    assert!(matches!(
        on,
        MessageEventContent::Text(TextMessageEventContent {
            relates_to: Some(Relation::Replacement(_)),
            ..
        })
    ));
}

#[test]
fn constructors_build_plain_values() {
    assert_eq!(
        MessageEventContent::text_plain("a"),
        MessageEventContent::Text(TextMessageEventContent {
            body: "a".to_owned(),
            formatted: None,
            relates_to: None
        })
    );
    assert_eq!(
        MessageEventContent::notice_html("a", "<i>a</i>"),
        MessageEventContent::Notice(NoticeMessageEventContent {
            body: "a".to_owned(),
            formatted: Some(FormattedBody {
                format: MessageFormat::Html,
                body: "<i>a</i>".to_owned()
            }),
            relates_to: None
        })
    );
    assert_eq!(TextMessageEventContent::new_plain("a"), TextMessageEventContent::plain("a"));
    assert_eq!(
        TextMessageEventContent::html("a", "b").formatted,
        NoticeMessageEventContent::html("a", "b").formatted
    );
    assert_eq!(FormattedBody::html("x").format.as_str(), "org.matrix.custom.html");
    assert_eq!(MessageFormat::_Custom("x".to_owned()).as_str(), "x");
    assert_eq!(MessageFormat::from_text("org.matrix.custom.html"), MessageFormat::Html);
    assert_eq!(MessageFormat::from_text("Org.matrix.custom.html"), MessageFormat::_Custom("Org.matrix.custom.html".to_owned()));
    assert_eq!(ServerNoticeType::from_text("m.server_notice.usage_limit_reached"), ServerNoticeType::UsageLimitReached);
    assert_eq!(ServerNoticeType::UsageLimitReached.as_str(), "m.server_notice.usage_limit_reached");
    assert_eq!(LimitType::from_text("monthly_active_user"), LimitType::MonthlyActiveUser);
    assert_eq!(LimitType::from_text("x").as_str(), "x");
    assert_eq!(LimitType::MonthlyActiveUser.as_str(), "monthly_active_user");
}

#[test]
fn tags_and_names_are_the_words_of_the_wire() {
    let kinds = [
        (MessageKind::Audio, "m.audio"),
        (MessageKind::Emote, "m.emote"),
        (MessageKind::File, "m.file"),
        (MessageKind::Image, "m.image"),
        (MessageKind::Location, "m.location"),
        (MessageKind::Notice, "m.notice"),
        (MessageKind::ServerNotice, "m.server_notice"),
        (MessageKind::Text, "m.text"),
        (MessageKind::Video, "m.video"),
    ];
    for (kind, tag) in kinds {
        assert_eq!(kind.name(), tag);
        assert_eq!(MessageKind::parse(tag), Some(kind));
    }
    assert_eq!(MessageKind::parse("m.unknown_future_type"), None);
    assert_eq!(Field::MsgType.name(), "msgtype");
    assert_eq!(Field::RelatesTo.name(), "m.relates_to");
    assert_eq!(Field::InReplyTo.name(), "m.in_reply_to");
    assert_eq!(Field::Format.name(), "format");
    assert_eq!(Field::FormattedBody.name(), "formatted_body");
    assert_eq!(Field::Height.name(), "h");
    assert_eq!(Field::Width.name(), "w");
}

#[test]
fn records_are_read_and_written_alone() {
    let info = VideoInfo {
        duration: Some(1),
        height: Some(2),
        width: Some(3),
        mimetype: None,
        size: None,
        thumbnail_info: None,
        thumbnail_url: None,
        thumbnail_file: None,
    };
    assert_eq!(value(&info.encode()), parse(r#"{"duration":1,"h":2,"w":3}"#));
    assert_eq!(VideoInfo::decode(&info.encode()), Ok(info));
    assert_eq!(EncryptedFile::decode(&file().encode()), Ok(file()));
    assert_eq!(JsonWebKey::decode(&key().encode()), Ok(key()));
    assert_eq!(
        value(&key().encode()),
        parse(r#"{"kty":"oct","key_ops":["encrypt","decrypt"],"alg":"A256CTR","k":"aWF6-32KGYaC3A_FEUCk1Bt0JA37zP0wrStgmdCaW-0","ext":true}"#)
    );
    assert_eq!(ThumbnailInfo::decode(&Json::Array(vec![])), Err(SchemaError::NotAnObject));
    let content = TextMessageEventContent::plain("x");
    assert_eq!(TextMessageEventContent::decode(&content.encode()), Ok(content));
}

#[test]
fn a_hash_algorithm_that_is_named_twice_is_read_once() {
    let text = r#"{"url":"u","key":{"kty":"oct","key_ops":[],"alg":"A","k":"k","ext":true},"iv":"i","hashes":{"sha256":"a","md5":"b"},"v":"v2"}"#;
    let read = EncryptedFile::decode(&tree(&parse(text))).unwrap();
    assert_eq!(read.hashes, vec![("md5".to_owned(), "b".to_owned()), ("sha256".to_owned(), "a".to_owned())]);
    let mut json = read.encode();
    if let Json::Object(members) = &mut json {
        for (key, value) in members.iter_mut() {
            if key == "hashes" {
                *value = Json::Object(vec![
                    ("sha256".to_owned(), Json::String("first".to_owned())),
                    ("md5".to_owned(), Json::String("b".to_owned())),
                    ("sha256".to_owned(), Json::String("second".to_owned())),
                ]);
            }
        }
    }
    let twice = EncryptedFile::decode(&json).unwrap();
    assert_eq!(
        twice.hashes,
        vec![("sha256".to_owned(), "first".to_owned()), ("md5".to_owned(), "b".to_owned())]
    );
    assert_eq!(EncryptedFile::decode(&twice.encode()), Ok(twice));
}

#[test]
fn errors_say_what_is_wrong_and_where() {
    assert_eq!(SchemaError::NotAnObject.message(), "expected a JSON object");
    assert_eq!(SchemaError::Missing(Field::GeoUri).message(), "missing member geo_uri");
    assert_eq!(SchemaError::WrongType(Field::MsgType).message(), "wrong JSON type in member msgtype");
    assert_eq!(SchemaError::OutOfRange(Field::Size).message(), "number out of range in member size");
    assert_eq!(SchemaError::UnknownKind(Field::Type).message(), "unknown kind in member type");
    assert_eq!(SchemaError::EventType.message(), "content of an event of another type");
    assert_eq!(SchemaError::Missing(Field::Body).what(), "missing member ");
}

#[test]
fn what_was_read_is_written_and_read_the_same() {
    for text in [
        r#"{"msgtype":"m.text","body":"b","format":"org.matrix.custom.html","formatted_body":"<b>b</b>","m.relates_to":{"m.in_reply_to":{"event_id":"$e"},"extra":1},"more":null}"#,
        r#"{"msgtype":"m.video","body":"b","url":null,"info":{"h":1,"w":2,"size":null,"thumbnail_info":{},"junk":[1,2]}}"#,
        r#"{"msgtype":"m.server_notice","body":"b","server_notice_type":"x","limit_type":"monthly_active_user"}"#,
        r#"{"msgtype":"m.whatever","x":{"y":[null,1.5e300,-0.0]}}"#,
        r#"{"msgtype":"m.notice","body":"b","m.relates_to":"just text"}"#,
    ] {
        let first = read(text).unwrap();
        let second = MessageEventContent::decode(&first.encode()).unwrap();
        assert_eq!(first, second);
        assert_eq!(first.encode(), second.encode());
    }
}

#[test]
fn a_known_word_in_the_variant_for_the_others_comes_back_as_the_known_one() {
    let hidden = MessageEventContent::ServerNotice(ServerNoticeMessageEventContent {
        body: "b".to_owned(),
        server_notice_type: ServerNoticeType::_Custom("m.server_notice.usage_limit_reached".to_owned()),
        admin_contact: None,
        limit_type: Some(LimitType::_Custom("monthly_active_user".to_owned())),
    });
    assert_eq!(
        MessageEventContent::decode(&hidden.encode()),
        Ok(MessageEventContent::ServerNotice(ServerNoticeMessageEventContent {
            body: "b".to_owned(),
            server_notice_type: ServerNoticeType::UsageLimitReached,
            admin_contact: None,
            limit_type: Some(LimitType::MonthlyActiveUser),
        }))
    );
    let null_relation = MessageEventContent::Text(TextMessageEventContent {
        body: "b".to_owned(),
        formatted: None,
        relates_to: Some(Relation::Custom(Json::Null)),
    });
    assert_eq!(MessageEventContent::decode(&null_relation.encode()), Ok(MessageEventContent::text_plain("b")));
}
