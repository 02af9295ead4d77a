//! The event that carries a message: the payload with the envelope round it.
//!
//! The envelope says what the event is (`type`), which event it is, who sent
//! it, when and where. What the server adds lies under `unsigned`, and is left
//! out where there is nothing to add.

use crate::error::SchemaError;
use crate::json::{Json, JsonView, Members};
use crate::message::{decode_content, event_type_text, MessageEventContent, MessageEventContentView};
use crate::message_laws::{lemma_content_decoded, lemma_content_round_trip};
use crate::names::Field;
use crate::object::{
    find, find_present, get_opt_int, get_opt_text, get_text, get_uint, lemma_member_with, member,
    object, opt_int_json, opt_int_of, opt_text_json, opt_text_of, opt_text_view, present, put,
    put_opt_int, put_opt_text, put_text, put_uint, text_of, uint_json, uint_of, with, with_opt,
};
use crate::relation::{
    lemma_relations_decoded, lemma_relations_round_trip, opt_safe_int, Relations, RelationsView,
};
use crate::safe_int::is_safe_uint;
use crate::views::{opt_view, result_view};
use vstd::prelude::*;

verus! {

/// Extra information about an event that is not incorporated into the event's
/// hash.
#[derive(Clone, Debug, Default, PartialEq, Eq)]
pub struct Unsigned {
    /// The time in milliseconds that has elapsed since the event was sent.
    pub age: Option<i64>,
    /// The client-supplied transaction ID, if the client being given the event
    /// is the same one which sent it.
    pub transaction_id: Option<String>,
    /// Server-compiled information from other events relating to this event.
    pub relations: Option<Relations>,
}

/// The mathematical value of an [`Unsigned`].
pub ghost struct UnsignedView {
    pub age: Option<i64>,
    pub transaction_id: Option<Seq<char>>,
    pub relations: Option<RelationsView>,
}

impl View for Unsigned {
    type V = UnsignedView;

    open spec fn view(&self) -> UnsignedView {
        UnsignedView {
            age: self.age,
            transaction_id: opt_text_view(self.transaction_id),
            relations: opt_view(self.relations),
        }
    }
}

impl UnsignedView {
    /// Whether there is nothing in it.
    pub open spec fn is_empty(self) -> bool {
        self.age is None && self.transaction_id is None && self.relations is None
    }

    /// The age is a number that the wire can carry, and the relations are
    /// canonical.
    pub open spec fn canonical(self) -> bool {
        &&& opt_safe_int(self.age)
        &&& (self.relations matches Some(r) ==> r.canonical())
    }

    /// The JSON value of relations that may be absent.
    pub open spec fn relations_json(relations: Option<RelationsView>) -> Option<JsonView> {
        match relations {
            Some(r) => Some(r.encode()),
            None => None,
        }
    }

    /// The relations under `m.relations`, where the member may be absent.
    pub open spec fn relations_of(m: Members) -> Result<Option<RelationsView>, SchemaError> {
        match present(m, Field::Relations) {
            Some(value) => match RelationsView::decode(value) {
                Ok(r) => Ok(Some(r)),
                Err(e) => Err(e),
            },
            None => Ok(None),
        }
    }

    /// The members of the record's object: what is absent is left out.
    pub open spec fn members(self) -> Members {
        let m = Seq::empty();
        let m = with_opt(m, Field::Age, opt_int_json(self.age));
        let m = with_opt(m, Field::TransactionId, opt_text_json(self.transaction_id));
        let m = with_opt(m, Field::Relations, Self::relations_json(self.relations));
        m
    }

    /// The JSON value of the record.
    pub open spec fn encode(self) -> JsonView {
        JsonView::Object(self.members())
    }

    /// The JSON value of the record as a member of its event: none where the
    /// record is empty.
    pub open spec fn encode_unless_empty(self) -> Option<JsonView> {
        if self.is_empty() {
            None
        } else {
            Some(self.encode())
        }
    }

    /// The record that a JSON value holds.
    pub open spec fn decode(value: JsonView) -> Result<UnsignedView, SchemaError> {
        match value {
            JsonView::Object(m) => {
                let age = opt_int_of(m, Field::Age);
                let transaction_id = opt_text_of(m, Field::TransactionId);
                let relations = Self::relations_of(m);
                if age is Err {
                    Err(age->Err_0)
                } else if transaction_id is Err {
                    Err(transaction_id->Err_0)
                } else if relations is Err {
                    Err(relations->Err_0)
                } else {
                    Ok(
                        UnsignedView {
                            age: age->Ok_0,
                            transaction_id: transaction_id->Ok_0,
                            relations: relations->Ok_0,
                        },
                    )
                }
            },
            _ => Err(SchemaError::NotAnObject),
        }
    }

    /// The record under `unsigned`: an empty one where the member is absent.
    pub open spec fn decode_or_empty(m: Members) -> Result<UnsignedView, SchemaError> {
        match present(m, Field::Unsigned) {
            Some(value) => Self::decode(value),
            None => Ok(UnsignedView { age: None, transaction_id: None, relations: None }),
        }
    }
}

impl Unsigned {
    /// Whether there is nothing in it.
    pub fn is_empty(&self) -> (empty: bool)
        ensures
            empty == self@.is_empty(),
    {
        self.age.is_none() && self.transaction_id.is_none() && self.relations.is_none()
    }

    /// Writes the record as a JSON object.
    pub fn encode(&self) -> (value: Json)
        ensures
            value@ == self@.encode(),
    {
        let mut members: Vec<(String, Json)> = Vec::new();
        put_opt_int(&mut members, Field::Age, self.age);
        put_opt_text(&mut members, Field::TransactionId, &self.transaction_id);
        proof {
            reveal(with_opt);
        }
        match &self.relations {
            Some(r) => put(&mut members, Field::Relations, r.encode()),
            None => {},
        }
        object(members)
    }

    /// Reads the record from a JSON object.
    pub fn decode(value: &Json) -> (r: Result<Unsigned, SchemaError>)
        ensures
            result_view(r) == UnsignedView::decode(value@),
    {
        let members = match value {
            Json::Object(members) => members,
            _ => return Err(SchemaError::NotAnObject),
        };
        let age = match get_opt_int(members, Field::Age) {
            Ok(v) => v,
            Err(e) => return Err(e),
        };
        let transaction_id = match get_opt_text(members, Field::TransactionId) {
            Ok(v) => v,
            Err(e) => return Err(e),
        };
        let relations = match find_present(members, Field::Relations) {
            Some(value) => match Relations::decode(value) {
                Ok(r) => Some(r),
                Err(e) => return Err(e),
            },
            None => None,
        };
        Ok(Unsigned { age, transaction_id, relations })
    }
}

/// This event is used when sending messages in a room.
///
/// Messages are not limited to be text.
#[derive(Clone, Debug, PartialEq, Eq)]
pub struct MessageEvent {
    /// Data specific to the event type.
    pub content: MessageEventContent,
    /// The unique identifier for the event.
    pub event_id: String,
    /// The fully-qualified ID of the user who sent this event.
    pub sender: String,
    /// Timestamp in milliseconds on originating homeserver when this event was
    /// sent.
    pub origin_server_ts: u64,
    /// The ID of the room associated with this event.
    pub room_id: String,
    /// Additional key-value pairs not signed by the homeserver.
    pub unsigned: Unsigned,
}

/// The mathematical value of a [`MessageEvent`].
pub ghost struct MessageEventView {
    pub content: MessageEventContentView,
    pub event_id: Seq<char>,
    pub sender: Seq<char>,
    pub origin_server_ts: u64,
    pub room_id: Seq<char>,
    pub unsigned: UnsignedView,
}

impl View for MessageEvent {
    type V = MessageEventView;

    open spec fn view(&self) -> MessageEventView {
        MessageEventView {
            content: self.content@,
            event_id: self.event_id@,
            sender: self.sender@,
            origin_server_ts: self.origin_server_ts,
            room_id: self.room_id@,
            unsigned: self.unsigned@,
        }
    }
}

impl MessageEventView {
    /// The payload is canonical with every kind of relation taken, the time is
    /// a number that the wire can carry, and what the server added is
    /// canonical.
    pub open spec fn canonical(self) -> bool {
        &&& self.content.canonical(true)
        &&& is_safe_uint(self.origin_server_ts as int)
        &&& self.unsigned.canonical()
    }

    /// The members of the event's object.
    pub open spec fn members(self) -> Members {
        let m = Seq::empty();
        let m = with(m, Field::Type, JsonView::String(event_type_text()));
        let m = with(m, Field::Content, self.content.encode());
        let m = with(m, Field::EventId, JsonView::String(self.event_id));
        let m = with(m, Field::Sender, JsonView::String(self.sender));
        let m = with(m, Field::OriginServerTs, uint_json(self.origin_server_ts));
        let m = with(m, Field::RoomId, JsonView::String(self.room_id));
        let m = with_opt(m, Field::Unsigned, self.unsigned.encode_unless_empty());
        m
    }

    /// The JSON value of the event.
    pub open spec fn encode(self) -> JsonView {
        JsonView::Object(self.members())
    }

    /// The payload under `content`, read as that of an event of the type
    /// under `type`.
    pub open spec fn content_of(m: Members) -> Result<MessageEventContentView, SchemaError> {
        match text_of(m, Field::Type) {
            Ok(event_type) => match member(m, Field::Content) {
                Some(value) => MessageEventContentView::decode_content(value, event_type),
                None => Err(SchemaError::Missing(Field::Content)),
            },
            Err(e) => Err(e),
        }
    }

    /// The event that a JSON value holds, or what is wrong with the first
    /// member, in the event's order, that cannot be read.
    pub open spec fn decode(value: JsonView) -> Result<MessageEventView, SchemaError> {
        match value {
            JsonView::Object(m) => {
                let content = Self::content_of(m);
                let event_id = text_of(m, Field::EventId);
                let sender = text_of(m, Field::Sender);
                let origin_server_ts = uint_of(m, Field::OriginServerTs);
                let room_id = text_of(m, Field::RoomId);
                let unsigned = UnsignedView::decode_or_empty(m);
                if content is Err {
                    Err(content->Err_0)
                } else if event_id is Err {
                    Err(event_id->Err_0)
                } else if sender is Err {
                    Err(sender->Err_0)
                } else if origin_server_ts is Err {
                    Err(origin_server_ts->Err_0)
                } else if room_id is Err {
                    Err(room_id->Err_0)
                } else if unsigned is Err {
                    Err(unsigned->Err_0)
                } else {
                    Ok(
                        MessageEventView {
                            content: content->Ok_0,
                            event_id: event_id->Ok_0,
                            sender: sender->Ok_0,
                            origin_server_ts: origin_server_ts->Ok_0,
                            room_id: room_id->Ok_0,
                            unsigned: unsigned->Ok_0,
                        },
                    )
                }
            },
            _ => Err(SchemaError::NotAnObject),
        }
    }
}

impl MessageEvent {
    /// Writes the event as a JSON object.
    pub fn encode(&self) -> (value: Json)
        ensures
            value@ == self@.encode(),
    {
        let mut members: Vec<(String, Json)> = Vec::new();
        let event_type = MessageEventContent::event_type().to_owned();
        put_text(&mut members, Field::Type, &event_type);
        put(&mut members, Field::Content, self.content.encode());
        put_text(&mut members, Field::EventId, &self.event_id);
        put_text(&mut members, Field::Sender, &self.sender);
        put_uint(&mut members, Field::OriginServerTs, self.origin_server_ts);
        put_text(&mut members, Field::RoomId, &self.room_id);
        proof {
            reveal(with_opt);
        }
        if !self.unsigned.is_empty() {
            put(&mut members, Field::Unsigned, self.unsigned.encode());
        }
        object(members)
    }

    /// Reads the event from a JSON object.
    pub fn decode(value: &Json) -> (r: Result<MessageEvent, SchemaError>)
        ensures
            result_view(r) == MessageEventView::decode(value@),
    {
        let members = match value {
            Json::Object(members) => members,
            _ => return Err(SchemaError::NotAnObject),
        };
        let event_type = match get_text(members, Field::Type) {
            Ok(v) => v,
            Err(e) => return Err(e),
        };
        let content = match find(members, Field::Content) {
            Some(value) => match decode_content(value, event_type.as_str()) {
                Ok(v) => v,
                Err(e) => return Err(e),
            },
            None => return Err(SchemaError::Missing(Field::Content)),
        };
        let event_id = match get_text(members, Field::EventId) {
            Ok(v) => v,
            Err(e) => return Err(e),
        };
        let sender = match get_text(members, Field::Sender) {
            Ok(v) => v,
            Err(e) => return Err(e),
        };
        let origin_server_ts = match get_uint(members, Field::OriginServerTs) {
            Ok(v) => v,
            Err(e) => return Err(e),
        };
        let room_id = match get_text(members, Field::RoomId) {
            Ok(v) => v,
            Err(e) => return Err(e),
        };
        let unsigned = match find_present(members, Field::Unsigned) {
            Some(value) => match Unsigned::decode(value) {
                Ok(v) => v,
                Err(e) => return Err(e),
            },
            None => Unsigned { age: None, transaction_id: None, relations: None },
        };
        Ok(MessageEvent { content, event_id, sender, origin_server_ts, room_id, unsigned })
    }
}

/// What is read from what the server added is canonical.
pub proof fn lemma_unsigned_decoded(value: JsonView)
    ensures
        UnsignedView::decode(value) matches Ok(v) ==> v.canonical(),
{
    match value {
        JsonView::Object(m) => match present(m, Field::Relations) {
            Some(inner) => lemma_relations_decoded(inner),
            None => {},
        },
        _ => {},
    }
}

/// An event that is read is canonical: writing it and reading it again gives
/// the same event.
pub proof fn lemma_message_event_decode_stable(value: JsonView)
    ensures
        MessageEventView::decode(value) matches Ok(v) ==> v.canonical() && MessageEventView::decode(
            v.encode(),
        ) == Ok::<MessageEventView, SchemaError>(v),
{
    match value {
        JsonView::Object(m) => {
            match member(m, Field::Content) {
                Some(content) => lemma_content_decoded(content, true),
                None => {},
            }
            match present(m, Field::Unsigned) {
                Some(unsigned) => lemma_unsigned_decoded(unsigned),
                None => {},
            }
        },
        _ => {},
    }
    match MessageEventView::decode(value) {
        Ok(v) => lemma_message_event_round_trip(v),
        Err(_) => {},
    }
}

/// Reading what the server added that was written gives it back.
pub proof fn lemma_unsigned_round_trip(v: UnsignedView)
    requires
        v.canonical(),
    ensures
        UnsignedView::decode(v.encode()) == Ok::<UnsignedView, SchemaError>(v),
{
    lemma_member_with();
    if v.relations is Some {
        lemma_relations_round_trip(v.relations->Some_0);
    }
}

/// Reading an event that was written gives the event back.
pub proof fn lemma_message_event_round_trip(v: MessageEventView)
    requires
        v.canonical(),
    ensures
        MessageEventView::decode(v.encode()) == Ok::<MessageEventView, SchemaError>(v),
{
    let m = v.members();
    assert(MessageEventView::content_of(m) == Ok::<MessageEventContentView, SchemaError>(
        v.content,
    )) by {
        lemma_member_with();
        lemma_content_round_trip(v.content, true);
    }
    assert(UnsignedView::decode_or_empty(m) == Ok::<UnsignedView, SchemaError>(v.unsigned)) by {
        lemma_member_with();
        lemma_unsigned_round_trip(v.unsigned);
    }
    lemma_member_with();
}

} // verus!
