//! The payload of a notice that the server itself sends, with the two words
//! that say what the notice is about.

use crate::error::SchemaError;
use crate::json::{members_view, str_eq, Json, JsonView, Members};
use crate::names::Field;
use crate::object::{
    get_opt_text, get_text, lemma_member_with, member, object, opt_text_json, opt_text_of,
    opt_text_view, put_opt_text, put_text, text_of, with, with_opt,
};
use crate::views::{opt_view, result_view};
use vstd::prelude::*;

verus! {

/// Types of server notices.
#[derive(Clone, Debug, PartialEq, Eq)]
pub enum ServerNoticeType {
    /// The server has exceeded some limit which requires the server
    /// administrator to intervene.
    UsageLimitReached,
    /// Any other type, by its text.
    _Custom(String),
}

/// The mathematical value of a [`ServerNoticeType`].
pub ghost enum ServerNoticeTypeView {
    UsageLimitReached,
    Custom(Seq<char>),
}

impl View for ServerNoticeType {
    type V = ServerNoticeTypeView;

    open spec fn view(&self) -> ServerNoticeTypeView {
        match self {
            ServerNoticeType::UsageLimitReached => ServerNoticeTypeView::UsageLimitReached,
            ServerNoticeType::_Custom(s) => ServerNoticeTypeView::Custom(s@),
        }
    }
}

impl ServerNoticeTypeView {
    /// The type as it stands on the wire.
    pub open spec fn text(self) -> Seq<char> {
        match self {
            ServerNoticeTypeView::UsageLimitReached => "m.server_notice.usage_limit_reached"@,
            ServerNoticeTypeView::Custom(s) => s,
        }
    }

    /// The type that a text names.
    pub open spec fn of_text(text: Seq<char>) -> ServerNoticeTypeView {
        if text == "m.server_notice.usage_limit_reached"@ {
            ServerNoticeTypeView::UsageLimitReached
        } else {
            ServerNoticeTypeView::Custom(text)
        }
    }

    /// A type is canonical unless it hides a known type's text in the variant
    /// for the others.
    pub open spec fn canonical(self) -> bool {
        self matches ServerNoticeTypeView::Custom(s) ==> s
            != "m.server_notice.usage_limit_reached"@
    }
}

impl ServerNoticeType {
    /// The type as it stands on the wire.
    pub fn as_str(&self) -> (text: &str)
        ensures
            text@ == self@.text(),
    {
        match self {
            ServerNoticeType::UsageLimitReached => "m.server_notice.usage_limit_reached",
            ServerNoticeType::_Custom(s) => s.as_str(),
        }
    }

    /// The type that a text names: a known one where the text is its own, else
    /// the text itself.
    pub fn from_text(text: &str) -> (notice: ServerNoticeType)
        ensures
            notice@ == ServerNoticeTypeView::of_text(text@),
            notice@.canonical(),
    {
        if str_eq(text, "m.server_notice.usage_limit_reached") {
            ServerNoticeType::UsageLimitReached
        } else {
            ServerNoticeType::_Custom(text.to_owned())
        }
    }
}

/// Types of usage limits.
#[derive(Clone, Debug, PartialEq, Eq)]
pub enum LimitType {
    /// The server's number of active users in the last 30 days has exceeded the
    /// maximum.
    ///
    /// New connections are being refused by the server. What defines "active"
    /// is left as an implementation detail, however servers are encouraged to
    /// treat syncing users as "active".
    MonthlyActiveUser,
    /// Any other limit, by its text.
    _Custom(String),
}

/// The mathematical value of a [`LimitType`].
pub ghost enum LimitTypeView {
    MonthlyActiveUser,
    Custom(Seq<char>),
}

impl View for LimitType {
    type V = LimitTypeView;

    open spec fn view(&self) -> LimitTypeView {
        match self {
            LimitType::MonthlyActiveUser => LimitTypeView::MonthlyActiveUser,
            LimitType::_Custom(s) => LimitTypeView::Custom(s@),
        }
    }
}

impl LimitTypeView {
    /// The limit as it stands on the wire.
    pub open spec fn text(self) -> Seq<char> {
        match self {
            LimitTypeView::MonthlyActiveUser => "monthly_active_user"@,
            LimitTypeView::Custom(s) => s,
        }
    }

    /// The limit that a text names.
    pub open spec fn of_text(text: Seq<char>) -> LimitTypeView {
        if text == "monthly_active_user"@ {
            LimitTypeView::MonthlyActiveUser
        } else {
            LimitTypeView::Custom(text)
        }
    }

    /// A limit is canonical unless it hides a known limit's text in the variant
    /// for the others.
    pub open spec fn canonical(self) -> bool {
        self matches LimitTypeView::Custom(s) ==> s != "monthly_active_user"@
    }

    /// The text of a limit that may be absent.
    pub open spec fn opt_text(limit: Option<LimitTypeView>) -> Option<Seq<char>> {
        match limit {
            Some(l) => Some(l.text()),
            None => None,
        }
    }

    /// The limit that a text names, where there is a text.
    pub open spec fn opt_of_text(text: Option<Seq<char>>) -> Option<LimitTypeView> {
        match text {
            Some(t) => Some(LimitTypeView::of_text(t)),
            None => None,
        }
    }
}

impl LimitType {
    /// The limit as it stands on the wire.
    pub fn as_str(&self) -> (text: &str)
        ensures
            text@ == self@.text(),
    {
        match self {
            LimitType::MonthlyActiveUser => "monthly_active_user",
            LimitType::_Custom(s) => s.as_str(),
        }
    }

    /// The limit that a text names: a known one where the text is its own,
    /// else the text itself.
    pub fn from_text(text: &str) -> (limit: LimitType)
        ensures
            limit@ == LimitTypeView::of_text(text@),
            limit@.canonical(),
    {
        if str_eq(text, "monthly_active_user") {
            LimitType::MonthlyActiveUser
        } else {
            LimitType::_Custom(text.to_owned())
        }
    }
}

/// The payload for a server notice message.
#[derive(Clone, Debug, PartialEq, Eq)]
pub struct ServerNoticeMessageEventContent {
    /// A human-readable description of the notice.
    pub body: String,
    /// The type of notice being represented.
    pub server_notice_type: ServerNoticeType,
    /// A URI giving a contact method for the server administrator.
    ///
    /// Required if the notice type is `m.server_notice.usage_limit_reached`.
    pub admin_contact: Option<String>,
    /// The kind of usage limit the server has exceeded.
    ///
    /// Required if the notice type is `m.server_notice.usage_limit_reached`.
    pub limit_type: Option<LimitType>,
}

/// The mathematical value of a [`ServerNoticeMessageEventContent`].
pub ghost struct ServerNoticeMessageEventContentView {
    pub body: Seq<char>,
    pub server_notice_type: ServerNoticeTypeView,
    pub admin_contact: Option<Seq<char>>,
    pub limit_type: Option<LimitTypeView>,
}

impl View for ServerNoticeMessageEventContent {
    type V = ServerNoticeMessageEventContentView;

    open spec fn view(&self) -> ServerNoticeMessageEventContentView {
        ServerNoticeMessageEventContentView {
            body: self.body@,
            server_notice_type: self.server_notice_type@,
            admin_contact: opt_text_view(self.admin_contact),
            limit_type: opt_view(self.limit_type),
        }
    }
}

impl ServerNoticeMessageEventContentView {
    /// The two words are canonical.
    pub open spec fn canonical(self) -> bool {
        &&& self.server_notice_type.canonical()
        &&& (self.limit_type matches Some(l) ==> l.canonical())
    }

    /// The given members with those of the content after them: what is absent
    /// is left out.
    pub open spec fn appended(self, m: Members) -> Members {
        let m = with(m, Field::Body, JsonView::String(self.body));
        let m = with(m, Field::ServerNoticeType, JsonView::String(self.server_notice_type.text()));
        let m = with_opt(m, Field::AdminContact, opt_text_json(self.admin_contact));
        let m = with_opt(m, Field::LimitType, opt_text_json(LimitTypeView::opt_text(self.limit_type)));
        m
    }

    /// The members of the content's object.
    pub open spec fn members(self) -> Members {
        self.appended(Seq::empty())
    }

    /// The JSON value of the content.
    pub open spec fn encode(self) -> JsonView {
        JsonView::Object(self.members())
    }

    /// The content that the members of an object hold, or what is wrong with
    /// the first member, in the content's order, that cannot be read.
    pub open spec fn decode_members(m: Members) -> Result<
        ServerNoticeMessageEventContentView,
        SchemaError,
    > {
        let body = text_of(m, Field::Body);
        let server_notice_type = text_of(m, Field::ServerNoticeType);
        let admin_contact = opt_text_of(m, Field::AdminContact);
        let limit_type = opt_text_of(m, Field::LimitType);
        if body is Err {
            Err(body->Err_0)
        } else if server_notice_type is Err {
            Err(server_notice_type->Err_0)
        } else if admin_contact is Err {
            Err(admin_contact->Err_0)
        } else if limit_type is Err {
            Err(limit_type->Err_0)
        } else {
            Ok(
                ServerNoticeMessageEventContentView {
                    body: body->Ok_0,
                    server_notice_type: ServerNoticeTypeView::of_text(server_notice_type->Ok_0),
                    admin_contact: admin_contact->Ok_0,
                    limit_type: LimitTypeView::opt_of_text(limit_type->Ok_0),
                },
            )
        }
    }

    /// The content that a JSON value holds.
    pub open spec fn decode(value: JsonView) -> Result<
        ServerNoticeMessageEventContentView,
        SchemaError,
    > {
        match value {
            JsonView::Object(m) => Self::decode_members(m),
            _ => Err(SchemaError::NotAnObject),
        }
    }
}

impl ServerNoticeMessageEventContent {
    /// Appends the members of the content: what is absent is left out.
    pub fn append_to(&self, members: &mut Vec<(String, Json)>)
        ensures
            members_view(final(members)@) == self@.appended(members_view(old(members)@)),
    {
        put_text(members, Field::Body, &self.body);
        let notice = self.server_notice_type.as_str().to_owned();
        put_text(members, Field::ServerNoticeType, &notice);
        put_opt_text(members, Field::AdminContact, &self.admin_contact);
        let limit = match &self.limit_type {
            Some(l) => Some(l.as_str().to_owned()),
            None => None,
        };
        put_opt_text(members, Field::LimitType, &limit);
    }

    /// Writes the content as a JSON object.
    pub fn encode(&self) -> (value: Json)
        ensures
            value@ == self@.encode(),
    {
        let mut members: Vec<(String, Json)> = Vec::new();
        self.append_to(&mut members);
        object(members)
    }

    /// Reads the content from the members of an object.
    pub fn decode_members(members: &Vec<(String, Json)>) -> (r: Result<
        ServerNoticeMessageEventContent,
        SchemaError,
    >)
        ensures
            result_view(r) == ServerNoticeMessageEventContentView::decode_members(
                members_view(members@),
            ),
    {
        let body = match get_text(members, Field::Body) {
            Ok(v) => v,
            Err(e) => return Err(e),
        };
        let notice = match get_text(members, Field::ServerNoticeType) {
            Ok(v) => v,
            Err(e) => return Err(e),
        };
        let admin_contact = match get_opt_text(members, Field::AdminContact) {
            Ok(v) => v,
            Err(e) => return Err(e),
        };
        let limit = match get_opt_text(members, Field::LimitType) {
            Ok(v) => v,
            Err(e) => return Err(e),
        };
        let limit_type = match &limit {
            Some(l) => Some(LimitType::from_text(l.as_str())),
            None => None,
        };
        Ok(
            ServerNoticeMessageEventContent {
                body,
                server_notice_type: ServerNoticeType::from_text(notice.as_str()),
                admin_contact,
                limit_type,
            },
        )
    }

    /// Reads the content from a JSON object.
    pub fn decode(value: &Json) -> (r: Result<ServerNoticeMessageEventContent, SchemaError>)
        ensures
            result_view(r) == ServerNoticeMessageEventContentView::decode(value@),
    {
        match value {
            Json::Object(members) => ServerNoticeMessageEventContent::decode_members(members),
            _ => Err(SchemaError::NotAnObject),
        }
    }
}

/// What is read from a server notice is canonical.
pub proof fn lemma_server_notice_message_event_content_decoded(m: Members)
    ensures
        ServerNoticeMessageEventContentView::decode_members(m) matches Ok(v) ==> v.canonical(),
{
}

/// Reading a server notice that was written gives it back: alone, and after
/// members that hold at most `msgtype`.
pub proof fn lemma_server_notice_message_event_content_round_trip(
    v: ServerNoticeMessageEventContentView,
    m: Members,
)
    requires
        v.canonical(),
        forall|key: Field| key != Field::MsgType ==> member(m, key) is None,
    ensures
        ServerNoticeMessageEventContentView::decode_members(v.appended(m)) == Ok::<
            ServerNoticeMessageEventContentView,
            SchemaError,
        >(v),
        ServerNoticeMessageEventContentView::decode(v.encode()) == Ok::<
            ServerNoticeMessageEventContentView,
            SchemaError,
        >(v),
{
    lemma_member_with();
}

} // verus!
