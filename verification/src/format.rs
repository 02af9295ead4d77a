//! The formatted form of a message body, and how it lies flat in the object of
//! the message that carries it.
//!
//! In a message the formatted body is one nested value. On the wire its two
//! parts are members of the message itself, beside `body`: `format` and
//! `formatted_body`. [`hoist`] writes them there, [`fold`] gathers them again.

use crate::json::{members_view, str_eq, Json, JsonView, Members};
use crate::names::Field;
use crate::object::{find, member, put_text, with};
use vstd::prelude::*;

verus! {

/// The format for the formatted representation of a message body.
///
/// This type can hold an arbitrary string. A format that has no variant of its
/// own here is told by its text, which `as_str` gives.
#[derive(Clone, Debug, PartialEq, Eq)]
pub enum MessageFormat {
    /// HTML.
    Html,
    /// Any other format, by its text.
    _Custom(String),
}

/// The mathematical value of a [`MessageFormat`].
pub ghost enum MessageFormatView {
    Html,
    Custom(Seq<char>),
}

impl View for MessageFormat {
    type V = MessageFormatView;

    open spec fn view(&self) -> MessageFormatView {
        match self {
            MessageFormat::Html => MessageFormatView::Html,
            MessageFormat::_Custom(s) => MessageFormatView::Custom(s@),
        }
    }
}

impl MessageFormatView {
    /// The format as it stands on the wire.
    pub open spec fn text(self) -> Seq<char> {
        match self {
            MessageFormatView::Html => "org.matrix.custom.html"@,
            MessageFormatView::Custom(s) => s,
        }
    }

    /// The format that a text names.
    pub open spec fn of_text(text: Seq<char>) -> MessageFormatView {
        if text == "org.matrix.custom.html"@ {
            MessageFormatView::Html
        } else {
            MessageFormatView::Custom(text)
        }
    }

    /// A format is canonical unless it hides a known format's text in the
    /// variant for the others.
    pub open spec fn canonical(self) -> bool {
        self matches MessageFormatView::Custom(s) ==> s != "org.matrix.custom.html"@
    }
}

impl MessageFormat {
    /// Creates a string slice from this `MessageFormat`.
    pub fn as_str(&self) -> (text: &str)
        ensures
            text@ == self@.text(),
    {
        match self {
            MessageFormat::Html => "org.matrix.custom.html",
            MessageFormat::_Custom(s) => s.as_str(),
        }
    }

    /// The format that a text names: a known one where the text is its own,
    /// else the text itself.
    pub fn from_text(text: &str) -> (format: MessageFormat)
        ensures
            format@ == MessageFormatView::of_text(text@),
            format@.canonical(),
    {
        if str_eq(text, "org.matrix.custom.html") {
            MessageFormat::Html
        } else {
            MessageFormat::_Custom(text.to_owned())
        }
    }
}

/// Common message event content fields for message types that have separate
/// plain-text and formatted representations.
#[derive(Clone, Debug, PartialEq, Eq)]
pub struct FormattedBody {
    /// The format used in the `formatted_body`.
    pub format: MessageFormat,
    /// The formatted version of the `body`.
    pub body: String,
}

/// The mathematical value of a [`FormattedBody`].
pub ghost struct FormattedBodyView {
    pub format: MessageFormatView,
    pub body: Seq<char>,
}

impl View for FormattedBody {
    type V = FormattedBodyView;

    open spec fn view(&self) -> FormattedBodyView {
        FormattedBodyView { format: self.format@, body: self.body@ }
    }
}

/// The value of a formatted body that may be absent.
pub open spec fn opt_formatted_view(formatted: Option<FormattedBody>) -> Option<FormattedBodyView> {
    match formatted {
        Some(f) => Some(f@),
        None => None,
    }
}

impl FormattedBody {
    /// Creates a new HTML-formatted message body.
    pub fn html(body: &str) -> (formatted: FormattedBody)
        ensures
            formatted@ == (FormattedBodyView { format: MessageFormatView::Html, body: body@ }),
    {
        FormattedBody { format: MessageFormat::Html, body: body.to_owned() }
    }
}

/// The members with the two parts of a formatted body after them, where there
/// is one.
pub open spec fn hoisted(m: Members, formatted: Option<FormattedBodyView>) -> Members {
    match formatted {
        Some(f) => with(
            with(m, Field::Format, JsonView::String(f.format.text())),
            Field::FormattedBody,
            JsonView::String(f.body),
        ),
        None => m,
    }
}

/// The formatted body that the members hold: there is one where both parts are
/// there and both are text.
pub open spec fn folded(m: Members) -> Option<FormattedBodyView> {
    match (member(m, Field::Format), member(m, Field::FormattedBody)) {
        (Some(JsonView::String(format)), Some(JsonView::String(body))) => Some(
            FormattedBodyView { format: MessageFormatView::of_text(format), body },
        ),
        _ => None,
    }
}

/// Writes the two parts of a formatted body as members of the object that
/// carries it. Where there is none, nothing is written.
pub fn hoist(members: &mut Vec<(String, Json)>, formatted: &Option<FormattedBody>)
    ensures
        members_view(final(members)@) == hoisted(
            members_view(old(members)@),
            opt_formatted_view(*formatted),
        ),
{
    match formatted {
        Some(f) => {
            let format = f.format.as_str().to_owned();
            put_text(members, Field::Format, &format);
            put_text(members, Field::FormattedBody, &f.body);
        },
        None => {},
    }
}

/// Gathers the formatted body from the members of the object that carries it.
pub fn fold(members: &Vec<(String, Json)>) -> (formatted: Option<FormattedBody>)
    ensures
        opt_formatted_view(formatted) == folded(members_view(members@)),
        formatted matches Some(f) ==> f@.format.canonical(),
{
    match find(members, Field::Format) {
        Some(Json::String(format)) => match find(members, Field::FormattedBody) {
            Some(Json::String(body)) => Some(
                FormattedBody { format: MessageFormat::from_text(format.as_str()), body: body.clone() },
            ),
            _ => None,
        },
        _ => None,
    }
}

/// A canonical format is the one that its own text names.
pub proof fn lemma_format_text_round_trip(format: MessageFormatView)
    requires
        format.canonical(),
    ensures
        MessageFormatView::of_text(format.text()) == format,
{
}

/// The format that a text names is canonical and has that text.
pub proof fn lemma_format_of_text(text: Seq<char>)
    ensures
        MessageFormatView::of_text(text).canonical(),
        MessageFormatView::of_text(text).text() == text,
{
}

} // verus!
