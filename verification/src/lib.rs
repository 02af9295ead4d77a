//! The payload of a room message and the relations between events, read from
//! and written to JSON trees.
//!
//! A payload is a tagged union: the member `msgtype` of its object tells which
//! shape the other members have. A tag that names no known kind is no error:
//! the whole object is kept as a custom payload, so that a newer peer's
//! messages pass through an older reader unharmed. A relation, where a payload
//! carries one, has a logical shape and a different shape on the wire, with an
//! explicit transform in both directions.
//!
//! - [`json`]: the JSON tree and its mathematical value.
//! - [`names`]: the words of the wire.
//! - [`object`], [`lists`], [`safe_int`]: reading and writing members.
//! - [`format`]: the formatted body, hoisted into and folded out of its parent.
//! - [`relationships`]: the relation transform; [`relation_laws`]: what holds
//!   of it.
//! - [`media`], [`content`], [`text`], [`server_notice`]: the shapes of the
//!   known kinds.
//! - [`message`]: the tagged union; [`message_laws`]: what holds of it.
//! - [`relation`]: the relations that a server bundles with an event.
//! - [`event`]: the envelope round a payload.
//! - [`error`]: why a value cannot be read.
//! - [`views`]: the values of optional values and of readers' results.
//!
//! Every function states what it returns over the mathematical values of its
//! arguments, and every law is proved from those statements.

pub mod content;
pub mod error;
pub mod event;
pub mod format;
pub mod json;
pub mod lists;
pub mod media;
pub mod message;
pub mod message_laws;
pub mod names;
pub mod object;
pub mod relation;
pub mod relation_laws;
pub mod relationships;
pub mod safe_int;
pub mod server_notice;
pub mod text;
pub mod views;
