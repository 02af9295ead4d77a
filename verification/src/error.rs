//! What is wrong with a value that could not be read.

use crate::names::Field;
use vstd::prelude::*;
use vstd::string::StringExecFns;

verus! {

/// Why a JSON value does not have the shape that was asked of it.
#[derive(Clone, Copy, Debug, PartialEq, Eq, Structural)]
pub enum SchemaError {
    /// A value that has to be an object is none.
    NotAnObject,
    /// A member that has to be there is missing.
    Missing(Field),
    /// A member holds a value of another JSON type than its own.
    WrongType(Field),
    /// A member holds a number that its type cannot hold.
    OutOfRange(Field),
    /// A member that tells a kind holds a word that names none.
    UnknownKind(Field),
    /// The content belongs to an event of another type.
    EventType,
}

impl SchemaError {
    /// The member that the error is about, if it is about one.
    pub open spec fn spec_field(self) -> Option<Field> {
        match self {
            SchemaError::Missing(f) => Some(f),
            SchemaError::WrongType(f) => Some(f),
            SchemaError::OutOfRange(f) => Some(f),
            SchemaError::UnknownKind(f) => Some(f),
            _ => None,
        }
    }

    /// What went wrong, without the member's name.
    pub open spec fn spec_what(self) -> Seq<char> {
        match self {
            SchemaError::NotAnObject => "expected a JSON object"@,
            SchemaError::Missing(_) => "missing member "@,
            SchemaError::WrongType(_) => "wrong JSON type in member "@,
            SchemaError::OutOfRange(_) => "number out of range in member "@,
            SchemaError::UnknownKind(_) => "unknown kind in member "@,
            SchemaError::EventType => "content of an event of another type"@,
        }
    }

    /// The error in words: what went wrong, then the name of the member where
    /// the error is about one.
    pub open spec fn spec_message(self) -> Seq<char> {
        match self.spec_field() {
            Some(field) => self.spec_what() + field.text(),
            None => self.spec_what(),
        }
    }

    /// What went wrong, without the member's name.
    pub fn what(&self) -> (text: &'static str)
        ensures
            text@ == self.spec_what(),
    {
        match self {
            SchemaError::NotAnObject => "expected a JSON object",
            SchemaError::Missing(_) => "missing member ",
            SchemaError::WrongType(_) => "wrong JSON type in member ",
            SchemaError::OutOfRange(_) => "number out of range in member ",
            SchemaError::UnknownKind(_) => "unknown kind in member ",
            SchemaError::EventType => "content of an event of another type",
        }
    }

    /// The error in words.
    pub fn message(&self) -> (message: String)
        ensures
            message@ == self.spec_message(),
    {
        let mut message = self.what().to_owned();
        match self.field() {
            Some(field) => message.append(field.name()),
            None => {},
        }
        message
    }

    /// The member that the error is about, if it is about one.
    pub fn field(&self) -> (field: Option<Field>)
        ensures
            field == self.spec_field(),
    {
        match self {
            SchemaError::Missing(f) => Some(*f),
            SchemaError::WrongType(f) => Some(*f),
            SchemaError::OutOfRange(f) => Some(*f),
            SchemaError::UnknownKind(f) => Some(*f),
            _ => None,
        }
    }
}

} // verus!
