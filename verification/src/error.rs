//! The errors of the codecs.

use crate::json::json_error_text;
use vstd::prelude::*;
use vstd::string::*;

verus! {

/// Why a document could not be read or written.
#[derive(Debug)]
pub enum Cause {
    /// The JSON parser or printer failed.
    Json(serde_json::Error),
    /// The data of a payload is not UTF-8 text.
    InvalidUtf8,
    /// The document of an event is not a JSON object.
    NotAnObject,
    /// The document of a batch is not a JSON array.
    NotAnArray,
    /// A required attribute is missing.
    MissingField(String),
    /// An attribute holds a value of the wrong type.
    InvalidType(String),
    /// The version token is not supported.
    UnsupportedVersion(String),
    /// The time is not a timestamp.
    InvalidTime(String),
}

/// What a cause holds.
pub enum CauseView {
    Json,
    InvalidUtf8,
    NotAnObject,
    NotAnArray,
    MissingField(Seq<char>),
    InvalidType(Seq<char>),
    UnsupportedVersion(Seq<char>),
    InvalidTime(Seq<char>),
}

impl View for Cause {
    type V = CauseView;

    open spec fn view(&self) -> CauseView {
        match self {
            Cause::Json(_) => CauseView::Json,
            Cause::InvalidUtf8 => CauseView::InvalidUtf8,
            Cause::NotAnObject => CauseView::NotAnObject,
            Cause::NotAnArray => CauseView::NotAnArray,
            Cause::MissingField(name) => CauseView::MissingField(name@),
            Cause::InvalidType(name) => CauseView::InvalidType(name@),
            Cause::UnsupportedVersion(token) => CauseView::UnsupportedVersion(token@),
            Cause::InvalidTime(text) => CauseView::InvalidTime(text@),
        }
    }
}

impl CauseView {
    /// The message of a cause; that of the JSON parser or printer is its own.
    pub open spec fn message(self) -> Seq<char> {
        match self {
            CauseView::Json => Seq::empty(),
            CauseView::InvalidUtf8 => "payload data is not valid UTF-8"@,
            CauseView::NotAnObject => "expected a JSON object"@,
            CauseView::NotAnArray => "expected a JSON array"@,
            CauseView::MissingField(name) => "missing field "@ + name,
            CauseView::InvalidType(name) => "invalid type of field "@ + name,
            CauseView::UnsupportedVersion(token) => "Invalid specversion "@ + token,
            CauseView::InvalidTime(text) => "invalid time "@ + text,
        }
    }
}

impl Cause {
    /// The message of this cause.
    pub fn to_string(&self) -> (r: String)
        ensures
            !(self@ is Json) ==> r@ == self@.message(),
    {
        match self {
            Cause::Json(error) => json_error_text(error),
            Cause::InvalidUtf8 => String::from_str("payload data is not valid UTF-8"),
            Cause::NotAnObject => String::from_str("expected a JSON object"),
            Cause::NotAnArray => String::from_str("expected a JSON array"),
            Cause::MissingField(name) => String::from_str("missing field ").concat(name.as_str()),
            Cause::InvalidType(name) => String::from_str("invalid type of field ").concat(
                name.as_str(),
            ),
            Cause::UnsupportedVersion(token) => String::from_str("Invalid specversion ").concat(
                token.as_str(),
            ),
            Cause::InvalidTime(text) => String::from_str("invalid time ").concat(text.as_str()),
        }
    }
}

/// The failure of a codec: of writing a value, or of reading one.
#[derive(Debug)]
pub enum CodecError {
    SerializationError(Cause),
    DeserializationError(Cause),
}

/// What a codec error holds.
pub enum CodecErrorView {
    SerializationError(CauseView),
    DeserializationError(CauseView),
}

impl View for CodecError {
    type V = CodecErrorView;

    open spec fn view(&self) -> CodecErrorView {
        match self {
            CodecError::SerializationError(cause) => CodecErrorView::SerializationError(cause@),
            CodecError::DeserializationError(cause) => CodecErrorView::DeserializationError(
                cause@,
            ),
        }
    }
}

impl CodecError {
    /// The cause of this error.
    pub fn source(&self) -> (r: &Cause)
        ensures
            self@ == CodecErrorView::SerializationError(r@) || self@
                == CodecErrorView::DeserializationError(r@),
    {
        match self {
            CodecError::SerializationError(cause) => cause,
            CodecError::DeserializationError(cause) => cause,
        }
    }

    /// The message of this error: that of its cause.
    pub fn to_string(&self) -> (r: String)
        ensures
            self@ matches CodecErrorView::SerializationError(c) ==> !(c is Json) ==> r@
                == c.message(),
            self@ matches CodecErrorView::DeserializationError(c) ==> !(c is Json) ==> r@
                == c.message(),
    {
        self.source().to_string()
    }
}

} // verus!
