//! The errors that the decoders and the stream reader report.

use vstd::prelude::*;

verus! {

/// What a decoder can fail with.
#[derive(Debug, Clone, PartialEq, Eq)]
pub enum DecodeError {
    /// A log frame whose first byte names no stream.
    MalformedFrame { tag: u8 },
    /// Bytes that were to be text and are not UTF-8.
    InvalidEncoding,
    /// A line of JSON that is well formed but does not fit the type asked
    /// for: the parser's message, the column at which it gave up, and the
    /// line itself.
    DataMismatch { message: String, column: usize, raw_line: String },
    /// A line that is not JSON at all: the parser's message.
    SyntaxError { cause: String },
}

/// `DecodeError` as a mathematical value: each text as its sequence of
/// characters.
pub enum DecodeErrorView {
    MalformedFrame { tag: u8 },
    InvalidEncoding,
    DataMismatch { message: Seq<char>, column: usize, raw_line: Seq<char> },
    SyntaxError { cause: Seq<char> },
}

impl View for DecodeError {
    type V = DecodeErrorView;

    open spec fn view(&self) -> DecodeErrorView {
        match *self {
            DecodeError::MalformedFrame { tag } => DecodeErrorView::MalformedFrame { tag },
            DecodeError::InvalidEncoding => DecodeErrorView::InvalidEncoding,
            DecodeError::DataMismatch { message, column, raw_line } => DecodeErrorView::DataMismatch {
                message: message@,
                column,
                raw_line: raw_line@,
            },
            DecodeError::SyntaxError { cause } => DecodeErrorView::SyntaxError { cause: cause@ },
        }
    }
}

/// What building an endpoint's address can fail with.
#[derive(Debug, Clone, PartialEq, Eq)]
pub enum UriError {
    /// Query parameters that could not be URL-encoded; the encoder's message.
    URLEncodedError { message: String },
}

/// What building the query of a request can fail with.
#[derive(Debug, Clone, PartialEq, Eq)]
pub enum QueryError {
    /// A value that could not be written as JSON; the serializer's message.
    JsonSerializeError { message: String },
}

/// Why a read of the stream reader handed out no bytes.
#[derive(Debug, Clone, PartialEq, Eq)]
pub enum ReadError {
    /// The upstream has nothing yet: not the end, not a failure. Read again
    /// later.
    WouldBlock,
    /// The upstream failed; its description.
    UpstreamFailure { description: String },
}

/// `ReadError` as a mathematical value.
pub enum ReadErrorView {
    WouldBlock,
    UpstreamFailure { description: Seq<char> },
}

impl View for ReadError {
    type V = ReadErrorView;

    open spec fn view(&self) -> ReadErrorView {
        match *self {
            ReadError::WouldBlock => ReadErrorView::WouldBlock,
            ReadError::UpstreamFailure { description } => ReadErrorView::UpstreamFailure {
                description: description@,
            },
        }
    }
}

} // verus!
