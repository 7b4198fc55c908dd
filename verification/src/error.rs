//! The closed set of failures that an operation can end in.

use vstd::prelude::*;
use vstd::string::StringExecFns;
use crate::text::{decimal, decimal_text};

verus! {

/// Why an operation did not yield its result.
#[derive(Debug)]
pub enum Error {
    /// A required field was never set on the builder; holds the field's name.
    MissingField(&'static str),
    /// The transport could not complete the exchange; holds its account of why.
    Request(String),
    /// The service answered with a status outside 200 to 299.
    Api {
        /// The HTTP status of the reply.
        status: u16,
        /// The service's own message, or the status's standard phrase.
        message: String,
    },
    /// A reply with a success status held a body of another shape than expected.
    Parse(String),
    /// The client was configured with something it cannot use.
    Config(String),
}

/// What an [`Error`] holds.
pub enum ErrorModel {
    MissingField(Seq<char>),
    Request(Seq<char>),
    Api { status: u16, message: Seq<char> },
    Parse(Seq<char>),
    Config(Seq<char>),
}

impl View for Error {
    type V = ErrorModel;

    open spec fn view(&self) -> ErrorModel {
        match *self {
            Error::MissingField(name) => ErrorModel::MissingField(name@),
            Error::Request(cause) => ErrorModel::Request(cause@),
            Error::Api { status, message } => ErrorModel::Api { status, message: message@ },
            Error::Parse(description) => ErrorModel::Parse(description@),
            Error::Config(description) => ErrorModel::Config(description@),
        }
    }
}

impl ErrorModel {
    /// The sentence that tells a reader of the failure.
    pub open spec fn text(self) -> Seq<char> {
        match self {
            ErrorModel::MissingField(name) => "missing required field: "@ + name,
            ErrorModel::Request(cause) => "HTTP request failed: "@ + cause,
            ErrorModel::Api { status, message } => "API error ("@ + decimal(status as nat) + "): "@
                + message,
            ErrorModel::Parse(description) => "failed to parse response: "@ + description,
            ErrorModel::Config(description) => "invalid configuration: "@ + description,
        }
    }
}

impl Error {
    /// The sentence that tells a reader of the failure.
    pub fn describe(&self) -> (sentence: String)
        ensures
            sentence@ == self@.text(),
    {
        match self {
            Error::MissingField(name) => String::from_str("missing required field: ").concat(name),
            Error::Request(cause) => String::from_str("HTTP request failed: ").concat(
                cause.as_str(),
            ),
            Error::Api { status, message } => {
                let number = decimal_text(*status);
                String::from_str("API error (").concat(number.as_str()).concat("): ").concat(
                    message.as_str(),
                )
            },
            Error::Parse(description) => String::from_str("failed to parse response: ").concat(
                description.as_str(),
            ),
            Error::Config(description) => String::from_str("invalid configuration: ").concat(
                description.as_str(),
            ),
        }
    }
}

} // verus!
