//! Errors of the web layer.

use vstd::prelude::*;

use crate::text::concat;
use crate::web::response::{self, EncapsulatedJson, ErrorType, Payload, StatusCode};

#[allow(unused_imports)]
use crate::web::response::field_names;

verus! {

/// The message of a refused change to an immutable field.
pub open spec fn immutable_field_message(field: Seq<char>) -> Seq<char> {
    "Cannot mutate immutable field `"@ + field + "`"@
}

/// The message that an answer carries for an internal error.
pub open spec fn internal_error_message() -> Seq<char> {
    "Unexpected internal system error."@
}

/// An error of the web layer.
#[derive(Debug)]
pub enum Error {
    /// A change to a field that must not change.
    ImmutableField { field: String },
}

impl Error {
    /// The message of the error.
    pub open spec fn spec_message(&self) -> Seq<char> {
        match self {
            Error::ImmutableField { field } => immutable_field_message(field@),
        }
    }

    /// The HTTP status that answers the error.
    pub open spec fn spec_status(&self) -> u16 {
        match self {
            Error::ImmutableField { .. } => 500,
        }
    }

    /// The message of the error, as its display shows it.
    pub fn to_string(&self) -> (res: String)
        ensures
            res@ == self.spec_message(),
    {
        match self {
            Error::ImmutableField { field } => {
                let head = concat("Cannot mutate immutable field `", field.as_str());
                concat(head.as_str(), "`")
            },
        }
    }

    /// The HTTP status that answers the error.
    pub fn status_code(&self) -> (res: StatusCode)
        ensures
            res.value() == self.spec_status(),
    {
        match self {
            Error::ImmutableField { .. } => StatusCode::internal_server_error(),
        }
    }

    /// The answer to the error: an internal error, which tells the caller
    /// nothing of the cause, under the status of the error.
    pub fn into_response(self) -> (res: EncapsulatedJson<(), ()>)
        ensures
            res.status_code.value() == self.spec_status(),
            res.metadata is None,
            res.result matches Some(Payload::Error(e)) && e.type_ == ErrorType::Internal
                && e.code is None && e.message@ == internal_error_message()
                && field_names(e.additional_fields).len() == 0,
    {
        let status = self.status_code();
        let err = match self {
            Error::ImmutableField { .. } => response::Error::new(
                ErrorType::Internal,
                String::from_str("Unexpected internal system error."),
            ),
        };
        EncapsulatedJson::<(), ()>::err(err).status_code(status)
    }
}

} // verus!
