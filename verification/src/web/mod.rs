//! The web layer: the JSON envelope, its errors, and the admission handlers.

pub mod controller;
pub mod error;
pub mod response;

use vstd::prelude::*;

use crate::text::concat;
use response::{EncapsulatedJson, ErrorType, Payload, StatusCode};

#[allow(unused_imports)]
use response::field_names;

verus! {

/// The message of the answer to a request for an unknown route.
pub open spec fn no_route_message(uri: Seq<char>) -> Seq<char> {
    "No route for "@ + uri
}

/// The answer to a request for which no route exists: `404 Not Found`, with
/// an error that names the URI asked for.
pub fn fallback(uri: &str) -> (res: EncapsulatedJson<(), ()>)
    ensures
        res.status_code.value() == 404,
        res.metadata is None,
        res.result matches Some(Payload::Error(e)) && e.type_ == ErrorType::NotFound && e.code is None
            && e.message@ == no_route_message(uri@) && field_names(e.additional_fields).len() == 0,
{
    let message = concat("No route for ", uri);
    EncapsulatedJson::<(), ()>::err(response::Error::new(ErrorType::NotFound, message)).status_code(
        StatusCode::not_found(),
    )
}

} // verus!
