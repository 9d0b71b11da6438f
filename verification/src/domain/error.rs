//! Errors of the domain model.

use vstd::prelude::*;

use crate::text::concat;

verus! {

/// The list of statuses that the message of `InvalidDogeStatus` offers.
pub open spec fn available_statuses_text() -> Seq<char> {
    ", available values are [Normal, Crying, Raged, Buffed, Parrot, Kachitoritai]"@
}

/// An error of the domain model.
#[derive(Debug)]
pub enum Error {
    /// A text names none of the statuses.
    InvalidDogeStatus { value: String },
}

impl Error {
    /// The message of the error.
    pub open spec fn spec_message(&self) -> Seq<char> {
        match self {
            Error::InvalidDogeStatus { value } => "Invalid doge status: "@ + value@
                + available_statuses_text(),
        }
    }

    /// The message of the error, as its display shows it.
    pub fn to_string(&self) -> (res: String)
        ensures
            res@ == self.spec_message(),
    {
        match self {
            Error::InvalidDogeStatus { value } => {
                let head = concat("Invalid doge status: ", value.as_str());
                let tail = ", available values are [Normal, Crying, Raged, Buffed, Parrot, Kachitoritai]";
                let res = concat(head.as_str(), tail);
                proof {
                    assert(tail@ == available_statuses_text());
                }
                res
            },
        }
    }
}

} // verus!
