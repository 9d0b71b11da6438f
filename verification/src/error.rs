//! Helpers that format the causes of errors.

use vstd::prelude::*;

use crate::text::concat;

verus! {

/// The line that names the cause of an error, as error messages append it.
pub open spec fn source_line(source: Seq<char>) -> Seq<char> {
    "\nCaused by: "@ + source
}

/// Formats the cause of an error, given as the text its display shows, on a
/// line of its own.
pub fn fmt_source(source: &str) -> (res: String)
    ensures
        res@ == source_line(source@),
{
    concat("\nCaused by: ", source)
}

} // verus!
