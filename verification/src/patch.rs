//! JSON Patch (RFC 6902) operations, as the mutating webhook writes them.

use vstd::prelude::*;

verus! {

/// A JSON value that a patch operation writes.
#[derive(Debug)]
pub enum PatchValue {
    /// A JSON string.
    String(String),
    /// A JSON number that is a non-negative integer.
    Number(u64),
}

/// One operation of a JSON Patch.
#[derive(Debug)]
pub enum PatchOperation {
    /// Adds `value` at `path`.
    Add { path: String, value: PatchValue },
    /// Replaces what stands at `path` with `value`.
    Replace { path: String, value: PatchValue },
}

/// Whether `op` adds the string `text` at the path `path`.
pub open spec fn adds_string(op: PatchOperation, path: Seq<char>, text: Seq<char>) -> bool {
    op matches PatchOperation::Add { path: p, value: PatchValue::String(s) } && p@ == path && s@
        == text
}

/// Whether `op` replaces what stands at the path `path` with the number `n`.
pub open spec fn replaces_number(op: PatchOperation, path: Seq<char>, n: u64) -> bool {
    op matches PatchOperation::Replace { path: p, value: PatchValue::Number(m) } && p@ == path
        && m == n
}

} // verus!
