//! Typed extraction failures, and the flat string form in which they cross
//! the boundary to the display layer.

use vstd::prelude::*;

verus! {

/// A failure of one extraction, kept typed inside the core so that lock
/// trouble and encoding trouble stay distinguishable; only the outermost
/// boundary flattens it to a string.
#[derive(Debug, PartialEq, Eq)]
pub enum ExtractError {
    /// The mutual-exclusion primitive around the platform handle reported a
    /// broken state.  The guard serializes access through a verified lock
    /// that has no poisoned state, so its extraction never produces this
    /// variant; it remains part of the boundary contract because the error
    /// taxonomy distinguishes lock trouble from encoding trouble.
    LockFailure(String),
    /// The raw bitmap could not be converted to the target image format.
    /// The payload names the encoding step's own description of the trouble.
    EncodingFailure(String),
}

/// The marker that identifies a failure of the encoding step in a flat
/// error message.
pub open spec fn encoding_marker() -> Seq<char> {
    "Failed to encode icon as PNG: "@
}

/// The marker that identifies a failed construction of the platform
/// resource in a flat error message.
pub open spec fn init_marker() -> Seq<char> {
    "Failed to initialize customization context: "@
}

/// The flat, human-readable form of a failure, exactly as it crosses the
/// boundary: a lock failure passes its description through unchanged, an
/// encoding failure is prefixed with the encoding marker.
pub open spec fn flat_message(e: ExtractError) -> Seq<char> {
    match e {
        ExtractError::LockFailure(d) => d@,
        ExtractError::EncodingFailure(d) => encoding_marker() + d@,
    }
}

/// True of a flat message that begins with the encoding-step marker.
pub open spec fn carries_encoding_marker(m: Seq<char>) -> bool {
    m.len() >= encoding_marker().len() && m.subrange(0, encoding_marker().len() as int)
        == encoding_marker()
}

/// True of a flat message that begins with the initialization marker.
pub open spec fn carries_init_marker(m: Seq<char>) -> bool {
    m.len() >= init_marker().len() && m.subrange(0, init_marker().len() as int) == init_marker()
}

impl ExtractError {
    /// Flattens the failure into the displayable string that crosses the
    /// boundary.  No structured error type crosses it: the only consumer is
    /// a display layer, not a programmatic retry loop.
    pub fn message(&self) -> (r: String)
        ensures
            r@ == flat_message(*self),
    {
        match self {
            ExtractError::LockFailure(d) => String::from_str(d.as_str()),
            ExtractError::EncodingFailure(d) => String::from_str(
                "Failed to encode icon as PNG: ",
            ).concat(d.as_str()),
        }
    }
}

/// Concatenation keeps its left operand as a prefix.
pub proof fn lemma_prefix_of_concat(a: Seq<char>, b: Seq<char>)
    ensures
        (a + b).len() >= a.len(),
        (a + b).subrange(0, a.len() as int) == a,
{
    assert((a + b).subrange(0, a.len() as int) =~= a);
}

/// Error transparency: whenever the encoding step fails, the flat message
/// that reaches the caller is exactly the encoding marker followed by the
/// encoder's own description — an identifiable marker, never a success
/// payload and never a silently rewritten text.
pub proof fn lemma_error_transparency(e: ExtractError)
    requires
        e is EncodingFailure,
    ensures
        flat_message(e) == encoding_marker() + e->EncodingFailure_0@,
        carries_encoding_marker(flat_message(e)),
{
    lemma_prefix_of_concat(encoding_marker(), e->EncodingFailure_0@);
}

} // verus!
