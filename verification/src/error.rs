//! Errors surfaced by browsing and registration.
//!
//! Every failing stage of an in-flight operation is funneled into the same
//! error value, carrying the backend's numeric code verbatim; `message`
//! renders the human-readable text that embeds that code.

use vstd::prelude::*;
use crate::render::dec_signed_of;
use crate::render::signed_decimal_string;

verus! {

/// The stage of an operation that reported a failure.
#[derive(Clone, Copy, Debug, PartialEq, Eq, Structural)]
pub enum Stage {
    /// The standing watch for services of a type.
    Browse,
    /// Host and port resolution of a discovered service instance.
    Resolve,
    /// Address resolution of the host target.
    GetAddressInfo,
    /// Service registration.
    Register,
}

/// An error delivered to the caller, either from issuing a request or from a
/// stage callback that reported a nonzero code.
#[derive(Clone, Copy, Debug, PartialEq, Eq, Structural)]
pub enum DiscoveryError {
    /// The service type or name string cannot be represented for the backend
    /// (it holds a NUL character).
    InvalidServiceType,
    /// The initial request could not be issued; the backend rejected it with
    /// the given code.
    BackendUnavailable { code: i32 },
    /// A stage callback reported the given nonzero code.
    StageError { stage: Stage, code: i32 },
}

/// The message prefix for a failure of the given stage.
pub open spec fn stage_prefix(stage: Stage) -> Seq<char> {
    match stage {
        Stage::Browse => "browse_callback() reported error (code: "@,
        Stage::Resolve => "error reported by resolve_callback: (code: "@,
        Stage::GetAddressInfo => "get_address_info_callback() reported error (code: "@,
        Stage::Register => "register_callback() reported error (code: "@,
    }
}

/// The full human-readable message for an error.
pub open spec fn message_of(e: DiscoveryError) -> Seq<char> {
    match e {
        DiscoveryError::InvalidServiceType => "string cannot be represented as a C string"@,
        DiscoveryError::BackendUnavailable { code } => "failed to issue request (code: "@
            + dec_signed_of(code as int) + ")"@,
        DiscoveryError::StageError { stage, code } => stage_prefix(stage) + dec_signed_of(
            code as int,
        ) + ")"@,
    }
}

impl DiscoveryError {
    /// Renders the message for this error, embedding the backend code.
    pub fn message(&self) -> (r: String)
        ensures
            r@ == message_of(*self),
    {
        match self {
            DiscoveryError::InvalidServiceType => String::from_str(
                "string cannot be represented as a C string",
            ),
            DiscoveryError::BackendUnavailable { code } => String::from_str(
                "failed to issue request (code: ",
            ).concat(signed_decimal_string(*code).as_str()).concat(")"),
            DiscoveryError::StageError { stage, code } => {
                let prefix = match stage {
                    Stage::Browse => "browse_callback() reported error (code: ",
                    Stage::Resolve => "error reported by resolve_callback: (code: ",
                    Stage::GetAddressInfo => "get_address_info_callback() reported error (code: ",
                    Stage::Register => "register_callback() reported error (code: ",
                };
                String::from_str(prefix).concat(signed_decimal_string(*code).as_str()).concat(")")
            },
        }
    }
}

/// Whether `s` holds a NUL character, and so cannot be handed to the
/// backend as a C string.
pub open spec fn has_nul(s: Seq<char>) -> bool {
    exists|i: int| 0 <= i < s.len() && s[i] == '\0'
}

/// Checks a string for NUL characters before it crosses the C boundary.
pub fn contains_nul(s: &str) -> (r: bool)
    ensures
        r == has_nul(s@),
{
    let len = s.unicode_len();
    let mut i: usize = 0;
    while i < len
        invariant
            i <= len,
            len == s@.len(),
            forall|j: int| 0 <= j < i ==> s@[j] != '\0',
        decreases len - i,
    {
        if s.get_char(i) == '\0' {
            proof {
                assert(has_nul(s@)) by {
                    assert(s@[i as int] == '\0');
                }
            }
            return true;
        }
        i = i + 1;
    }
    false
}

} // verus!
