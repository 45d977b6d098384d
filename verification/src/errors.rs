//! The typed failure value shared by every fallible operation of the client.
//!
//! Server rejections carry the envelope code verbatim; failures that never
//! reach the server carry one of a small set of reserved internal codes,
//! chosen outside the range of codes the platform issues.

use vstd::prelude::*;
use vstd::string::StringExecFns;

verus! {

/// Typed failure: an envelope code (the server's, or a reserved internal one)
/// together with a human-readable message.
#[derive(Debug, Clone)]
pub struct APIError {
    pub code: String,
    pub message: String,
}

impl APIError {
    /// Wraps an underlying network or connection failure.
    /// Uses the fixed internal code reserved for transport failures,
    /// distinct from any server-issued code.
    pub fn transport_failure(message: String) -> (r: APIError)
        ensures
            r.code@ == "800"@,
            r.message@ == message@,
    {
        APIError { code: String::from_str("800"), message }
    }

    /// One line describing the failure, for logs and interactive output.
    pub fn describe(&self) -> (r: String)
        ensures
            r@ == "request api error, code: "@ + self.code@ + ", message "@ + self.message@,
    {
        let mut r = String::from_str("request api error, code: ");
        r.append(self.code.as_str());
        r.append(", message ");
        r.append(self.message.as_str());
        r
    }
}

} // verus!
