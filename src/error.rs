//! Errors of a setup operation.

use vstd::prelude::*;
use vstd::string::*;

verus! {

/// What went wrong, in the terms an operator acts on.
#[derive(PartialEq, Eq, Structural, Clone, Copy, Debug)]
pub enum ErrorKind {
    /// The endpoint text is not a well-formed URL.
    InvalidEndpoint,
    /// An argument that must not be empty is empty.
    InvalidArgument,
    /// No session could be established, or the transport failed.
    ConnectionError,
    /// The guardian rejected the password.
    AuthenticationFailure,
    /// The guardian refused the operation or answered unexpectedly.
    RemoteProtocolError,
}

/// An error with the step that failed (`context`) and the cause (`detail`).
#[derive(PartialEq, Eq, Clone, Debug)]
pub struct SetupError {
    pub kind: ErrorKind,
    pub context: String,
    pub detail: String,
}

impl SetupError {
    /// This error is of `kind`, with these texts.
    pub open spec fn is(self, kind: ErrorKind, context: Seq<char>, detail: Seq<char>) -> bool {
        &&& self.kind == kind
        &&& self.context@ == context
        &&& self.detail@ == detail
    }

    /// The message shown to an operator.
    pub open spec fn message_of(self) -> Seq<char> {
        self.context@ + ": "@ + self.detail@
    }

    /// The message shown to an operator: the failed step, then the cause.
    pub fn message(&self) -> (r: String)
        ensures
            r@ == self.message_of(),
    {
        let mut out = self.context.clone();
        out.append(": ");
        out.append(self.detail.as_str());
        out
    }
}

} // verus!
