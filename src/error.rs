use vstd::prelude::*;

verus! {

/// Why a flow invocation ended without a credential. Every error is final.
#[derive(Debug, Clone, Copy, PartialEq, Eq, Structural)]
pub enum FlowError {
    /// An endpoint or the redirect address does not parse as a URL.
    ConfigInvalid,
    /// The loopback port could not be bound.
    PortUnavailable,
    /// The captured request line is not of the form `GET <target> HTTP/1.x`.
    MalformedRedirect,
    /// The redirect lacks the `code` or the `state` query parameter.
    MissingParameter,
    /// The redirect's `state` differs from the one issued for this flow.
    CsrfMismatch,
    /// The code could not be exchanged for an access token.
    TokenExchangeFailed,
}

} // verus!
