use vstd::prelude::*;

verus! {

/// Why an access token could not be obtained.
#[derive(Debug, Clone, PartialEq, Eq)]
pub enum TokenError {
    /// The underlying authenticator failed (network, credentials, consent).
    Authentication(String),
    /// A previous holder of the authenticator's lock panicked.
    LockPoisoned,
    /// No execution context could be started to drive the request.
    Runtime(String),
}

/// Provides an OAuth2 bearer token to API clients.
///
/// `async_access_token` is the one source of truth: it may suspend while the
/// underlying authenticator talks to the network or waits for consent. Driving
/// it to completion on the calling thread is left to an explicit adapter,
/// which must not be used from inside a running asynchronous task.
pub trait GetAccessToken: core::fmt::Debug + Send + Sync {
    /// Returns a currently valid token (not necessarily the same string twice).
    /// The pending request. It owns what it needs (a handle to the
    /// authenticator copied out of any lock), so no exclusive section is
    /// held while it is suspended.
    type TokenFuture: core::future::Future<Output = Result<String, TokenError>> + Send;

    fn async_access_token(&self) -> Self::TokenFuture;
}

} // verus!
