use vstd::prelude::*;
use crate::error::AuthError;
use crate::keys::{api_key_outcome, match_api_key};
use crate::modes::AuthMode;
use crate::oauth::GithubInfo;
use crate::token::{extract_bearer_token, header_token, header_view};

verus! {

/// The outcome of a read check: either no identity at all, or an
/// opaque key-verified caller.
#[derive(Clone, Copy, Debug, PartialEq, Eq, Structural)]
pub enum ReadAccess {
    Public,
    ApiKey,
}

/// The outcome of a write check: an opaque key-verified caller,
/// treated as globally privileged, or a specific external account.
#[derive(Clone)]
pub enum WriteAccess {
    ApiKey,
    Github(GithubInfo),
}

/// What the write resolver decided. In OAuth mode the resolver cannot
/// finish on its own: it hands back the bearer token that still must be
/// verified against the identity provider.
pub enum WriteResolution {
    /// The caller may write.
    Granted(WriteAccess),
    /// The caller may not write.
    Denied(AuthError),
    /// The caller presented this token; the two-step provider protocol
    /// decides the rest.
    OauthPending(String),
}

/// The write resolver's decision at the specification level; the
/// pending variant carries the token still to be verified.
pub enum WriteOutcome {
    Granted(WriteAccess),
    Denied(AuthError),
    OauthPending(Seq<char>),
}

impl WriteResolution {
    /// The decision this resolution stands for.
    pub open spec fn outcome(&self) -> WriteOutcome {
        match self {
            WriteResolution::Granted(a) => WriteOutcome::Granted(*a),
            WriteResolution::Denied(e) => WriteOutcome::Denied(*e),
            WriteResolution::OauthPending(t) => WriteOutcome::OauthPending(t@),
        }
    }
}

/// The read decision for a mode and an `authorization` header: reads
/// are public except where a read key set is configured, and are never
/// gated on OAuth.
pub open spec fn read_outcome(mode: &AuthMode, header: Option<Seq<char>>) -> Result<
    ReadAccess,
    AuthError,
> {
    match mode {
        AuthMode::Unauthenticated => Result::Ok(ReadAccess::Public),
        AuthMode::GithubOAuth { .. } => Result::Ok(ReadAccess::Public),
        AuthMode::ApiKey(keys) => match api_key_outcome(keys.deep_view(), header) {
            Result::Ok(_) => Result::Ok(ReadAccess::ApiKey),
            Result::Err(e) => Result::Err(e),
        },
        AuthMode::DoubleApiKey { read, .. } => match read {
            Option::None => Result::Ok(ReadAccess::Public),
            Option::Some(keys) => match api_key_outcome(keys.deep_view(), header) {
                Result::Ok(_) => Result::Ok(ReadAccess::ApiKey),
                Result::Err(e) => Result::Err(e),
            },
        },
    }
}

/// Decides read access for the active mode and the request's
/// `authorization` header value.
pub fn resolve_read_access(mode: &AuthMode, header: Option<&str>) -> (r: Result<
    ReadAccess,
    AuthError,
>)
    ensures
        r == read_outcome(mode, header_view(header)),
{
    match mode {
        AuthMode::Unauthenticated => Result::Ok(ReadAccess::Public),
        AuthMode::GithubOAuth { .. } => Result::Ok(ReadAccess::Public),
        AuthMode::ApiKey(keys) => match_api_key(header, keys, ReadAccess::ApiKey),
        AuthMode::DoubleApiKey { read, .. } => match read {
            Option::None => Result::Ok(ReadAccess::Public),
            Option::Some(keys) => match_api_key(header, keys, ReadAccess::ApiKey),
        },
    }
}

/// The write decision for a mode and an `authorization` header: writes
/// are never public, and in OAuth mode a present token leaves the
/// decision pending on the provider protocol.
pub open spec fn write_outcome(mode: &AuthMode, header: Option<Seq<char>>) -> WriteOutcome {
    match mode {
        AuthMode::Unauthenticated => WriteOutcome::Denied(AuthError::CredentialInvalid),
        AuthMode::ApiKey(keys) => match api_key_outcome(keys.deep_view(), header) {
            Result::Ok(_) => WriteOutcome::Granted(WriteAccess::ApiKey),
            Result::Err(e) => WriteOutcome::Denied(e),
        },
        AuthMode::DoubleApiKey { write, .. } => match api_key_outcome(write.deep_view(), header) {
            Result::Ok(_) => WriteOutcome::Granted(WriteAccess::ApiKey),
            Result::Err(e) => WriteOutcome::Denied(e),
        },
        AuthMode::GithubOAuth { .. } => match header_token(header) {
            Option::None => WriteOutcome::Denied(AuthError::CredentialMissing),
            Option::Some(t) => WriteOutcome::OauthPending(t),
        },
    }
}

/// Decides write access for the active mode and the request's
/// `authorization` header value, as far as it can be decided without
/// the identity provider.
pub fn resolve_write_access(mode: &AuthMode, header: Option<&str>) -> (r: WriteResolution)
    ensures
        r.outcome() == write_outcome(mode, header_view(header)),
{
    match mode {
        AuthMode::Unauthenticated => WriteResolution::Denied(AuthError::CredentialInvalid),
        AuthMode::ApiKey(keys) => match match_api_key(header, keys, ()) {
            Result::Ok(_) => WriteResolution::Granted(WriteAccess::ApiKey),
            Result::Err(e) => WriteResolution::Denied(e),
        },
        AuthMode::DoubleApiKey { write, .. } => match match_api_key(header, write, ()) {
            Result::Ok(_) => WriteResolution::Granted(WriteAccess::ApiKey),
            Result::Err(e) => WriteResolution::Denied(e),
        },
        AuthMode::GithubOAuth { .. } => match extract_bearer_token(header) {
            Result::Ok(token) => WriteResolution::OauthPending(token),
            Result::Err(e) => WriteResolution::Denied(e),
        },
    }
}

} // verus!
