use vstd::prelude::*;
use crate::access::WriteAccess;
use crate::error::AuthError;

verus! {

/// An external identity resolved by the identity provider: the login is
/// compared case-insensitively against scope names, while the numeric
/// id — which survives login renames — is the authoritative key for
/// ownership lookups.
#[derive(Clone, Debug)]
pub struct GithubInfo {
    pub login: String,
    pub id: u64,
}

impl GithubInfo {
    /// The account's login name, exactly as the provider returned it.
    pub fn login(&self) -> (r: &str)
        ensures
            r@ == self.login@,
    {
        self.login.as_str()
    }

    /// The account's stable numeric identifier.
    pub fn id(&self) -> (r: &u64)
        ensures
            *r == self.id,
    {
        &self.id
    }
}

/// The consuming application named by a validated-token record.
#[derive(Clone, Debug)]
pub struct ValidatedGithubApp {
    pub client_id: String,
}

/// The record the provider returns when a token is valid for the
/// registry's own application. Its fields are checked for presence
/// only and otherwise discarded.
#[derive(Clone, Debug)]
pub struct ValidatedGithubInfo {
    pub id: u64,
    pub app: ValidatedGithubApp,
}

/// What came back from the provider's current-user endpoint, reduced to
/// the three cases the verifier distinguishes.
#[derive(Clone, Debug)]
pub enum IdentityReply {
    /// The outbound call could not complete.
    TransportFailure,
    /// A reply arrived but its body did not decode as an identity
    /// record; the provider answers a rejected token this way.
    Undecodable,
    /// The body decoded as an identity record.
    Identity(GithubInfo),
}

/// What came back from the provider's application-token-check endpoint.
#[derive(Clone, Debug)]
pub enum AppCheckReply {
    /// The outbound call could not complete.
    TransportFailure,
    /// A reply arrived with the given status; `record` is the decoded
    /// validated-token record, present only when a success body decoded.
    Response { status: u16, record: Option<ValidatedGithubInfo> },
}

/// The classification of a current-user reply: a transport fault is the
/// registry's problem, an undecodable body is the caller's.
pub open spec fn identity_outcome(reply: IdentityReply) -> Result<GithubInfo, AuthError> {
    match reply {
        IdentityReply::TransportFailure => Result::Err(AuthError::UpstreamTransportFailure),
        IdentityReply::Undecodable => Result::Err(AuthError::CredentialInvalid),
        IdentityReply::Identity(info) => Result::Ok(info),
    }
}

/// Classifies the first verification step: resolving the caller's
/// identity from the provider's current-user endpoint.
pub fn resolve_identity(reply: IdentityReply) -> (r: Result<GithubInfo, AuthError>)
    ensures
        r == identity_outcome(reply),
{
    match reply {
        IdentityReply::TransportFailure => Result::Err(AuthError::UpstreamTransportFailure),
        IdentityReply::Undecodable => Result::Err(AuthError::CredentialInvalid),
        IdentityReply::Identity(info) => Result::Ok(info),
    }
}

/// The classification of an application-token-check reply: 200 with a
/// decodable record passes; 200 without one, and the provider's
/// documented "unprocessable" rejection, are credential failures; any
/// other status is an unexpected provider response.
pub open spec fn app_check_outcome(reply: AppCheckReply) -> Result<(), AuthError> {
    match reply {
        AppCheckReply::TransportFailure => Result::Err(AuthError::UpstreamTransportFailure),
        AppCheckReply::Response { status, record } => if status == 200 {
            match record {
                Option::Some(_) => Result::Ok(()),
                Option::None => Result::Err(AuthError::CredentialInvalid),
            }
        } else if status == 422 {
            Result::Err(AuthError::CredentialInvalid)
        } else {
            Result::Err(AuthError::ProviderUnexpectedResponse)
        },
    }
}

/// Classifies the second verification step: checking that the caller's
/// token was issued for the registry's own OAuth application.
pub fn validate_app_token(reply: &AppCheckReply) -> (r: Result<(), AuthError>)
    ensures
        r == app_check_outcome(*reply),
{
    match reply {
        AppCheckReply::TransportFailure => Result::Err(AuthError::UpstreamTransportFailure),
        AppCheckReply::Response { status, record } => {
            if *status == 200 {
                match record {
                    Option::Some(_) => Result::Ok(()),
                    Option::None => Result::Err(AuthError::CredentialInvalid),
                }
            } else if *status == 422 {
                Result::Err(AuthError::CredentialInvalid)
            } else {
                Result::Err(AuthError::ProviderUnexpectedResponse)
            }
        },
    }
}

/// The combined outcome of the two-step protocol. The identity step is
/// decided first; only when both steps pass does a write identity
/// carrying the step-one account come out.
pub open spec fn verify_outcome(identity: IdentityReply, app_check: AppCheckReply) -> Result<
    WriteAccess,
    AuthError,
> {
    match identity_outcome(identity) {
        Result::Err(e) => Result::Err(e),
        Result::Ok(info) => match app_check_outcome(app_check) {
            Result::Err(e) => Result::Err(e),
            Result::Ok(_) => Result::Ok(WriteAccess::Github(info)),
        },
    }
}

/// Combines the two verification steps into a write identity.
///
/// Both steps are necessary: the first only proves the provider
/// accepted some token for its generic user endpoint, the second that
/// the token was issued for this registry's own application.
pub fn verify_github_token(identity: IdentityReply, app_check: &AppCheckReply) -> (r: Result<
    WriteAccess,
    AuthError,
>)
    ensures
        r == verify_outcome(identity, *app_check),
{
    let info = match resolve_identity(identity) {
        Result::Err(e) => {
            return Result::Err(e);
        },
        Result::Ok(info) => info,
    };
    match validate_app_token(app_check) {
        Result::Err(e) => Result::Err(e),
        Result::Ok(_) => Result::Ok(WriteAccess::Github(info)),
    }
}

} // verus!
