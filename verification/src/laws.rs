use vstd::prelude::*;
use crate::access::{read_outcome, write_outcome, ReadAccess, WriteAccess, WriteOutcome};
use crate::error::AuthError;
use crate::keys::{api_key_outcome, key_set_matches};
use crate::modes::AuthMode;
use crate::oauth::{
    app_check_outcome, identity_outcome, verify_outcome, AppCheckReply, IdentityReply,
    ValidatedGithubInfo,
};
use crate::ownership::{can_write_outcome, IndexFault};
use crate::token::header_token;

verus! {

/// Matching an `authorization` header against a configured key set
/// succeeds exactly when a bearer token is present and is equal to some
/// element of the set; the header is reported missing exactly when no
/// bearer token is present.
pub proof fn lemma_api_key_match_iff(keys: Seq<Seq<char>>, header: Option<Seq<char>>)
    ensures
        api_key_outcome(keys, header) is Ok <==> (header_token(header) matches Some(t)
            && key_set_matches(keys, t)),
        api_key_outcome(keys, header) == Result::Err::<(), AuthError>(AuthError::CredentialMissing)
            <==> header_token(header) is None,
{
}

/// Without authentication configured, every read is public, whatever
/// the request carries.
pub proof fn lemma_unauthenticated_read_public(header: Option<Seq<char>>)
    ensures
        read_outcome(&AuthMode::Unauthenticated, header) == Result::Ok::<ReadAccess, AuthError>(
            ReadAccess::Public,
        ),
{
}

/// Without authentication configured, every write is denied as an
/// invalid credential, whatever the request carries.
pub proof fn lemma_unauthenticated_write_denied(header: Option<Seq<char>>)
    ensures
        write_outcome(&AuthMode::Unauthenticated, header) == WriteOutcome::Denied(
            AuthError::CredentialInvalid,
        ),
{
}

/// With no read key set configured in double-key mode, every read is
/// public, whatever the request carries.
pub proof fn lemma_double_key_reads_public(write_keys: Vec<String>, header: Option<Seq<char>>)
    ensures
        read_outcome(
            &AuthMode::DoubleApiKey { read: Option::None, write: write_keys },
            header,
        ) == Result::Ok::<ReadAccess, AuthError>(ReadAccess::Public),
{
}

/// A key-verified writer may write to every scope, whatever the index
/// says about it.
pub proof fn lemma_api_key_writer_owns_all(
    scope: Seq<char>,
    owner_listed: Result<bool, IndexFault>,
    owners: Result<Seq<u64>, IndexFault>,
)
    ensures
        can_write_outcome(&WriteAccess::ApiKey, scope, owner_listed, owners) == Result::Ok::<
            bool,
            AuthError,
        >(true),
{
}

/// The provider's documented "unprocessable" rejection of the
/// application-token check is a credential failure, not an unexpected
/// response.
pub proof fn lemma_unprocessable_is_credential_failure(record: Option<ValidatedGithubInfo>)
    ensures
        app_check_outcome(AppCheckReply::Response { status: 422, record }) == Result::Err::<
            (),
            AuthError,
        >(AuthError::CredentialInvalid),
{
}

/// Any application-token-check status outside the documented pass and
/// rejection statuses is an unexpected provider response.
pub proof fn lemma_unexpected_status(status: u16, record: Option<ValidatedGithubInfo>)
    requires
        status != 200,
        status != 422,
    ensures
        app_check_outcome(AppCheckReply::Response { status, record }) == Result::Err::<
            (),
            AuthError,
        >(AuthError::ProviderUnexpectedResponse),
{
}

/// An external write identity comes out of the verifier only when both
/// protocol steps passed, and it carries exactly the account that the
/// identity step resolved.
pub proof fn lemma_identity_requires_both_steps(identity: IdentityReply, app_check: AppCheckReply)
    ensures
        verify_outcome(identity, app_check) matches Ok(access) ==> (access matches
            WriteAccess::Github(info) && identity_outcome(identity) == Result::Ok::<
            _,
            AuthError,
        >(info) && app_check_outcome(app_check) is Ok),
{
}

} // verus!
