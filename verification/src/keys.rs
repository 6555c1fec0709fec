use vstd::prelude::*;
use crate::error::AuthError;
use crate::token::{extract_bearer_token, header_token, header_view};

verus! {

/// Whether `token` is equal to some element of the configured key set.
pub open spec fn key_set_matches(keys: Seq<Seq<char>>, token: Seq<char>) -> bool {
    exists|i: int| 0 <= i < keys.len() && keys[i] == token
}

/// The outcome of matching an `authorization` header against a key set:
/// a missing or non-bearer header is a missing credential, a bearer
/// token equal to no configured key is an invalid one.
pub open spec fn api_key_outcome(keys: Seq<Seq<char>>, header: Option<Seq<char>>) -> Result<
    (),
    AuthError,
> {
    match header_token(header) {
        Option::Some(t) => if key_set_matches(keys, t) {
            Result::Ok(())
        } else {
            Result::Err(AuthError::CredentialInvalid)
        },
        Option::None => Result::Err(AuthError::CredentialMissing),
    }
}

/// Relies on constant_time_eq::constant_time_eq: returns whether the two
/// byte strings are equal, taking time independent of where they differ.
#[verifier::external_body]
fn constant_time_str_eq(a: &str, b: &str) -> (r: bool)
    ensures
        r == (a@ == b@),
{
    constant_time_eq::constant_time_eq(a.as_bytes(), b.as_bytes())
}

/// Matches the request's bearer credential against the configured key
/// set and hands back `result` on success.
///
/// Succeeds exactly when a bearer token is present and is equal to some
/// element of `keys`; each per-key comparison is performed in constant
/// time, and the token value is never recorded anywhere.
pub fn match_api_key<T>(header: Option<&str>, keys: &Vec<String>, result: T) -> (r: Result<
    T,
    AuthError,
>)
    ensures
        match r {
            Result::Ok(v) => api_key_outcome(keys.deep_view(), header_view(header)) is Ok && v
                == result,
            Result::Err(e) => api_key_outcome(keys.deep_view(), header_view(header))
                == Result::Err::<(), AuthError>(e),
        },
{
    let token = match extract_bearer_token(header) {
        Result::Ok(t) => t,
        Result::Err(e) => {
            return Result::Err(e);
        },
    };
    let n = keys.len();
    let mut i: usize = 0;
    while i < n
        invariant
            n == keys.len(),
            0 <= i <= n,
            header_token(header_view(header)) == Option::Some(token@),
            forall|j: int| 0 <= j < i ==> keys.deep_view()[j] != token@,
        decreases n - i,
    {
        if constant_time_str_eq(keys[i].as_str(), token.as_str()) {
            assert(keys.deep_view()[i as int] == token@);
            return Result::Ok(result);
        }
        i = i + 1;
    }
    Result::Err(AuthError::CredentialInvalid)
}

} // verus!
