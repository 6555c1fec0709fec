use vstd::prelude::*;
use crate::access::WriteAccess;
use crate::error::AuthError;

verus! {

/// The package index could not answer an ownership query. Carried into
/// the policy as a value, so that a storage fault is never mistaken for
/// a denial.
#[derive(Clone, Copy, Debug, PartialEq, Eq, Structural)]
pub struct IndexFault;

/// The case-folded form of a login name.
pub uninterp spec fn folded_login(s: Seq<char>) -> Seq<char>;

/// Relies on str::to_lowercase: the lowercase form depends on the
/// characters alone.
#[verifier::external_body]
fn fold_case(s: &str) -> (r: String)
    ensures
        r@ == folded_login(s@),
{
    s.to_lowercase()
}

/// The view of an index answer that lists a scope's owners.
pub open spec fn owners_view(owners: &Result<Vec<u64>, IndexFault>) -> Result<Seq<u64>, IndexFault> {
    match owners {
        Result::Ok(list) => Result::Ok(list@),
        Result::Err(f) => Result::Err(*f),
    }
}

/// The scope-ownership policy. A key-verified writer owns every scope.
/// An external account may write when the index lists its id as an
/// owner of the scope, or — the first-claim rule — when its case-folded
/// login equals the scope name and the scope has no owners at all. The
/// login comparison is decided before the owner list is consulted, so a
/// fault in the second query is only surfaced when the login matches.
/// An index fault is an error of its own, never a denial.
pub open spec fn can_write_outcome(
    access: &WriteAccess,
    scope: Seq<char>,
    owner_listed: Result<bool, IndexFault>,
    owners: Result<Seq<u64>, IndexFault>,
) -> Result<bool, AuthError> {
    match access {
        WriteAccess::ApiKey => Result::Ok(true),
        WriteAccess::Github(info) => match owner_listed {
            Result::Err(_) => Result::Err(AuthError::StorageFault),
            Result::Ok(listed) => if listed {
                Result::Ok(true)
            } else if folded_login(info.login@) == scope {
                match owners {
                    Result::Err(_) => Result::Err(AuthError::StorageFault),
                    Result::Ok(list) => Result::Ok(list.len() == 0),
                }
            } else {
                Result::Ok(false)
            },
        },
    }
}

impl WriteAccess {
    /// Decides whether this identity may write to `scope`.
    ///
    /// The two index answers are taken as values: `owner_listed` is
    /// whether the index lists this identity's numeric id as an owner
    /// of `scope`, and `owners` is the scope's full owner list.
    /// Ownership is keyed by numeric id, never by login, so that a
    /// login rename cannot confuse identities.
    pub fn can_write_package(
        &self,
        scope: &String,
        owner_listed: &Result<bool, IndexFault>,
        owners: &Result<Vec<u64>, IndexFault>,
    ) -> (r: Result<bool, AuthError>)
        ensures
            r == can_write_outcome(self, scope@, *owner_listed, owners_view(owners)),
    {
        match self {
            WriteAccess::ApiKey => Result::Ok(true),
            WriteAccess::Github(info) => match owner_listed {
                Result::Err(_) => Result::Err(AuthError::StorageFault),
                Result::Ok(listed) => {
                    if *listed {
                        Result::Ok(true)
                    } else {
                        let folded = fold_case(info.login.as_str());
                        if folded == *scope {
                            match owners {
                                Result::Err(_) => Result::Err(AuthError::StorageFault),
                                Result::Ok(list) => Result::Ok(list.len() == 0),
                            }
                        } else {
                            Result::Ok(false)
                        }
                    }
                },
            },
        }
    }
}

/// The final decision of the authorization gate: a policy denial
/// becomes a forbidden error, while faults keep their own class.
pub open spec fn gate_outcome(
    access: &WriteAccess,
    scope: Seq<char>,
    owner_listed: Result<bool, IndexFault>,
    owners: Result<Seq<u64>, IndexFault>,
) -> Result<(), AuthError> {
    match can_write_outcome(access, scope, owner_listed, owners) {
        Result::Ok(allowed) => if allowed {
            Result::Ok(())
        } else {
            Result::Err(AuthError::PermissionDenied)
        },
        Result::Err(e) => Result::Err(e),
    }
}

/// Combines a resolved write identity with the scope-ownership policy
/// into a final allow or deny for one package write.
pub fn authorize_write(
    access: &WriteAccess,
    scope: &String,
    owner_listed: &Result<bool, IndexFault>,
    owners: &Result<Vec<u64>, IndexFault>,
) -> (r: Result<(), AuthError>)
    ensures
        r == gate_outcome(access, scope@, *owner_listed, owners_view(owners)),
{
    match access.can_write_package(scope, owner_listed, owners) {
        Result::Ok(allowed) => {
            if allowed {
                Result::Ok(())
            } else {
                Result::Err(AuthError::PermissionDenied)
            }
        },
        Result::Err(e) => Result::Err(e),
    }
}

} // verus!
