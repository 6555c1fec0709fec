use vstd::prelude::*;

verus! {

/// Failure classes of the authentication and authorization layer.
///
/// Every failure this crate reports belongs to exactly one of these
/// classes; `status` gives the HTTP-style code under which it is
/// surfaced to the caller. The distinction between credential failures
/// and upstream faults is deliberate: a provider outage or an index
/// fault must never be reported as "invalid credentials".
#[derive(Clone, Copy, Debug, PartialEq, Eq, Structural)]
pub enum AuthError {
    /// No bearer credential was presented where one is required.
    CredentialMissing,
    /// A credential was presented but does not match any configured key,
    /// or the identity provider rejected it.
    CredentialInvalid,
    /// The identity provider answered with a status outside its
    /// documented success/failure set.
    ProviderUnexpectedResponse,
    /// The outbound call to the identity provider could not complete.
    UpstreamTransportFailure,
    /// The identity is valid but lacks ownership of the target scope.
    PermissionDenied,
    /// The package index could not answer an ownership query.
    StorageFault,
}

impl AuthError {
    /// The HTTP status code under which this failure is surfaced.
    pub open spec fn spec_status(&self) -> u16 {
        match self {
            AuthError::CredentialMissing => 401,
            AuthError::CredentialInvalid => 401,
            AuthError::ProviderUnexpectedResponse => 422,
            AuthError::UpstreamTransportFailure => 500,
            AuthError::PermissionDenied => 403,
            AuthError::StorageFault => 500,
        }
    }

    /// Returns the HTTP status code for this failure.
    pub fn status(&self) -> (code: u16)
        ensures
            code == self.spec_status(),
    {
        match self {
            AuthError::CredentialMissing => 401,
            AuthError::CredentialInvalid => 401,
            AuthError::ProviderUnexpectedResponse => 422,
            AuthError::UpstreamTransportFailure => 500,
            AuthError::PermissionDenied => 403,
            AuthError::StorageFault => 500,
        }
    }
}

} // verus!
