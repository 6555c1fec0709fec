use vstd::prelude::*;

verus! {

/// The process-wide authentication configuration, chosen once at
/// startup and never mutated afterwards.
pub enum AuthMode {
    /// One set of bearer keys, shared by reads and writes.
    ApiKey(Vec<String>),
    /// Independent key sets; an absent read set means reads are public.
    DoubleApiKey { read: Option<Vec<String>>, write: Vec<String> },
    /// Reads are public; writes require a verified OAuth identity for
    /// the registry's own application.
    GithubOAuth { client_id: String, client_secret: String },
    /// Reads are public; all writes are denied.
    Unauthenticated,
}

impl AuthMode {
    /// A short name for the mode, naming no key material.
    pub open spec fn spec_describe(&self) -> Seq<char> {
        match self {
            AuthMode::ApiKey(_) => "API key"@,
            AuthMode::DoubleApiKey { .. } => "double API key"@,
            AuthMode::GithubOAuth { .. } => "Github OAuth"@,
            AuthMode::Unauthenticated => "no authentication"@,
        }
    }

    /// Returns a short name for the mode. No key or secret ever appears
    /// in the result.
    pub fn describe(&self) -> (r: String)
        ensures
            r@ == self.spec_describe(),
    {
        match self {
            AuthMode::ApiKey(_) => "API key".to_owned(),
            AuthMode::DoubleApiKey { .. } => "double API key".to_owned(),
            AuthMode::GithubOAuth { .. } => "Github OAuth".to_owned(),
            AuthMode::Unauthenticated => "no authentication".to_owned(),
        }
    }
}

} // verus!
