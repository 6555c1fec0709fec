use registry_auth::error::AuthError;
use registry_auth::keys::match_api_key;

fn keys(names: &[&str]) -> Vec<String> {
    names.iter().map(|s| s.to_string()).collect()
}

#[test]
fn matching_key_succeeds() {
    let k = keys(&["secret"]);
    let r = match_api_key(Some("Bearer secret"), &k, 1u32);
    assert_eq!(r, Ok(1u32));
}

#[test]
fn any_listed_key_matches() {
    let k = keys(&["first", "second", "third"]);
    assert_eq!(match_api_key(Some("Bearer second"), &k, ()), Ok(()));
    assert_eq!(match_api_key(Some("Bearer third"), &k, ()), Ok(()));
}

#[test]
fn missing_header_is_credential_missing() {
    let k = keys(&["secret"]);
    let r = match_api_key(None, &k, ());
    assert_eq!(r, Err(AuthError::CredentialMissing));
    assert_eq!(r.unwrap_err().status(), 401);
}

#[test]
fn wrong_scheme_is_credential_missing() {
    let k = keys(&["secret"]);
    assert_eq!(match_api_key(Some("Basic secret"), &k, ()), Err(AuthError::CredentialMissing));
    assert_eq!(match_api_key(Some("secret"), &k, ()), Err(AuthError::CredentialMissing));
    assert_eq!(match_api_key(Some("Bearer"), &k, ()), Err(AuthError::CredentialMissing));
}

#[test]
fn equal_length_near_miss_keys_fail() {
    // Near-miss keys of equal length: a mismatch anywhere in the key
    // must fail the same way as one at the start.
    let k = keys(&["aaaaaaaa", "aaaaaaab", "baaaaaaa"]);
    let r = match_api_key(Some("Bearer aaaaaaac"), &k, ());
    assert_eq!(r, Err(AuthError::CredentialInvalid));
    assert_eq!(r.unwrap_err().status(), 401);
}

#[test]
fn token_is_trimmed_before_matching() {
    let k = keys(&["secret"]);
    assert_eq!(match_api_key(Some("Bearer   secret"), &k, ()), Ok(()));
    assert_eq!(match_api_key(Some("Bearer secret   "), &k, ()), Ok(()));
    assert_eq!(match_api_key(Some("Bearer \t secret \t"), &k, ()), Ok(()));
}

#[test]
fn prefix_of_key_does_not_match() {
    let k = keys(&["secret"]);
    assert_eq!(match_api_key(Some("Bearer secre"), &k, ()), Err(AuthError::CredentialInvalid));
    assert_eq!(match_api_key(Some("Bearer secrets"), &k, ()), Err(AuthError::CredentialInvalid));
}

#[test]
fn empty_key_set_rejects_everything() {
    let k: Vec<String> = Vec::new();
    assert_eq!(match_api_key(Some("Bearer anything"), &k, ()), Err(AuthError::CredentialInvalid));
}
