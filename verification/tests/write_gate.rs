use registry_auth::access::{resolve_write_access, WriteAccess, WriteResolution};
use registry_auth::error::AuthError;
use registry_auth::modes::AuthMode;
use registry_auth::oauth::GithubInfo;
use registry_auth::ownership::authorize_write;

#[test]
fn end_to_end_api_key_write_allowed() {
    let mode = AuthMode::ApiKey(vec!["secret".to_string()]);
    let access = match resolve_write_access(&mode, Some("Bearer secret")) {
        WriteResolution::Granted(a) => a,
        _ => panic!("the configured key must grant write access"),
    };
    let r = authorize_write(&access, &"anything".to_string(), &Ok(false), &Ok(Vec::new()));
    assert_eq!(r, Ok(()));
}

#[test]
fn end_to_end_wrong_key_is_unauthorized() {
    let mode = AuthMode::ApiKey(vec!["secret".to_string()]);
    match resolve_write_access(&mode, Some("Bearer wrong")) {
        WriteResolution::Denied(e) => {
            assert_eq!(e, AuthError::CredentialInvalid);
            assert_eq!(e.status(), 401);
        }
        _ => panic!("a wrong key must be denied"),
    }
}

#[test]
fn valid_identity_without_ownership_is_forbidden() {
    let access = WriteAccess::Github(GithubInfo { login: "mallory".to_string(), id: 13 });
    let r = authorize_write(&access, &"alice".to_string(), &Ok(false), &Ok(vec![99]));
    assert_eq!(r, Err(AuthError::PermissionDenied));
    assert_eq!(r.unwrap_err().status(), 403);
}

#[test]
fn gate_keeps_fault_distinct_from_denial() {
    let access = WriteAccess::Github(GithubInfo { login: "alice".to_string(), id: 42 });
    let r = authorize_write(&access, &"alice".to_string(), &Err(registry_auth::ownership::IndexFault), &Ok(Vec::new()));
    assert_eq!(r, Err(AuthError::StorageFault));
}
