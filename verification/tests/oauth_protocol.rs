use registry_auth::access::WriteAccess;
use registry_auth::error::AuthError;
use registry_auth::oauth::{
    resolve_identity, validate_app_token, verify_github_token, AppCheckReply, GithubInfo,
    IdentityReply, ValidatedGithubApp, ValidatedGithubInfo,
};

fn identity(login: &str, id: u64) -> GithubInfo {
    GithubInfo { login: login.to_string(), id }
}

fn record() -> ValidatedGithubInfo {
    ValidatedGithubInfo { id: 42, app: ValidatedGithubApp { client_id: "app".to_string() } }
}

#[test]
fn identity_transport_failure_is_internal() {
    let r = resolve_identity(IdentityReply::TransportFailure);
    assert_eq!(r.as_ref().unwrap_err(), &AuthError::UpstreamTransportFailure);
    assert_eq!(r.unwrap_err().status(), 500);
}

#[test]
fn identity_undecodable_body_is_bad_credentials() {
    let r = resolve_identity(IdentityReply::Undecodable);
    assert_eq!(r.as_ref().unwrap_err(), &AuthError::CredentialInvalid);
    assert_eq!(r.unwrap_err().status(), 401);
}

#[test]
fn identity_decodes_to_the_account() {
    let r = resolve_identity(IdentityReply::Identity(identity("octocat", 583231)));
    let info = r.unwrap();
    assert_eq!(info.login(), "octocat");
    assert_eq!(*info.id(), 583231);
}

#[test]
fn unprocessable_status_is_bad_credentials() {
    let r = validate_app_token(&AppCheckReply::Response { status: 422, record: None });
    assert_eq!(r, Err(AuthError::CredentialInvalid));
    assert_eq!(r.unwrap_err().status(), 401);
}

#[test]
fn server_error_status_is_unexpected_response() {
    let r = validate_app_token(&AppCheckReply::Response { status: 500, record: None });
    assert_eq!(r, Err(AuthError::ProviderUnexpectedResponse));
    assert_eq!(r.unwrap_err().status(), 422);
}

#[test]
fn other_statuses_are_unexpected_responses() {
    for status in [201u16, 204, 301, 404, 403] {
        let r = validate_app_token(&AppCheckReply::Response { status, record: None });
        assert_eq!(r, Err(AuthError::ProviderUnexpectedResponse));
    }
}

#[test]
fn success_status_with_record_passes() {
    let r = validate_app_token(&AppCheckReply::Response { status: 200, record: Some(record()) });
    assert_eq!(r, Ok(()));
}

#[test]
fn success_status_without_record_is_bad_credentials() {
    let r = validate_app_token(&AppCheckReply::Response { status: 200, record: None });
    assert_eq!(r, Err(AuthError::CredentialInvalid));
}

#[test]
fn app_check_transport_failure_is_internal() {
    let r = validate_app_token(&AppCheckReply::TransportFailure);
    assert_eq!(r, Err(AuthError::UpstreamTransportFailure));
}

#[test]
fn verification_needs_both_steps() {
    let ok_identity = IdentityReply::Identity(identity("octocat", 583231));
    let ok_check = AppCheckReply::Response { status: 200, record: Some(record()) };

    match verify_github_token(ok_identity.clone(), &ok_check) {
        Ok(WriteAccess::Github(info)) => {
            assert_eq!(info.login(), "octocat");
            assert_eq!(*info.id(), 583231);
        }
        _ => panic!("both steps passed, a write identity is owed"),
    }

    let r = verify_github_token(IdentityReply::Undecodable, &ok_check);
    assert!(matches!(r, Err(AuthError::CredentialInvalid)));

    let failed_check = AppCheckReply::Response { status: 422, record: None };
    let r = verify_github_token(ok_identity, &failed_check);
    assert!(matches!(r, Err(AuthError::CredentialInvalid)));
}

#[test]
fn identity_error_wins_over_app_check_error() {
    let r = verify_github_token(IdentityReply::TransportFailure, &AppCheckReply::Response {
        status: 422,
        record: None,
    });
    assert!(matches!(r, Err(AuthError::UpstreamTransportFailure)));
}
