use organizator::check_security_middleware::{
    principal_from_subject, resolve, CheckSecurity, Provenance, Resolution, Security,
    CLIENT_SUBJECT_HEADER, LOGIN_PATH, SESSION_USER_KEY,
};
use organizator::errors::{OrganizatorError, Status};

fn resolved(name: &str, provenance: Provenance) -> Resolution {
    Resolution::Resolved { principal: String::from(name), provenance }
}

#[test]
fn names_of_the_request_boundary() {
    assert_eq!(LOGIN_PATH, "/login");
    assert_eq!(SESSION_USER_KEY, "username");
    assert_eq!(CLIENT_SUBJECT_HEADER, "X-SSL-Client-S-DN");
}

#[test]
fn security_from_a_name() {
    let security = Security::from("alice");
    assert_eq!(security.user_name, Some(String::from("alice")));
    assert_eq!(security.get_user_name(), "alice");
}

#[test]
fn security_without_principal_has_the_empty_name() {
    assert_eq!(Security { user_name: None }.get_user_name(), "");
}

#[test]
fn attached_security_is_handed_out() {
    let alice = Security::from("alice");
    assert_eq!(Security::get_security(Some(&alice)), Ok(Security::from("alice")));
}

#[test]
fn missing_security_is_a_failure_not_a_default() {
    assert_eq!(Security::get_security(None), Err(OrganizatorError::Unauthorized));
}

#[test]
fn session_precedes_certificate() {
    assert_eq!(
        resolve("/memo/", Some("alice"), Some("CN=bob")),
        resolved("alice", Provenance::Session)
    );
}

#[test]
fn session_alone_resolves() {
    assert_eq!(resolve("/memo/12", Some("alice"), None), resolved("alice", Provenance::Session));
}

#[test]
fn certificate_is_the_fallback() {
    assert_eq!(
        resolve("/memo/", None, Some("CN=bob")),
        resolved("bob", Provenance::Certificate)
    );
}

#[test]
fn empty_session_user_falls_back_to_the_certificate() {
    assert_eq!(
        resolve("/memo/", Some(""), Some("CN=bob")),
        resolved("bob", Provenance::Certificate)
    );
    assert_eq!(resolve("/memo/", Some(""), None), Resolution::Unauthenticated);
}

#[test]
fn no_source_is_unauthenticated() {
    let resolution = resolve("/memo/", None, None);
    assert_eq!(resolution, Resolution::Unauthenticated);
    assert!(!resolution.forwards());
    assert_eq!(resolution.status(), Some(Status::Unauthorized));
    assert_eq!(resolution.status().unwrap().code(), 401);
}

#[test]
fn login_path_is_exempt() {
    for (session, subject) in
        [(None, None), (Some("alice"), None), (None, Some("CN=bob")), (Some("a"), Some("CN=b"))]
    {
        let resolution = resolve("/login", session, subject);
        assert_eq!(resolution, Resolution::Exempt);
        assert!(resolution.forwards());
        assert_eq!(resolution.status(), None);
    }
}

#[test]
fn only_the_login_path_is_exempt() {
    for path in ["/login/", "/Login", "/logout", "login", "/", "", "/login?x=1"] {
        assert_eq!(resolve(path, None, None), Resolution::Unauthenticated);
    }
}

#[test]
fn resolved_requests_go_on() {
    let resolution = resolve("/file_auth", Some("alice"), None);
    assert!(resolution.forwards());
    assert_eq!(resolution.status(), None);
}

#[test]
fn security_context_of_a_resolution() {
    assert_eq!(
        resolve("/memo/", Some("alice"), None).security(),
        Some(Security::from("alice"))
    );
    assert_eq!(resolve("/memo/", None, Some("CN=bob")).security(), Some(Security::from("bob")));
    assert_eq!(resolve("/memo/", None, None).security(), None);
    assert_eq!(resolve("/login", Some("alice"), None).security(), None);
}

#[test]
fn principal_follows_the_prefix() {
    assert_eq!(principal_from_subject("CN=alice"), Some(String::from("alice")));
    assert_eq!(principal_from_subject("DN=bob,O=org"), Some(String::from("bob,O=org")));
    assert_eq!(principal_from_subject("xyzalice"), Some(String::from("alice")));
    assert_eq!(principal_from_subject("CN=žofie"), Some(String::from("žofie")));
}

#[test]
fn prefix_alone_names_the_empty_principal() {
    assert_eq!(principal_from_subject("CN="), Some(String::new()));
}

#[test]
fn subject_shorter_than_the_prefix_names_nobody() {
    assert_eq!(principal_from_subject(""), None);
    assert_eq!(principal_from_subject("C"), None);
    assert_eq!(principal_from_subject("CN"), None);
    assert_eq!(resolve("/memo/", None, Some("CN")), Resolution::Unauthenticated);
}

#[test]
fn prefix_is_counted_in_characters() {
    assert_eq!(principal_from_subject("žšč"), Some(String::new()));
    assert_eq!(principal_from_subject("žščd"), Some(String::from("d")));
}

#[test]
fn middleware_decides_as_the_resolver() {
    let middleware = CheckSecurity.new_transform(String::from("service"));
    assert_eq!(middleware.service(), "service");
    assert_eq!(
        middleware.call("/memo/", Some("alice"), Some("CN=bob")),
        resolved("alice", Provenance::Session)
    );
    assert_eq!(middleware.call("/memo/", None, None), Resolution::Unauthenticated);
    assert_eq!(middleware.call("/login", None, None), Resolution::Exempt);
}
