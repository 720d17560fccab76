use krust::auth::{default_key_candidates, AuthMethod, SshAuth};
use krust::config::parse_duration;
use krust::host::SshHost;
use krust::session::{agent_failure_message, auth_failure_message};

#[test]
fn durations_with_units() {
    assert_eq!(parse_duration("30s").unwrap(), 30);
    assert_eq!(parse_duration("5m").unwrap(), 300);
    assert_eq!(parse_duration("1h").unwrap(), 3600);
    assert_eq!(parse_duration("45").unwrap(), 45);
    assert_eq!(parse_duration("30S").unwrap(), 30);
    assert_eq!(parse_duration("2H").unwrap(), 7200);
}

#[test]
fn malformed_durations_are_rejected() {
    assert_eq!(parse_duration("abc").unwrap_err(), "Invalid duration: abc");
    assert_eq!(parse_duration("").unwrap_err(), "Invalid duration: ");
    assert_eq!(parse_duration("-5s").unwrap_err(), "Invalid duration: -5s");
    assert_eq!(
        parse_duration("99999999999999999999s").unwrap_err(),
        "Invalid duration: 99999999999999999999s"
    );
    // In range as a count, but the unit multiplication would overflow.
    assert_eq!(
        parse_duration("18446744073709551615h").unwrap_err(),
        "Invalid duration: 18446744073709551615h"
    );
}

fn resolve(
    password: Option<&str>,
    key_file: Option<&str>,
    use_agent: bool,
    candidates: &[&str],
    exists: &[bool],
) -> AuthMethod {
    let auth = SshAuth::new(
        "op".to_string(),
        password.map(|s| s.to_string()),
        key_file.map(|s| s.to_string()),
        use_agent,
        &candidates.iter().map(|s| s.to_string()).collect(),
        &exists.to_vec(),
    )
    .unwrap();
    assert_eq!(auth.user, "op");
    auth.method
}

#[test]
fn explicit_password_wins() {
    match resolve(Some("pw"), Some("/keys/id"), true, &[], &[]) {
        AuthMethod::Password(p) => assert_eq!(p, "pw"),
        _ => panic!("expected the password"),
    }
}

#[test]
fn key_file_when_no_password() {
    match resolve(None, Some("/keys/id"), true, &[], &[]) {
        AuthMethod::KeyFile(p) => assert_eq!(p, "/keys/id"),
        _ => panic!("expected the explicit key"),
    }
}

#[test]
fn agent_when_allowed_and_no_password() {
    assert!(matches!(resolve(None, None, true, &[], &[]), AuthMethod::Agent));
}

#[test]
fn password_when_agent_not_allowed() {
    match resolve(Some("secret"), None, false, &[], &[]) {
        AuthMethod::Password(p) => assert_eq!(p, "secret"),
        _ => panic!("expected the password"),
    }
}

#[test]
fn first_existing_default_key_is_used() {
    let candidates = ["/h/.ssh/id_rsa", "/h/.ssh/id_ed25519", "/h/.ssh/id_ecdsa"];
    match resolve(None, None, false, &candidates, &[false, true, true]) {
        AuthMethod::KeyFile(p) => assert_eq!(p, "/h/.ssh/id_ed25519"),
        _ => panic!("expected a default key"),
    }
}

#[test]
fn agent_is_the_last_resort() {
    let candidates = ["/h/.ssh/id_rsa", "/h/.ssh/id_ed25519", "/h/.ssh/id_ecdsa"];
    assert!(matches!(
        resolve(None, None, false, &candidates, &[false, false, false]),
        AuthMethod::Agent
    ));
}

#[test]
fn default_candidates_are_probed_in_order() {
    let c = default_key_candidates("/home/op");
    assert_eq!(
        c,
        vec![
            "/home/op/.ssh/id_rsa".to_string(),
            "/home/op/.ssh/id_ed25519".to_string(),
            "/home/op/.ssh/id_ecdsa".to_string(),
        ]
    );
}

#[test]
fn address_renders_hostname_and_port() {
    let h = SshHost { hostname: "a.example".to_string(), port: 2222 };
    assert_eq!(h.address(), "a.example:2222");
}

#[test]
fn failure_messages_join_their_parts() {
    let errors = vec!["Key auth failed: rejected".to_string(), "Agent fallback failed: no agent".to_string()];
    assert_eq!(
        auth_failure_message(&errors),
        "Authentication failed: Key auth failed: rejected; Agent fallback failed: no agent"
    );
    let identity_errors = vec!["work-key: rejected".to_string()];
    assert_eq!(
        agent_failure_message(&identity_errors),
        "No SSH agent identities worked: work-key: rejected"
    );
    assert_eq!(auth_failure_message(&Vec::new()), "Authentication failed: ");
}
