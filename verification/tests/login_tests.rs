use airlinepro::login::{
    check_admin_credentials, hash_password, passenger_login, register_passenger, verify_password,
    AdminCredentials, AdminLogin, AttemptWarning, AuthError, LoginOutcome, PassengerLogin, MAX_ATTEMPT,
};

#[test]
fn hashed_password_verifies() {
    let h = hash_password("hunter2").unwrap();
    assert_eq!(verify_password("hunter2", &h), Ok(true));
    assert_eq!(verify_password("hunter3", &h), Ok(false));
}

#[test]
fn hash_has_the_default_cost_shape() {
    let h = hash_password("hunter2").unwrap();
    assert_eq!(h.chars().count(), 60);
    assert!(h.starts_with("$2b$12$"));
    assert_ne!(h, "hunter2");
    assert!(verify_password("anything else", &h).is_ok());
}

#[test]
fn malformed_hash_is_a_verification_error() {
    assert_eq!(verify_password("x", "not a hash"), Err(AuthError::VerificationFailed));
}

#[test]
fn configured_admins_log_in() {
    let creds = AdminCredentials::from_passwords("pw-one", "pw-two", "pw-three").unwrap();
    assert_eq!(check_admin_credentials(&creds, "Abolaji", "pw-one"), Ok(true));
    assert_eq!(check_admin_credentials(&creds, "Kazeem", "pw-two"), Ok(true));
    assert_eq!(check_admin_credentials(&creds, "Biola", "pw-three"), Ok(true));
    // Another administrator's password does not open this account.
    assert_eq!(check_admin_credentials(&creds, "Abolaji", "pw-two"), Ok(false));
    assert_eq!(check_admin_credentials(&creds, "Biola", "pw-one"), Ok(false));
}

#[test]
fn unknown_user_is_refused() {
    let creds = AdminCredentials::from_passwords("a", "b", "c").unwrap();
    assert_eq!(check_admin_credentials(&creds, "Mallory", "a"), Ok(false));
    assert_eq!(check_admin_credentials(&creds, "abolaji", "a"), Ok(false));
    assert_eq!(check_admin_credentials(&creds, "", ""), Ok(false));
}

#[test]
fn malformed_admin_hash_is_an_error() {
    let creds = AdminCredentials {
        abolaji_hash: "bad".to_string(),
        kazeem_hash: "bad".to_string(),
        biola_hash: "bad".to_string(),
    };
    assert_eq!(check_admin_credentials(&creds, "Kazeem", "x"), Err(AuthError::VerificationFailed));
    // The hash is not consulted for an unknown user.
    assert_eq!(check_admin_credentials(&creds, "Zed", "x"), Ok(false));
}

#[test]
fn three_failures_lock_the_account() {
    let mut login = AdminLogin::new();
    assert_eq!(login.failed_attempts(), 0);
    assert!(login.can_attempt());
    assert_eq!(login.record_attempt(false), LoginOutcome::Denied(AttemptWarning::TwoAttemptsLeft));
    assert_eq!(login.record_attempt(false), LoginOutcome::Denied(AttemptWarning::LastAttempt));
    assert_eq!(login.record_attempt(false), LoginOutcome::Locked);
    assert_eq!(login.failed_attempts(), MAX_ATTEMPT);
    assert!(!login.can_attempt());
}

#[test]
fn success_keeps_the_failure_count() {
    let mut login = AdminLogin::new();
    assert_eq!(login.record_attempt(false), LoginOutcome::Denied(AttemptWarning::TwoAttemptsLeft));
    assert_eq!(login.record_attempt(true), LoginOutcome::Granted);
    assert_eq!(login.failed_attempts(), 1);
    assert_eq!(login.record_attempt(false), LoginOutcome::Denied(AttemptWarning::LastAttempt));
    assert_eq!(login.record_attempt(false), LoginOutcome::Locked);
}

#[test]
fn attempt_login_checks_and_counts() {
    let creds = AdminCredentials::from_passwords("one", "two", "three").unwrap();
    let mut login = AdminLogin::new();
    assert_eq!(login.attempt_login(&creds, "Biola", "wrong"), Ok(LoginOutcome::Denied(AttemptWarning::TwoAttemptsLeft)));
    assert_eq!(login.attempt_login(&creds, "Biola", "three"), Ok(LoginOutcome::Granted));
    assert_eq!(login.failed_attempts(), 1);
    let bad = AdminCredentials {
        abolaji_hash: "bad".to_string(),
        kazeem_hash: "bad".to_string(),
        biola_hash: "bad".to_string(),
    };
    assert_eq!(login.attempt_login(&bad, "Biola", "three"), Err(AuthError::VerificationFailed));
    assert_eq!(login.failed_attempts(), 1);
}

#[test]
fn registered_passenger_logs_in() {
    let reg = register_passenger("  Ada Lovelace \n", " ada@example.com\n", "s3cret").unwrap();
    assert_eq!(reg.name, "Ada Lovelace");
    assert_eq!(reg.email, "ada@example.com");
    assert_eq!(passenger_login(Some(&reg.password_hash), "s3cret"), Ok(PassengerLogin::Success));
    assert_eq!(passenger_login(Some(&reg.password_hash), "secret"), Ok(PassengerLogin::IncorrectPassword));
}

#[test]
fn passenger_login_without_account() {
    assert_eq!(passenger_login(None, "anything"), Ok(PassengerLogin::NoAccount));
    assert_eq!(passenger_login(Some("garbage"), "anything"), Err(AuthError::VerificationFailed));
}
