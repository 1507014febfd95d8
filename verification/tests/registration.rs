use authcore::RegisterPayload;
use authcore::register::prepare_registration;
use authcore::register::FieldError;
use authcore::register::RegisterError;
use authcore::verify_password;

fn payload(username: &str, email: &str, password: &str) -> RegisterPayload {
    RegisterPayload {
        username: username.to_string(),
        email: email.to_string(),
        password: password.to_string(),
    }
}

#[test]
fn valid_payload_passes_validation() {
    let p = payload("alice", "a@example.com", "hunter42!");
    assert_eq!(p.validate(), Ok(()));
}

#[test]
fn empty_username_is_reported() {
    let p = payload("", "a@example.com", "hunter42!");
    assert_eq!(p.validate(), Err(vec![FieldError::UsernameRequired]));
}

#[test]
fn malformed_email_is_reported() {
    let p = payload("alice", "not-an-email", "hunter42!");
    assert_eq!(p.validate(), Err(vec![FieldError::InvalidEmail]));
}

#[test]
fn short_password_is_reported() {
    let p = payload("alice", "a@example.com", "hunter4");
    assert_eq!(p.validate(), Err(vec![FieldError::PasswordTooShort]));
}

#[test]
fn eight_character_password_is_accepted() {
    let p = payload("alice", "a@example.com", "hunter42");
    assert_eq!(p.validate(), Ok(()));
}

#[test]
fn all_failing_fields_are_reported_in_order() {
    let p = payload("", "nope", "short");
    assert_eq!(
        p.validate(),
        Err(vec![
            FieldError::UsernameRequired,
            FieldError::InvalidEmail,
            FieldError::PasswordTooShort,
        ])
    );
}

#[test]
fn registration_of_valid_payload_yields_verifiable_hash() {
    let p = payload("alice", "a@example.com", "hunter42");
    let hash = prepare_registration(&p).unwrap();
    assert!(verify_password("hunter42", &hash).is_ok());
    assert!(verify_password("wrongpassword", &hash).is_err());
}

#[test]
fn registration_of_invalid_payload_reports_fields() {
    let p = payload("alice", "a@example.com", "short");
    match prepare_registration(&p) {
        Err(RegisterError::Invalid(es)) => {
            assert_eq!(es, vec![FieldError::PasswordTooShort]);
        }
        other => panic!("expected validation failure, got {:?}", other),
    }
}

#[test]
fn password_length_is_counted_in_characters() {
    let p = payload("alice", "a@example.com", "pässwörd");
    assert_eq!(p.validate(), Ok(()));
}
