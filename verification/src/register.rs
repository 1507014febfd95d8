//! Validation of registration requests and derivation of the credential to
//! store: the decision core of handling a registration.

use vstd::prelude::*;
use validator::ValidateEmail;
use crate::password::HashingError;
use crate::password::hash_parses;
use crate::password::hash_password;
use crate::password::password_matches;

verus! {

/// The minimum number of characters a password must have at registration.
pub const MIN_PASSWORD_CHARS: usize = 8;

/// Whether the string is a well-formed email address, as the `validator`
/// crate judges it (a local part and a valid domain around a `@`). Names the
/// result of `validator::ValidateEmail::validate_email`.
pub uninterp spec fn is_valid_email(s: Seq<char>) -> bool;

/// Relies on `validator::ValidateEmail::validate_email` for `&str`: its
/// verdict depends on the string's characters alone.
#[verifier::external_body]
fn email_is_valid(s: &str) -> (r: bool)
    ensures
        r == is_valid_email(s@),
{
    s.validate_email()
}

/// A registration request: the fields a new user submits.
#[derive(Clone, PartialEq, Eq, Debug)]
pub struct RegisterPayload {
    pub username: String,
    pub email: String,
    pub password: String,
}

/// A field of a registration payload that failed validation.
#[derive(Clone, Copy, PartialEq, Eq, Debug)]
pub enum FieldError {
    /// The username is empty.
    UsernameRequired,
    /// The email address is not well formed.
    InvalidEmail,
    /// The password has fewer than the minimum number of characters.
    PasswordTooShort,
}

/// The validation errors a payload earns, in field order: an empty username,
/// a malformed email, a too-short password.
pub open spec fn field_errors_of(p: RegisterPayload) -> Seq<FieldError> {
    let s = Seq::<FieldError>::empty();
    let s = if p.username@.len() == 0 {
        s.push(FieldError::UsernameRequired)
    } else {
        s
    };
    let s = if !is_valid_email(p.email@) {
        s.push(FieldError::InvalidEmail)
    } else {
        s
    };
    if p.password@.len() < MIN_PASSWORD_CHARS {
        s.push(FieldError::PasswordTooShort)
    } else {
        s
    }
}

/// Whether a payload passes validation: a non-empty username, a well-formed
/// email address, and a password of at least the minimum length.
pub open spec fn payload_valid(p: RegisterPayload) -> bool {
    p.username@.len() > 0 && is_valid_email(p.email@) && p.password@.len() >= MIN_PASSWORD_CHARS
}

/// Why a registration request was not turned into a storable credential.
#[derive(Clone, PartialEq, Eq, Debug)]
pub enum RegisterError {
    /// The payload failed validation; the fields at fault, in field order.
    Invalid(Vec<FieldError>),
    /// The payload was valid but the hashing primitive failed.
    Hashing(HashingError),
}

impl RegisterPayload {
    /// Validate the payload. Succeeds exactly when every field passes; fails
    /// with the full list of fields at fault, in field order.
    pub fn validate(&self) -> (r: Result<(), Vec<FieldError>>)
        ensures
            r is Ok <==> payload_valid(*self),
            r matches Err(es) ==> es@ =~= field_errors_of(*self) && es@.len() > 0,
    {
        let mut errors: Vec<FieldError> = Vec::new();
        if self.username.as_str().unicode_len() == 0 {
            errors.push(FieldError::UsernameRequired);
        }
        if !email_is_valid(self.email.as_str()) {
            errors.push(FieldError::InvalidEmail);
        }
        if self.password.as_str().unicode_len() < MIN_PASSWORD_CHARS {
            errors.push(FieldError::PasswordTooShort);
        }
        if errors.len() == 0 {
            Ok(())
        } else {
            proof {
                assert(errors@ =~= field_errors_of(*self));
            }
            Err(errors)
        }
    }
}

/// Validate a registration payload and derive the credential hash to store.
/// Succeeds only on a valid payload, and then returns a hash that verifies
/// against the submitted password; an invalid payload earns exactly its
/// validation errors, and a valid one fails only if the hashing primitive
/// does.
pub fn prepare_registration(payload: &RegisterPayload) -> (r: Result<String, RegisterError>)
    ensures
        r matches Ok(h) ==> payload_valid(*payload) && hash_parses(h@) && password_matches(
            payload.password@,
            h@,
        ),
        !payload_valid(*payload) ==> (r matches Err(RegisterError::Invalid(es)) && es@ =~= field_errors_of(*payload)),
        payload_valid(*payload) && r is Err ==> r matches Err(RegisterError::Hashing(_)),
{
    match payload.validate() {
        Ok(()) => match hash_password(payload.password.as_str()) {
            Ok(h) => Ok(h),
            Err(e) => Err(RegisterError::Hashing(e)),
        },
        Err(es) => Err(RegisterError::Invalid(es)),
    }
}

/// Law: a payload is valid exactly when validation finds no field at fault.
pub proof fn lemma_valid_means_no_field_errors(p: RegisterPayload)
    ensures
        payload_valid(p) <==> field_errors_of(p).len() == 0,
{
}

} // verus!
