//! Credential handling: salted password hashing and verification, and
//! issuance and verification of signed, time-bounded bearer tokens, with a
//! validated registration payload as their caller-facing entry point.

pub mod password;
pub mod register;
pub mod token;

pub use password::HashingError;
pub use password::hash_password;
pub use password::verify_password;
pub use register::RegisterPayload;
pub use token::Claims;
pub use token::IssuanceError;
pub use token::encode_jwt;
pub use token::decode_jwt;
