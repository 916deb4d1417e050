//! Names, messages and settings shared across the service.
use vstd::prelude::*;

verus! {

/// Appended to every password before it is shadowed.
pub const PWD_SUFIX: &'static str = "::PWD::RAUTH";

/// Issuer written into every session token.
pub const TOKEN_ISSUER: &'static str = "rauth.alvidir.com";

/// Name under which a user's TOTP secret is stored.
pub const TOTP_SECRET_NAME: &'static str = "totp";

/// Length of the tokens that identify in-memory sessions.
pub const TOKEN_LEN: usize = 32;

pub const ERR_NOT_FOUND: &'static str = "not found";
pub const ERR_UNAUTHORIZED: &'static str = "unauthorized";
pub const ERR_NO_MATCH: &'static str = "regex does not match";
pub const ERR_TOTP: &'static str = "the totp secret is not valid";
pub const ERR_USER_NOT_VERIFIED: &'static str = "user not verified";
pub const ERR_TOKEN_REQUIRED: &'static str = "token required";
pub const ERR_SEND_EMAIL: &'static str = "the email could not be sent";
pub const ERR_UNVERIFIED: &'static str = "the user has not been verified";
pub const ERR_PARSE_HEADER: &'static str = "the header could not be parsed";
pub const ERR_DECRYPT_TOKEN: &'static str = "the token could not be decrypted";
pub const ERR_INVALID_OPTION: &'static str = "invalid option";

} // verus!
