//! The user service: the decisions of its signup, delete, TOTP and password-reset handlers.
use vstd::prelude::*;
use crate::constants::{ERR_DECRYPT_TOKEN, ERR_INVALID_OPTION, ERR_PARSE_HEADER, ERR_SEND_EMAIL, ERR_UNVERIFIED};
use crate::constants::ERR_TOKEN_REQUIRED;
use crate::constants::PWD_SUFIX;
use crate::errors::{error_message, AuthError};
use crate::grpc::{get_header, Code, HeaderLookup, Status};
use crate::security::{shadow, shadow_spec};
use crate::session::grpc::{answer, answered};

verus! {

/// The bytes a base64 text stands for, if it is valid base64 (standard alphabet, padded), as
/// decoded by the `base64` crate.
pub uninterp spec fn base64_decode_spec(text: Seq<char>) -> Option<Seq<u8>>;

/// The character of the standard base64 alphabet for the six-bit value `v`.
pub open spec fn base64_char(v: int) -> char {
    if v < 26 {
        (65 + v) as char
    } else if v < 52 {
        (97 + v - 26) as char
    } else if v < 62 {
        (48 + v - 52) as char
    } else if v == 62 {
        '+'
    } else {
        '/'
    }
}

/// The standard, padded base64 text of some bytes: each group of three bytes gives four
/// characters of six bits each; a last group of one or two bytes is filled with zero bits
/// and padded with `=` to four characters.
pub open spec fn base64_encode_spec(data: Seq<u8>) -> Seq<char>
    decreases data.len(),
{
    if data.len() == 0 {
        seq![]
    } else if data.len() == 1 {
        let a = data[0] as int;
        seq![base64_char(a / 4), base64_char((a % 4) * 16), '=', '=']
    } else if data.len() == 2 {
        let a = data[0] as int;
        let b = data[1] as int;
        seq![base64_char(a / 4), base64_char((a % 4) * 16 + b / 16), base64_char((b % 16) * 4), '=']
    } else {
        let a = data[0] as int;
        let b = data[1] as int;
        let c = data[2] as int;
        seq![
            base64_char(a / 4),
            base64_char((a % 4) * 16 + b / 16),
            base64_char((b % 16) * 4 + c / 64),
            base64_char(c % 64),
        ] + base64_encode_spec(data.subrange(3, data.len() as int))
    }
}

#[verifier::external_type_specification]
#[verifier::external_body]
pub struct ExDecodeError(base64::DecodeError);

/// Calls `base64::decode`. Claimed: the result is the decoding of `text`, named
/// `base64_decode_spec`, and an error exactly when that names none.
#[verifier::external_body]
fn base64_decode(text: &str) -> (r: Result<Vec<u8>, base64::DecodeError>)
    ensures
        match r {
            Ok(v) => base64_decode_spec(text@) == Some(v@),
            Err(_) => base64_decode_spec(text@) is None,
        },
{
    base64::decode(text)
}

/// Calls `base64::encode`, which encodes with the standard alphabet and padding. Claimed: the
/// result is `base64_encode_spec` of `data`.
#[verifier::external_body]
fn base64_encode(data: &[u8]) -> (r: String)
    ensures
        r@ == base64_encode_spec(data@),
{
    base64::encode(data)
}

/// The user service, the use cases it runs, and its keys and header name.
pub struct UserImplementation<A> {
    pub user_app: A,
    pub rsa_secret: &'static [u8],
    pub rsa_public: &'static [u8],
    pub jwt_secret: &'static [u8],
    pub jwt_public: &'static [u8],
    pub jwt_header: &'static str,
    pub allow_unverified: bool,
}

/// How a signup proceeds.
#[derive(Debug, PartialEq, Eq, Structural, Clone, Copy)]
pub enum SignupPlan {
    /// No token header and unverified signups refused: a verification email is sent.
    Verify,
    /// No token header and unverified signups allowed: the user signs up at once.
    Signup,
    /// A token header: the user signs up with the token it carries.
    Secure,
}

/// What a TOTP request asks for.
#[derive(Debug, PartialEq, Eq, Structural, Clone, Copy)]
pub enum TotpAction {
    Enable,
    Disable,
}

/// Where a signup stands.
#[derive(Debug, PartialEq, Eq, Structural, Clone, Copy)]
pub enum SignupStep {
    Start,
    /// A verification email was asked for.
    VerifyAsked,
    /// The user was signed up without verification.
    SignupAsked,
    /// The token of the header was handed over to be decrypted.
    DecryptAsked,
    /// The user was signed up with the decrypted token.
    SecureSignupAsked,
}

/// What the signup asks of its use cases next, or how it ends.
#[derive(Debug, PartialEq, Eq)]
pub enum SignupAction {
    /// Send a verification email to `email` for the shadowed password.
    VerifyUser(String, String),
    /// Sign up `email` with the shadowed password.
    Signup(String, String),
    /// Decrypt the token with the service's private key.
    Decrypt(Vec<u8>),
    /// Sign up with the decrypted token, in base64.
    SecureSignup(String),
    /// The signup is over, with this answer.
    Finish(Result<(), Status>),
}

/// What the request held or a use case answered.
#[derive(Debug, PartialEq, Eq)]
pub enum SignupEvent {
    /// The request: its token header, email and password.
    Begin(HeaderLookup, String, String),
    Verified(Result<(), AuthError>),
    SignedUp(Result<(), AuthError>),
    Decrypted(Result<Vec<u8>, String>),
    SecurelySignedUp(Result<(), AuthError>),
}

/// The events each step waits for.
pub open spec fn signup_expects(step: SignupStep, event: SignupEvent) -> bool {
    match step {
        SignupStep::Start => event is Begin,
        SignupStep::VerifyAsked => event is Verified,
        SignupStep::SignupAsked => event is SignedUp,
        SignupStep::DecryptAsked => event is Decrypted,
        SignupStep::SecureSignupAsked => event is SecurelySignedUp,
    }
}

impl<A> UserImplementation<A> {
    /// One step of a signup. Without a token header the password is shadowed and, when
    /// unverified signups are refused, a verification email is asked for and the request is
    /// answered `FailedPrecondition` (or `Aborted` if the email failed); otherwise the user
    /// signs up at once. With a token header, its value must be readable and valid base64,
    /// the token is decrypted (`Aborted` if not), and the user signs up with it, in base64.
    /// A failed sign-up is answered `Aborted` with the error's text.
    pub fn signup_step(&self, step: SignupStep, event: SignupEvent) -> (r: (SignupStep, SignupAction))
        requires
            signup_expects(step, event),
        ensures
            event matches SignupEvent::Begin(lookup, email, pwd) ==> {
                &&& lookup is None && !self.allow_unverified ==> r.0 == SignupStep::VerifyAsked
                    && (r.1 matches SignupAction::VerifyUser(e, p) && e == email && p@
                    == shadow_spec(pwd@, PWD_SUFIX@))
                &&& lookup is None && self.allow_unverified ==> r.0 == SignupStep::SignupAsked
                    && (r.1 matches SignupAction::Signup(e, p) && e == email && p@ == shadow_spec(
                    pwd@,
                    PWD_SUFIX@,
                ))
                &&& lookup matches Some(Err(m)) ==> (r.1 matches SignupAction::Finish(Err(s))
                    && s.code == Code::Aborted && s.message == m)
                &&& lookup matches Some(Ok(h)) ==> match base64_decode_spec(h@) {
                    None => (r.1 matches SignupAction::Finish(Err(s)) && s.code == Code::Aborted
                        && s.message@ == ERR_PARSE_HEADER@),
                    Some(v) => r.0 == SignupStep::DecryptAsked && (r.1 matches SignupAction::Decrypt(
                        x,
                    ) && x@ == v),
                }
            },
            event matches SignupEvent::Verified(sent) ==> (r.1 matches SignupAction::Finish(Err(s))
                && (sent is Err ==> s.code == Code::Aborted && s.message@ == ERR_SEND_EMAIL@) && (
            sent is Ok ==> s.code == Code::FailedPrecondition && s.message@ == ERR_UNVERIFIED@)),
            event matches SignupEvent::SignedUp(done) ==> (r.1 matches SignupAction::Finish(
                a,
            ) && answered(done, a, Code::Aborted)),
            event matches SignupEvent::Decrypted(d) ==> match d {
                Ok(token) => r.0 == SignupStep::SecureSignupAsked && (r.1 matches SignupAction::SecureSignup(
                    t,
                ) && t@ == base64_encode_spec(token@)),
                Err(_) => (r.1 matches SignupAction::Finish(Err(s)) && s.code == Code::Aborted
                    && s.message@ == ERR_DECRYPT_TOKEN@),
            },
            event matches SignupEvent::SecurelySignedUp(done) ==> (r.1 matches SignupAction::Finish(
                a,
            ) && answered(done, a, Code::Aborted)),
    {
        match event {
            SignupEvent::Begin(lookup, email, pwd) => {
                match self.signup_plan(lookup.is_some()) {
                    SignupPlan::Verify => {
                        let shadowed = shadow(pwd.as_str(), PWD_SUFIX);
                        (SignupStep::VerifyAsked, SignupAction::VerifyUser(email, shadowed))
                    },
                    SignupPlan::Signup => {
                        let shadowed = shadow(pwd.as_str(), PWD_SUFIX);
                        (SignupStep::SignupAsked, SignupAction::Signup(email, shadowed))
                    },
                    SignupPlan::Secure => {
                        let header = match get_header(lookup) {
                            Ok(h) => h,
                            Err(s) => {
                                return (step, SignupAction::Finish(Err(s)));
                            },
                        };
                        match decode_token(header.as_str()) {
                            Ok(token) => (SignupStep::DecryptAsked, SignupAction::Decrypt(token)),
                            Err(s) => (step, SignupAction::Finish(Err(s))),
                        }
                    },
                }
            },
            SignupEvent::Verified(sent) => (step, SignupAction::Finish(Err(unverified_answer(sent)))),
            SignupEvent::SignedUp(done) => (step, SignupAction::Finish(answer(done, Code::Aborted))),
            SignupEvent::Decrypted(d) => match decrypted_token(d) {
                Ok(token) => (
                    SignupStep::SecureSignupAsked,
                    SignupAction::SecureSignup(encode_token(token.as_slice())),
                ),
                Err(s) => (step, SignupAction::Finish(Err(s))),
            },
            SignupEvent::SecurelySignedUp(done) => (
                step,
                SignupAction::Finish(answer(done, Code::Aborted)),
            ),
        }
    }

    /// How a signup proceeds, given whether the request carries the token header.
    pub fn signup_plan(&self, has_header: bool) -> (p: SignupPlan)
        ensures
            has_header ==> p == SignupPlan::Secure,
            !has_header && !self.allow_unverified ==> p == SignupPlan::Verify,
            !has_header && self.allow_unverified ==> p == SignupPlan::Signup,
    {
        if has_header {
            SignupPlan::Secure
        } else if !self.allow_unverified {
            SignupPlan::Verify
        } else {
            SignupPlan::Signup
        }
    }
}

/// The answer to a signup that sent a verification email: `Aborted` when the email could not
/// be sent, otherwise `FailedPrecondition`, as the user is not verified yet.
pub fn unverified_answer(sent: Result<(), AuthError>) -> (s: Status)
    ensures
        sent is Err ==> s.code == Code::Aborted && s.message@ == ERR_SEND_EMAIL@,
        sent is Ok ==> s.code == Code::FailedPrecondition && s.message@ == ERR_UNVERIFIED@,
{
    match sent {
        Err(_) => Status::new(Code::Aborted, ERR_SEND_EMAIL),
        Ok(_) => Status::new(Code::FailedPrecondition, ERR_UNVERIFIED),
    }
}

/// The encrypted signup token carried, in base64, by the token header; `Aborted` when the
/// header is not valid base64.
pub fn decode_token(header: &str) -> (r: Result<Vec<u8>, Status>)
    ensures
        match base64_decode_spec(header@) {
            Some(v) => r matches Ok(x) && x@ == v,
            None => r matches Err(s) && s.code == Code::Aborted && s.message@ == ERR_PARSE_HEADER@,
        },
{
    match base64_decode(header) {
        Ok(v) => Ok(v),
        Err(_) => Err(Status::new(Code::Aborted, ERR_PARSE_HEADER)),
    }
}

/// The decrypted signup token; `Aborted` when it could not be decrypted.
pub fn decrypted_token(decrypted: Result<Vec<u8>, String>) -> (r: Result<Vec<u8>, Status>)
    ensures
        match decrypted {
            Ok(v) => r == Ok::<Vec<u8>, Status>(v),
            Err(_) => r matches Err(s) && s.code == Code::Aborted && s.message@
                == ERR_DECRYPT_TOKEN@,
        },
{
    match decrypted {
        Ok(v) => Ok(v),
        Err(_) => Err(Status::new(Code::Aborted, ERR_DECRYPT_TOKEN)),
    }
}

/// The decrypted signup token as handed to the signup use case: in base64.
pub fn encode_token(token: &[u8]) -> (r: String)
    ensures
        r@ == base64_encode_spec(token@),
{
    base64_encode(token)
}

/// Where a TOTP request stands.
#[derive(Debug, PartialEq, Eq, Structural, Clone, Copy)]
pub enum TotpStep {
    Start,
    /// Enabling TOTP was asked of the use case.
    EnableAsked,
    /// Disabling TOTP was asked of the use case.
    DisableAsked,
}

/// What a TOTP request asks of its use cases next, or how it ends.
#[derive(Debug, PartialEq, Eq)]
pub enum TotpRequest {
    /// Enable TOTP for the user of the token, given the shadowed password and the code.
    EnableTotp(String, String, String),
    /// Disable TOTP for the user of the token, given the shadowed password and the code.
    DisableTotp(String, String, String),
    /// Over: the new token to send in the `jwt_header` header, if any, or the answer.
    Finish(Result<Option<String>, Status>),
}

/// What the request held or a use case answered.
#[derive(Debug, PartialEq, Eq)]
pub enum TotpEvent {
    /// The request: its token header, password, code and action.
    Begin(HeaderLookup, String, String, i32),
    /// Enabling answered a new session token, or failed.
    Enabled(Result<String, AuthError>),
    Disabled(Result<(), AuthError>),
}

/// The events each TOTP step waits for.
pub open spec fn totp_expects(step: TotpStep, event: TotpEvent) -> bool {
    match step {
        TotpStep::Start => event is Begin,
        TotpStep::EnableAsked => event is Enabled,
        TotpStep::DisableAsked => event is Disabled,
    }
}

/// Where a delete request stands.
#[derive(Debug, PartialEq, Eq, Structural, Clone, Copy)]
pub enum DeleteStep {
    Start,
    /// Deleting the user was asked of the use case.
    DeleteAsked,
}

/// What a delete request asks of its use case next, or how it ends.
#[derive(Debug, PartialEq, Eq)]
pub enum DeleteRequest {
    /// Delete the user of the token, given the shadowed password and the code.
    SecureDelete(String, String, String),
    /// The request is over, with this answer.
    Finish(Result<(), Status>),
}

/// What the request held or the use case answered.
#[derive(Debug, PartialEq, Eq)]
pub enum DeleteEvent {
    /// The request: its token header, password and code.
    Begin(HeaderLookup, String, String),
    Deleted(Result<(), AuthError>),
}

/// The events each delete step waits for.
pub open spec fn delete_expects(step: DeleteStep, event: DeleteEvent) -> bool {
    match step {
        DeleteStep::Start => event is Begin,
        DeleteStep::DeleteAsked => event is Deleted,
    }
}

/// The answer to a request whose token header could not be read: `FailedPrecondition`
/// ("token required") when absent, `Aborted` with the reason when unreadable.
pub open spec fn header_refused(lookup: HeaderLookup, s: Status) -> bool {
    match lookup {
        None => s.code == Code::FailedPrecondition && s.message@ == ERR_TOKEN_REQUIRED@,
        Some(Err(m)) => s.code == Code::Aborted && s.message == m,
        Some(Ok(_)) => false,
    }
}

impl<A> UserImplementation<A> {
    /// One step of a TOTP request. The token header must be present and readable; the
    /// password is shadowed; action 0 asks the use case to enable TOTP and action 1 to disable
    /// it, with the shadowed password, the code and the token, and any other action is
    /// answered `InvalidArgument`. A failure of the use case is answered `Unknown` with the
    /// error's text; enabling answers a new token, which goes into the `jwt_header` header.
    pub fn totp_step(&self, step: TotpStep, event: TotpEvent) -> (r: (TotpStep, TotpRequest))
        requires
            totp_expects(step, event),
        ensures
            event matches TotpEvent::Begin(lookup, pwd, code, action) ==> match lookup {
                Some(Ok(h)) => if action == 0 {
                    r.0 == TotpStep::EnableAsked && (r.1 matches TotpRequest::EnableTotp(p, c, t)
                        && p@ == shadow_spec(pwd@, PWD_SUFIX@) && c == code && t == h)
                } else if action == 1 {
                    r.0 == TotpStep::DisableAsked && (r.1 matches TotpRequest::DisableTotp(p, c, t)
                        && p@ == shadow_spec(pwd@, PWD_SUFIX@) && c == code && t == h)
                } else {
                    r.1 matches TotpRequest::Finish(Err(s)) && s.code == Code::InvalidArgument
                        && s.message@ == ERR_INVALID_OPTION@
                },
                _ => r.1 matches TotpRequest::Finish(Err(s)) && header_refused(lookup, s),
            },
            event matches TotpEvent::Enabled(e) ==> match e {
                Ok(t) => r.1 == TotpRequest::Finish(Ok(Some(t))),
                Err(x) => r.1 matches TotpRequest::Finish(Err(s)) && s.code == Code::Unknown
                    && s.message@ == error_message(x),
            },
            event matches TotpEvent::Disabled(d) ==> match d {
                Ok(_) => r.1 == TotpRequest::Finish(Ok(None)),
                Err(x) => r.1 matches TotpRequest::Finish(Err(s)) && s.code == Code::Unknown
                    && s.message@ == error_message(x),
            },
    {
        match event {
            TotpEvent::Begin(lookup, pwd, code, action) => {
                let header = match get_header(lookup) {
                    Ok(h) => h,
                    Err(s) => {
                        return (step, TotpRequest::Finish(Err(s)));
                    },
                };
                let shadowed = shadow(pwd.as_str(), PWD_SUFIX);
                match totp_action(action) {
                    Ok(TotpAction::Enable) => (
                        TotpStep::EnableAsked,
                        TotpRequest::EnableTotp(shadowed, code, header),
                    ),
                    Ok(TotpAction::Disable) => (
                        TotpStep::DisableAsked,
                        TotpRequest::DisableTotp(shadowed, code, header),
                    ),
                    Err(s) => (step, TotpRequest::Finish(Err(s))),
                }
            },
            TotpEvent::Enabled(e) => match e {
                Ok(t) => (step, TotpRequest::Finish(Ok(Some(t)))),
                Err(x) => (step, TotpRequest::Finish(Err(Status::with_message(Code::Unknown, x.message())))),
            },
            TotpEvent::Disabled(d) => match d {
                Ok(_) => (step, TotpRequest::Finish(Ok(None))),
                Err(x) => (step, TotpRequest::Finish(Err(Status::with_message(Code::Unknown, x.message())))),
            },
        }
    }

    /// One step of a delete request. The token header must be present and readable; the use
    /// case is asked to delete the user of the token, with the shadowed password and the code;
    /// its failure is answered `Aborted` with the error's text.
    pub fn delete_step(&self, step: DeleteStep, event: DeleteEvent) -> (r: (DeleteStep, DeleteRequest))
        requires
            delete_expects(step, event),
        ensures
            event matches DeleteEvent::Begin(lookup, pwd, code) ==> match lookup {
                Some(Ok(h)) => r.0 == DeleteStep::DeleteAsked && (r.1 matches DeleteRequest::SecureDelete(
                    p,
                    c,
                    t,
                ) && p@ == shadow_spec(pwd@, PWD_SUFIX@) && c == code && t == h),
                _ => r.1 matches DeleteRequest::Finish(Err(s)) && header_refused(lookup, s),
            },
            event matches DeleteEvent::Deleted(w) ==> (r.1 matches DeleteRequest::Finish(f)
                && answered(w, f, Code::Aborted)),
    {
        match event {
            DeleteEvent::Begin(lookup, pwd, code) => {
                let header = match get_header(lookup) {
                    Ok(h) => h,
                    Err(s) => {
                        return (step, DeleteRequest::Finish(Err(s)));
                    },
                };
                let shadowed = shadow(pwd.as_str(), PWD_SUFIX);
                (DeleteStep::DeleteAsked, DeleteRequest::SecureDelete(shadowed, code, header))
            },
            DeleteEvent::Deleted(w) => (step, DeleteRequest::Finish(answer(w, Code::Aborted))),
        }
    }
}

/// What a TOTP request asks for: 0 enables, 1 disables; anything else is `InvalidArgument`.
pub fn totp_action(action: i32) -> (r: Result<TotpAction, Status>)
    ensures
        action == 0 ==> r == Ok::<TotpAction, Status>(TotpAction::Enable),
        action == 1 ==> r == Ok::<TotpAction, Status>(TotpAction::Disable),
        action != 0 && action != 1 ==> (r matches Err(s) && s.code == Code::InvalidArgument
            && s.message@ == ERR_INVALID_OPTION@),
{
    if action == 0 {
        Ok(TotpAction::Enable)
    } else if action == 1 {
        Ok(TotpAction::Disable)
    } else {
        Err(Status::new(Code::InvalidArgument, ERR_INVALID_OPTION))
    }
}

/// The answer to a password reset, which is not implemented.
pub fn reset_password_answer() -> (s: Status)
    ensures
        s.code == Code::Unimplemented,
        s.message@ == "not implemented"@,
{
    Status::new(Code::Unimplemented, "not implemented")
}

} // verus!
