//! Second factor by a time-based one-time password from an authenticator app.
use vstd::prelude::*;
use std::sync::Arc;
use crate::errors::AuthError;
use crate::mfa::domain::{base32_text, Otp};
use crate::mfa::error::MfaError;
use crate::secret::domain::{Secret, SecretKind, kind_secret_name};
use crate::security::push_char;
use crate::user::domain::User;
use vstd::utf8::encode_utf8;

verus! {

/// The authenticator-app method: how long an unconfirmed secret is kept, how long new secrets
/// are, and the secret store, mail service and cache it works with.
pub struct TpAppMethod<S, M, C> {
    /// Seconds an unconfirmed secret stays in the cache.
    pub otp_timeout: u64,
    pub totp_secret_len: usize,
    pub secret_repo: Arc<S>,
    pub mail_srv: Arc<M>,
    pub cache: Arc<C>,
}

pub open spec fn digit_char(d: nat) -> char {
    (d + 48) as char
}

/// The decimal digits of `n`.
pub open spec fn digits(n: nat) -> Seq<char>
    decreases n,
{
    if n < 10 {
        seq![digit_char(n)]
    } else {
        digits(n / 10).push(digit_char(n % 10))
    }
}

/// The decimal text of `n`, with a leading `-` when negative.
pub open spec fn decimal(n: int) -> Seq<char> {
    if n < 0 {
        seq!['-'] + digits((-n) as nat)
    } else {
        digits(n as nat)
    }
}

/// The cache key of a user's unconfirmed TOTP secret: its id, `::`, then `totp`.
pub open spec fn totp_key(user_id: i32) -> Seq<char> {
    decimal(user_id as int) + seq![':', ':', 't', 'o', 't', 'p']
}

fn push_digits(s: &mut String, n: u64)
    ensures
        final(s)@ == old(s)@ + digits(n as nat),
    decreases n,
{
    if n >= 10 {
        push_digits(s, n / 10);
    }
    let d = (n % 10) as u8;
    push_char(s, (d + 48) as char);
}

/// Writes `n` in decimal.
pub fn decimal_text(n: i32) -> (r: String)
    ensures
        r@ == decimal(n as int),
{
    let mut r = String::new();
    if n < 0 {
        push_char(&mut r, '-');
        let m: i64 = n as i64;
        push_digits(&mut r, (-m) as u64);
    } else {
        push_digits(&mut r, n as u64);
    }
    r
}

/// The answer once the code was checked: through when valid, `Invalid` when not, the
/// failure otherwise.
pub open spec fn verdict_spec(checked: Result<bool, AuthError>) -> Result<(), MfaError> {
    match checked {
        Ok(true) => Ok(()),
        Ok(false) => Err(MfaError::Invalid),
        Err(e) => Err(MfaError::Repository(e)),
    }
}

/// What a lookup of the cached, unconfirmed secret means: none when the cache has no entry,
/// the secret when it has one, the failure otherwise.
pub open spec fn cached_spec(found: Result<Otp, AuthError>) -> Result<Option<Otp>, MfaError> {
    match found {
        Ok(o) => Ok(Some(o)),
        Err(AuthError::NotFound) => Ok(None),
        Err(e) => Err(MfaError::Repository(e)),
    }
}

/// What checking or disabling the second factor asks of the secret store next, or how it ends.
#[derive(Debug, PartialEq, Eq)]
pub enum SecretAction {
    /// Look up the secret of this kind owned by this user.
    FindSecret(i32, SecretKind),
    /// Check the code against the TOTP key: the secret's bytes, then the code.
    CheckCode(Vec<u8>, String),
    /// Delete this secret.
    DeleteSecret(Secret),
    /// Over, with this outcome.
    Finish(Result<(), MfaError>),
}

/// What the secret store answered.
#[derive(Debug, PartialEq, Eq)]
pub enum SecretEvent {
    Begin,
    SecretFound(Result<Secret, AuthError>),
    /// The TOTP check's verdict on the code.
    CodeChecked(Result<bool, AuthError>),
    SecretDeleted(Result<(), AuthError>),
}

/// Where a check of the second factor stands.
#[derive(Debug, PartialEq, Eq, Structural, Clone, Copy)]
pub enum VerifyStep {
    Start,
    SecretAsked,
    /// The code was handed to the TOTP check with the secret's bytes.
    CodeAsked,
}

/// Where a disabling of the second factor stands.
#[derive(Debug, PartialEq, Eq, Structural, Clone, Copy)]
pub enum DisableStep {
    Start,
    /// The secret was looked up to check the code against it.
    SecretAsked,
    /// The code was handed to the TOTP check with the secret's bytes.
    CodeAsked,
    /// The code was valid; the secret was looked up again to delete it.
    SecretAskedAgain,
    DeleteAsked,
}

pub open spec fn verify_expects(step: VerifyStep, event: SecretEvent, totp: Option<&Otp>) -> bool {
    match step {
        VerifyStep::Start => event is Begin,
        VerifyStep::SecretAsked => event is SecretFound && totp is Some,
        VerifyStep::CodeAsked => event is CodeChecked,
    }
}

pub open spec fn disable_expects(step: DisableStep, event: SecretEvent, totp: Option<&Otp>) -> bool {
    match step {
        DisableStep::Start => event is Begin,
        DisableStep::SecretAsked => event is SecretFound && totp is Some,
        DisableStep::CodeAsked => event is CodeChecked,
        DisableStep::SecretAskedAgain => event is SecretFound,
        DisableStep::DeleteAsked => event is SecretDeleted,
    }
}

/// Where an enabling of the second factor stands.
#[derive(Debug, PartialEq, Eq)]
pub enum EnableStep {
    /// Nothing asked yet.
    Start,
    /// The cache was asked for the user's unconfirmed secret.
    CacheAsked,
    /// A new unconfirmed secret was handed to the cache.
    NewSecretCached(Otp),
    /// The code was handed to the TOTP check with the cached secret as key.
    CodeAsked,
    /// The confirmed secret was handed to the secret store.
    SecretStored,
}

/// What the enabling asks of its collaborators next, or how it ends.
#[derive(Debug, PartialEq, Eq)]
pub enum EnableAction {
    /// Read the unconfirmed secret cached under `key`.
    ReadCache(String),
    /// Cache `otp` under `key` for `timeout` seconds.
    WriteCache(String, Otp, u64),
    /// Check the code against the TOTP key: the key's bytes, then the code.
    CheckCode(Vec<u8>, String),
    /// Store the confirmed secret.
    StoreSecret(Secret),
    /// The enabling is over, with this outcome.
    Finish(Result<(), MfaError>),
}

/// What a collaborator answered.
#[derive(Debug, PartialEq, Eq)]
pub enum EnableEvent {
    Begin,
    CacheRead(Result<Otp, AuthError>),
    CacheWritten(Result<(), AuthError>),
    /// The TOTP check's verdict on the code.
    CodeChecked(Result<bool, AuthError>),
    SecretStoredAnswer(Result<(), AuthError>),
}

/// The events each step waits for.
pub open spec fn enable_expects(step: EnableStep, event: EnableEvent, totp: Option<&Otp>) -> bool {
    match step {
        EnableStep::Start => event is Begin,
        EnableStep::CacheAsked => event is CacheRead,
        EnableStep::NewSecretCached(_) => event is CacheWritten,
        EnableStep::CodeAsked => event is CodeChecked && totp is Some,
        EnableStep::SecretStored => event is SecretStoredAnswer,
    }
}

/// The repository or cache failure `e`, as a second-factor failure.
pub open spec fn passed_on<T>(r: Result<T, AuthError>) -> Result<T, MfaError> {
    match r {
        Ok(v) => Ok(v),
        Err(e) => Err(MfaError::Repository(e)),
    }
}

impl<S, M, C> TpAppMethod<S, M, C> {
    /// One step of checking the code `totp` of `user`: a code is required; the user's OTP
    /// secret is looked up (a failed lookup is passed on), the code is handed to the TOTP
    /// check with the secret's bytes as key, and the check's verdict is the answer.
    pub fn verify_step(user: &User, totp: Option<&Otp>, step: VerifyStep, event: SecretEvent) -> (r: (VerifyStep, SecretAction))
        requires
            verify_expects(step, event, totp),
        ensures
            event is Begin && totp is None ==> r.1 == SecretAction::Finish(Err(MfaError::Required)),
            event is Begin && totp is Some ==> r == (VerifyStep::SecretAsked, SecretAction::FindSecret(
                user.id,
                SecretKind::Otp,
            )),
            event matches SecretEvent::SecretFound(found) ==> match found {
                Err(e) => r.1 == SecretAction::Finish(Err(MfaError::Repository(e))),
                Ok(sec) => r.0 == VerifyStep::CodeAsked && (r.1 matches SecretAction::CheckCode(k, c)
                    && k@ == sec.data@ && c@ == totp->0.value@),
            },
            event matches SecretEvent::CodeChecked(c) ==> r.1 == SecretAction::Finish(verdict_spec(c)),
    {
        match event {
            SecretEvent::Begin => match Self::required(totp) {
                Err(e) => (step, SecretAction::Finish(Err(e))),
                Ok(_) => (VerifyStep::SecretAsked, SecretAction::FindSecret(user.id, SecretKind::Otp)),
            },
            SecretEvent::SecretFound(found) => match found {
                Err(e) => (step, SecretAction::Finish(Err(MfaError::Repository(e)))),
                Ok(sec) => {
                    let code = match totp {
                        Some(c) => c,
                        None => {
                            return (step, SecretAction::Finish(Err(MfaError::Required)));
                        },
                    };
                    (VerifyStep::CodeAsked, Self::check_request(&sec, code))
                },
            },
            SecretEvent::CodeChecked(c) => (step, SecretAction::Finish(Self::verdict(c))),
            SecretEvent::SecretDeleted(_) => (step, SecretAction::Finish(Err(MfaError::Required))),
        }
    }

    /// The request to check `totp` against the bytes of `sec`.
    pub fn check_request(sec: &Secret, totp: &Otp) -> (r: SecretAction)
        ensures
            r matches SecretAction::CheckCode(k, c) && k@ == sec.data@ && c@ == totp.value@,
    {
        SecretAction::CheckCode(vstd::slice::slice_to_vec(sec.get_data()), totp.value.clone())
    }

    /// One step of disabling the second factor of `user`, who sent the code `totp`: a code is
    /// required; the user's OTP secret is looked up and the code handed to the TOTP check with
    /// its bytes as key; a rejected code is `Invalid` and deletes nothing; after an accepted
    /// one the secret is looked up again and deleted. Failures are passed on.
    pub fn disable_step(user: &User, totp: Option<&Otp>, step: DisableStep, event: SecretEvent) -> (r: (DisableStep, SecretAction))
        requires
            disable_expects(step, event, totp),
        ensures
            event is Begin && totp is None ==> r.1 == SecretAction::Finish(Err(MfaError::Required)),
            event is Begin && totp is Some ==> r == (DisableStep::SecretAsked, SecretAction::FindSecret(
                user.id,
                SecretKind::Otp,
            )),
            step == DisableStep::SecretAsked ==> (event matches SecretEvent::SecretFound(found)
                && match found {
                Err(e) => r.1 == SecretAction::Finish(Err(MfaError::Repository(e))),
                Ok(sec) => r.0 == DisableStep::CodeAsked && (r.1 matches SecretAction::CheckCode(
                    k,
                    c,
                ) && k@ == sec.data@ && c@ == totp->0.value@),
            }),
            event matches SecretEvent::CodeChecked(c) ==> match c {
                Ok(true) => r == (DisableStep::SecretAskedAgain, SecretAction::FindSecret(
                    user.id,
                    SecretKind::Otp,
                )),
                _ => r.1 == SecretAction::Finish(verdict_spec(c)),
            },
            step == DisableStep::SecretAskedAgain ==> (event matches SecretEvent::SecretFound(found)
                && match found {
                Err(e) => r.1 == SecretAction::Finish(Err(MfaError::Repository(e))),
                Ok(sec) => r == (DisableStep::DeleteAsked, SecretAction::DeleteSecret(sec)),
            }),
            event matches SecretEvent::SecretDeleted(d) ==> r.1 == SecretAction::Finish(
                passed_on(d),
            ),
    {
        match event {
            SecretEvent::Begin => match Self::required(totp) {
                Err(e) => (step, SecretAction::Finish(Err(e))),
                Ok(_) => (DisableStep::SecretAsked, SecretAction::FindSecret(user.id, SecretKind::Otp)),
            },
            SecretEvent::SecretFound(found) => {
                if step == DisableStep::SecretAsked {
                    let code = match totp {
                        Some(c) => c,
                        None => {
                            return (step, SecretAction::Finish(Err(MfaError::Required)));
                        },
                    };
                    match found {
                        Err(e) => (step, SecretAction::Finish(Err(MfaError::Repository(e)))),
                        Ok(sec) => (DisableStep::CodeAsked, Self::check_request(&sec, code)),
                    }
                } else {
                    match found {
                        Err(e) => (step, SecretAction::Finish(Err(MfaError::Repository(e)))),
                        Ok(sec) => (DisableStep::DeleteAsked, SecretAction::DeleteSecret(sec)),
                    }
                }
            },
            SecretEvent::CodeChecked(c) => match Self::verdict(c) {
                Ok(_) => (
                    DisableStep::SecretAskedAgain,
                    SecretAction::FindSecret(user.id, SecretKind::Otp),
                ),
                Err(e) => (step, SecretAction::Finish(Err(e))),
            },
            SecretEvent::SecretDeleted(d) => (step, SecretAction::Finish(Self::pass_on(d))),
        }
    }

    /// A repository or cache result, its failure passed on as a second-factor failure.
    pub fn pass_on<T>(r: Result<T, AuthError>) -> (out: Result<T, MfaError>)
        ensures
            out == passed_on(r),
    {
        match r {
            Ok(v) => Ok(v),
            Err(e) => Err(MfaError::Repository(e)),
        }
    }

    /// One step of enabling the authenticator-app second factor for `user`, who sent the code
    /// `totp`: first the cache is read for an unconfirmed secret; without one a new secret is
    /// drawn, cached for `otp_timeout` seconds and sent back to be confirmed (`Ack`); with one,
    /// a code is required and is handed to the TOTP check with the cached secret as key; a
    /// rejected code is `Invalid` and stores nothing; after an accepted one the code is stored
    /// as the user's OTP secret.
    pub fn enable_step(
        &self,
        user: &User,
        totp: Option<&Otp>,
        step: EnableStep,
        event: EnableEvent,
    ) -> (r: (EnableStep, EnableAction))
        requires
            enable_expects(step, event, totp),
        ensures
            step is Start ==> r.0 == EnableStep::CacheAsked && (r.1 matches EnableAction::ReadCache(
                k,
            ) && k@ == totp_key(user.id)),
            event matches EnableEvent::CacheRead(found) ==> match cached_spec(found) {
                Err(e) => r == (EnableStep::CacheAsked, EnableAction::Finish(Err(e))),
                Ok(None) => (r.1 matches EnableAction::WriteCache(k, o, t) && k@ == totp_key(
                    user.id,
                ) && t == self.otp_timeout && o.value@.len() == self.totp_secret_len && base32_text(
                    o.value@,
                ) && r.0 == EnableStep::NewSecretCached(o)),
                Ok(Some(cached)) => match totp {
                    None => r == (EnableStep::CacheAsked, EnableAction::Finish(
                        Err(MfaError::Required),
                    )),
                    Some(code) => r.0 == EnableStep::CodeAsked && (r.1 matches EnableAction::CheckCode(
                        k,
                        c,
                    ) && k@ == encode_utf8(cached.value@) && c@ == code.value@),
                },
            },
            event matches EnableEvent::CodeChecked(c) ==> match c {
                Ok(true) => r.0 == EnableStep::SecretStored && (r.1 matches EnableAction::StoreSecret(
                    sec,
                ) && sec.owner == user.id && sec.kind == SecretKind::Otp && sec.name@
                    == kind_secret_name(SecretKind::Otp) && sec.data@ == encode_utf8(
                    totp->0.value@,
                ) && sec.meta.deleted_at is None),
                _ => r == (EnableStep::CodeAsked, EnableAction::Finish(verdict_spec(c))),
            },
            event matches EnableEvent::CacheWritten(w) ==> (step matches EnableStep::NewSecretCached(
                o,
            ) && r == (step, EnableAction::Finish(
                Err(match w {
                    Ok(_) => MfaError::Ack(o.value),
                    Err(e) => MfaError::Repository(e),
                }),
            ))),
            event matches EnableEvent::SecretStoredAnswer(w) ==> r == (
                EnableStep::SecretStored,
                EnableAction::Finish(passed_on(w)),
            ),
    {
        match event {
            EnableEvent::Begin => (EnableStep::CacheAsked, EnableAction::ReadCache(Self::key(user))),
            EnableEvent::CacheRead(found) => match Self::cached(found) {
                Err(e) => (EnableStep::CacheAsked, EnableAction::Finish(Err(e))),
                Ok(None) => {
                    match self.totp_secret(user, self.totp_secret_len) {
                        Ok((shown, write)) => (EnableStep::NewSecretCached(shown), write),
                        Err(e) => (EnableStep::CacheAsked, EnableAction::Finish(Err(e))),
                    }
                },
                Ok(Some(cached)) => {
                    let code = match Self::required(totp) {
                        Ok(c) => c,
                        Err(e) => {
                            return (EnableStep::CacheAsked, EnableAction::Finish(Err(e)));
                        },
                    };
                    let key = vstd::slice::slice_to_vec(cached.as_str().as_bytes());
                    (EnableStep::CodeAsked, EnableAction::CheckCode(key, code.value.clone()))
                },
            },
            EnableEvent::CacheWritten(w) => {
                let otp = match step {
                    EnableStep::NewSecretCached(o) => o,
                    _ => {
                        return (EnableStep::Start, EnableAction::Finish(Err(MfaError::Required)));
                    },
                };
                let answer = Self::acknowledge(Otp { value: otp.value.clone() }, w);
                (EnableStep::NewSecretCached(otp), EnableAction::Finish(Err(answer)))
            },
            EnableEvent::CodeChecked(c) => match Self::verdict(c) {
                Err(e) => (EnableStep::CodeAsked, EnableAction::Finish(Err(e))),
                Ok(_) => {
                    let code = match totp {
                        Some(code) => code,
                        None => {
                            return (EnableStep::CodeAsked, EnableAction::Finish(Err(MfaError::Required)));
                        },
                    };
                    (EnableStep::SecretStored, EnableAction::StoreSecret(Self::confirmed_secret(user, code)))
                },
            },
            EnableEvent::SecretStoredAnswer(w) => (
                EnableStep::SecretStored,
                EnableAction::Finish(Self::pass_on(w)),
            ),
        }
    }

    /// The cache key of `user`'s unconfirmed TOTP secret.
    pub fn key(user: &User) -> (r: String)
        ensures
            r@ == totp_key(user.id),
    {
        let mut r = decimal_text(user.id);
        r.append("::");
        proof {
            reveal_strlit("::");
        }
        push_char(&mut r, 't');
        push_char(&mut r, 'o');
        push_char(&mut r, 't');
        push_char(&mut r, 'p');
        assert(r@ == totp_key(user.id));
        r
    }

    /// The code a request must carry; `Required` when it carries none.
    pub fn required(totp: Option<&Otp>) -> (r: Result<&Otp, MfaError>)
        ensures
            totp is None ==> r == Err::<&Otp, MfaError>(MfaError::Required),
            totp matches Some(o) ==> r == Ok::<&Otp, MfaError>(o),
    {
        match totp {
            None => Err(MfaError::Required),
            Some(o) => Ok(o),
        }
    }

    /// The answer once the code was checked.
    pub fn verdict(checked: Result<bool, AuthError>) -> (r: Result<(), MfaError>)
        ensures
            r == verdict_spec(checked),
    {
        match checked {
            Ok(true) => Ok(()),
            Ok(false) => Err(MfaError::Invalid),
            Err(e) => Err(MfaError::Repository(e)),
        }
    }

    /// What a lookup of the cached, unconfirmed secret means.
    pub fn cached(found: Result<Otp, AuthError>) -> (r: Result<Option<Otp>, MfaError>)
        ensures
            r == cached_spec(found),
    {
        match found {
            Ok(o) => Ok(Some(o)),
            Err(AuthError::NotFound) => Ok(None),
            Err(e) => Err(MfaError::Repository(e)),
        }
    }

    /// A new secret for `user` to confirm, `len` random characters, and the request to cache
    /// it under the user's `totp_key` for `otp_timeout` seconds; `acknowledge` then answers
    /// with the cache's reply. Drawing the secret does not fail.
    pub fn totp_secret(&self, user: &User, len: usize) -> (r: Result<(Otp, EnableAction), MfaError>)
        ensures
            r matches Ok((o, a)) && o.value@.len() == len && base32_text(o.value@) && (a matches EnableAction::WriteCache(
                k,
                c,
                t,
            ) && k@ == totp_key(user.id) && c == o && t == self.otp_timeout),
    {
        match Otp::with_length(len) {
            Ok(otp) => {
                let shown = Otp { value: otp.value.clone() };
                Ok((shown, EnableAction::WriteCache(Self::key(user), otp, self.otp_timeout)))
            },
            Err(e) => Err(e),
        }
    }

    /// The answer once a new secret was put in the cache: `Ack` with the secret for the user
    /// to confirm, or the cache's failure.
    pub fn acknowledge(otp: Otp, stored: Result<(), AuthError>) -> (r: MfaError)
        ensures
            stored matches Err(e) ==> r == MfaError::Repository(e),
            stored is Ok ==> r == MfaError::Ack(otp.value),
    {
        match stored {
            Err(e) => MfaError::Repository(e),
            Ok(_) => MfaError::Ack(otp.value),
        }
    }

    /// The secret stored once the user confirmed the cached one with a valid code: an OTP
    /// secret of the user holding the bytes of the code.
    pub fn confirmed_secret(user: &User, totp: &Otp) -> (s: Secret)
        ensures
            s.owner == user.id,
            s.kind == SecretKind::Otp,
            s.name@ == kind_secret_name(SecretKind::Otp),
            s.data@ == encode_utf8(totp.value@),
            s.meta.deleted_at is None,
    {
        Secret::new(SecretKind::Otp, user, totp.as_str().as_bytes())
    }
}

} // verus!
