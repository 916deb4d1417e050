//! Password shadowing, second-factor codes, randomness and the clock.
use vstd::prelude::*;
use vstd::utf8::encode_utf8;
use rand::Rng;
use sha2::Digest;


verus! {

/// The SHA-256 digest of a byte sequence, as computed by the `sha2` crate.
pub uninterp spec fn sha256_spec(data: Seq<u8>) -> Seq<u8>;

/// Calls `sha2::Sha256::digest`. Claimed: the result is the SHA-256 digest of `data`
/// (named `sha256_spec`), which the crate documents as 32 bytes long.
#[verifier::external_body]
fn sha256(data: &[u8]) -> (r: Vec<u8>)
    ensures
        r@ == sha256_spec(data@),
        r@.len() == 32,
{
    sha2::Sha256::digest(data).to_vec()
}

/// Calls `String::push`. Claimed: `c` is appended to `s`.
#[verifier::external_body]
pub(crate) fn push_char(s: &mut String, c: char)
    ensures
        final(s)@ == old(s)@.push(c),
{
    s.push(c)
}

/// The lower-case hexadecimal digit of `d`.
pub open spec fn hex_digit(d: u8) -> char {
    if d < 10 {
        (d + 48) as char
    } else {
        (d + 87) as char
    }
}

/// The lower-case hexadecimal encoding of `data`, two digits per byte.
pub open spec fn hex_lower(data: Seq<u8>) -> Seq<char>
    decreases data.len(),
{
    if data.len() == 0 {
        Seq::empty()
    } else {
        hex_lower(data.drop_last()).push(hex_digit(data.last() / 16)).push(
            hex_digit(data.last() % 16),
        )
    }
}

fn hex_digit_exec(d: u8) -> (c: char)
    requires
        d < 16,
    ensures
        c == hex_digit(d),
{
    if d < 10 {
        (d + 48) as char
    } else {
        (d + 87) as char
    }
}

/// Encodes `data` in lower-case hexadecimal.
pub fn to_hex_lower(data: &[u8]) -> (r: String)
    ensures
        r@ == hex_lower(data@),
{
    let mut r = String::new();
    let n = data.len();
    let mut i: usize = 0;
    while i < n
        invariant
            n == data@.len(),
            i <= n,
            r@ == hex_lower(data@.take(i as int)),
        decreases n - i,
    {
        let b = data[i];
        push_char(&mut r, hex_digit_exec(b / 16));
        push_char(&mut r, hex_digit_exec(b % 16));
        assert(data@.take(i + 1).drop_last() == data@.take(i as int));
        i = i + 1;
    }
    assert(data@.take(n as int) == data@);
    r
}

/// A password shadowed with a salt: the hexadecimal SHA-256 digest of the UTF-8
/// bytes of the password followed by those of the salt.
pub open spec fn shadow_spec(pwd: Seq<char>, salt: Seq<char>) -> Seq<char> {
    hex_lower(sha256_spec(encode_utf8(pwd) + encode_utf8(salt)))
}

/// Shadows `pwd` with the salt `salt`.
pub fn shadow(pwd: &str, salt: &str) -> (r: String)
    ensures
        r@ == shadow_spec(pwd@, salt@),
{
    let a = pwd.as_bytes();
    let b = salt.as_bytes();
    let mut buf: Vec<u8> = Vec::new();
    let mut i: usize = 0;
    while i < a.len()
        invariant
            i <= a@.len(),
            buf@ == a@.take(i as int),
        decreases a@.len() - i,
    {
        buf.push(a[i]);
        i = i + 1;
    }
    let mut j: usize = 0;
    while j < b.len()
        invariant
            j <= b@.len(),
            buf@ == a@ + b@.take(j as int),
        decreases b@.len() - j,
    {
        buf.push(b[j]);
        j = j + 1;
    }
    assert(a@.take(a@.len() as int) == a@);
    assert(b@.take(b@.len() as int) == b@);
    let digest = sha256(buf.as_slice());
    to_hex_lower(digest.as_slice())
}

#[verifier::external_type_specification]
#[verifier::external_body]
pub struct ExOathError(libreauth::oath::Error);

/// `code` is the one-time password of the key `key` at time step `step`: the HOTP code (HMAC
/// SHA-1, six decimal digits) of `key` for the counter `step`.
pub uninterp spec fn totp_code_valid(key: Seq<u8>, code: Seq<char>, step: u64) -> bool;

/// Calls `libreauth::oath::TOTPBuilder::new().key(key).finalize()` and, on the `TOTP` built,
/// `is_valid(code)`. Claimed: the result is `Ok`, as the builder's source returns an error
/// only for a missing key, a zero period or a code length out of range, and here the key is
/// set and the rest keep their defaults; and the verdict is whether `code` is the code of
/// `key` at some time step, the current one, which the clock decides (with the default
/// tolerance of zero periods only that step is tried). Which step that is, is not claimed.
#[verifier::external_body]
fn totp_check(key: &[u8], code: &str) -> (r: Result<bool, libreauth::oath::Error>)
    ensures
        r is Ok,
        exists|step: u64| r->Ok_0 == totp_code_valid(key@, code@, step),
{
    libreauth::oath::TOTPBuilder::new().key(key).finalize().map(|t| t.is_valid(code))
}

/// Whether `code` is the current TOTP code for the key `secret`: the verdict for `secret`
/// and `code` at the current time step.
pub fn verify_totp(secret: &[u8], code: &str) -> (r: Result<bool, crate::errors::AuthError>)
    ensures
        r matches Ok(b) && exists|step: u64| b == totp_code_valid(secret@, code@, step),
{
    match totp_check(secret, code) {
        Ok(b) => Ok(b),
        Err(_) => Err(crate::errors::AuthError::Totp),
    }
}

/// Calls `rand::thread_rng().gen_range(0..bound)`. Claimed: the result is below `bound`;
/// `gen_range` panics on an empty range, hence the `requires`.
#[verifier::external_body]
pub fn random_below(bound: usize) -> (r: usize)
    requires
        bound > 0,
    ensures
        r < bound,
{
    rand::thread_rng().gen_range(0..bound)
}

#[verifier::external_type_specification]
#[verifier::external_body]
pub struct ExSystemTime(std::time::SystemTime);

#[verifier::external_type_specification]
#[verifier::external_body]
pub struct ExSystemTimeError(std::time::SystemTimeError);

/// Calls `std::time::SystemTime::now`. Nothing is claimed of the result: it is the time.
#[verifier::external_body]
fn system_now() -> std::time::SystemTime {
    std::time::SystemTime::now()
}

/// Calls `SystemTime::duration_since(UNIX_EPOCH)`. Nothing is claimed of the result.
#[verifier::external_body]
fn since_unix_epoch(t: &std::time::SystemTime) -> Result<
    core::time::Duration,
    std::time::SystemTimeError,
> {
    t.duration_since(std::time::UNIX_EPOCH)
}

/// Calls `Duration::as_secs`. Nothing is claimed of the result.
#[verifier::external_body]
fn whole_seconds(d: &core::time::Duration) -> u64 {
    d.as_secs()
}

/// The current time in whole seconds since the Unix epoch; 0 for a clock set before it.
pub fn unix_now() -> u64 {
    match since_unix_epoch(&system_now()) {
        Ok(d) => whole_seconds(&d),
        Err(_) => 0,
    }
}

} // verus!
