//! One-time-password secrets.
use vstd::prelude::*;
use crate::security::{push_char, random_below};

verus! {

/// The characters a new TOTP secret is drawn from (the base32 alphabet).
pub const OTP_CHARSET: &'static str = "ABCDEFGHIJKLMNOPQRSTUVWXYZ234567";

/// `c` is in the base32 alphabet: an upper-case ASCII letter, or a digit from 2 to 7.
pub open spec fn base32_char(c: char) -> bool {
    (65 <= (c as u32) && (c as u32) <= 90) || (50 <= (c as u32) && (c as u32) <= 55)
}

/// Every character of `v` is in the base32 alphabet, so that an authenticator app accepts it
/// as a secret.
pub open spec fn base32_text(v: Seq<char>) -> bool {
    forall|i: int| 0 <= i < v.len() ==> base32_char(#[trigger] v[i])
}

/// Every character a new secret is drawn from is in the base32 alphabet.
pub proof fn law_otp_charset_is_base32(c: char)
    requires
        OTP_CHARSET@.contains(c),
    ensures
        base32_char(c),
{
    reveal_strlit("ABCDEFGHIJKLMNOPQRSTUVWXYZ234567");
    let i = choose|i: int| 0 <= i < OTP_CHARSET@.len() && OTP_CHARSET@[i] == c;
    assert(0 <= i < 32);
    assert(base32_char(OTP_CHARSET@[i]));
}

/// A TOTP secret or code, as text.
#[derive(Debug, PartialEq, Eq, Clone)]
pub struct Otp {
    pub value: String,
}

impl Otp {
    /// The text of the secret or code.
    pub fn as_str(&self) -> (r: &str)
        ensures
            r@ == self.value@,
    {
        self.value.as_str()
    }

    /// A random secret of `len` characters drawn from `OTP_CHARSET`.
    pub fn with_length(len: usize) -> (r: Result<Otp, crate::mfa::error::MfaError>)
        ensures
            r matches Ok(o) && o.value@.len() == len && forall|i: int|
                0 <= i < len ==> OTP_CHARSET@.contains(#[trigger] o.value@[i]),
            r matches Ok(o) && base32_text(o.value@),
    {
        proof {
            reveal_strlit("ABCDEFGHIJKLMNOPQRSTUVWXYZ234567");
        }
        let n = OTP_CHARSET.unicode_len();
        let mut t = String::new();
        let mut i: usize = 0;
        while i < len
            invariant
                i <= len,
                n == OTP_CHARSET@.len(),
                n > 0,
                t@.len() == i,
                forall|k: int| 0 <= k < i ==> OTP_CHARSET@.contains(#[trigger] t@[k]),
            decreases len - i,
        {
            let c = OTP_CHARSET.get_char(random_below(n));
            push_char(&mut t, c);
            assert(t@[i as int] == c);
            i = i + 1;
        }
        assert forall|k: int| 0 <= k < t@.len() implies base32_char(#[trigger] t@[k]) by {
            law_otp_charset_is_base32(t@[k]);
        }
        Ok(Otp { value: t })
    }
}

} // verus!
