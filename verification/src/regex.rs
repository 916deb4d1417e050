//! The textual formats the service accepts for emails and application URLs.
use vstd::prelude::*;

verus! {

/// ASCII letters and digits.
pub open spec fn is_alnum(c: char) -> bool {
    ('a' <= c && c <= 'z') || ('A' <= c && c <= 'Z') || ('0' <= c && c <= '9')
}

/// Characters allowed before the `@` of an email.
pub open spec fn is_local_char(c: char) -> bool {
    is_alnum(c) || c == '.' || c == '_' || c == '%' || c == '+' || c == '-'
}

/// Characters allowed in a host name.
pub open spec fn is_host_char(c: char) -> bool {
    is_alnum(c) || c == '.' || c == '-'
}

pub open spec fn all_local(s: Seq<char>) -> bool {
    forall|k: int| 0 <= k < s.len() ==> is_local_char(#[trigger] s[k])
}

pub open spec fn all_host(s: Seq<char>) -> bool {
    forall|k: int| 0 <= k < s.len() ==> is_host_char(#[trigger] s[k])
}

/// A host name: host characters only, at least one dot, neither starting nor ending with one.
pub open spec fn is_host(d: Seq<char>) -> bool {
    &&& d.len() > 0
    &&& all_host(d)
    &&& d[0] != '.'
    &&& d[d.len() - 1] != '.'
    &&& d.contains('.')
}

/// `local@host`, with a non-empty local part.
pub open spec fn is_email(s: Seq<char>) -> bool {
    exists|i: int|
        0 < i < s.len() && #[trigger] s[i] == '@' && all_local(s.take(i)) && is_host(s.skip(i + 1))
}

/// Characters allowed after the host of a URL.
pub open spec fn is_path_char(c: char) -> bool {
    '!' <= c && c <= '~'
}

/// What follows `scheme://`: a host name, then nothing or a path starting with `/`.
pub open spec fn is_url_rest(r: Seq<char>) -> bool {
    exists|j: int|
        #![trigger r.take(j)]
        0 < j <= r.len() && is_host(r.take(j)) && (j == r.len() || (r[j] == '/' && forall|k: int|
            j <= k < r.len() ==> is_path_char(#[trigger] r[k])))
}

pub open spec fn http_prefix() -> Seq<char> {
    seq!['h', 't', 't', 'p', ':', '/', '/']
}

pub open spec fn https_prefix() -> Seq<char> {
    seq!['h', 't', 't', 'p', 's', ':', '/', '/']
}

/// An `http://` or `https://` URL.
pub open spec fn is_url(s: Seq<char>) -> bool {
    ||| (s.len() >= 7 && s.take(7) == http_prefix() && is_url_rest(s.skip(7)))
    ||| (s.len() >= 8 && s.take(8) == https_prefix() && is_url_rest(s.skip(8)))
}

pub fn char_is_alnum(c: char) -> (r: bool)
    ensures
        r == is_alnum(c),
{
    ('a' <= c && c <= 'z') || ('A' <= c && c <= 'Z') || ('0' <= c && c <= '9')
}

fn char_is_local(c: char) -> (r: bool)
    ensures
        r == is_local_char(c),
{
    char_is_alnum(c) || c == '.' || c == '_' || c == '%' || c == '+' || c == '-'
}

fn char_is_host(c: char) -> (r: bool)
    ensures
        r == is_host_char(c),
{
    char_is_alnum(c) || c == '.' || c == '-'
}

/// The characters of a string, one by one.
pub fn chars_of(s: &str) -> (v: Vec<char>)
    ensures
        v@ == s@,
{
    let n = s.unicode_len();
    let mut v: Vec<char> = Vec::new();
    let mut i: usize = 0;
    while i < n
        invariant
            n == s@.len(),
            i <= n,
            v@ == s@.take(i as int),
        decreases n - i,
    {
        v.push(s.get_char(i));
        i = i + 1;
    }
    v
}

/// Whether two texts are equal.
pub fn same_text(a: &str, b: &str) -> (r: bool)
    ensures
        r == (a@ == b@),
{
    let x = chars_of(a);
    let y = chars_of(b);
    if x.len() != y.len() {
        return false;
    }
    let mut i: usize = 0;
    while i < x.len()
        invariant
            x@ == a@,
            y@ == b@,
            x@.len() == y@.len(),
            i <= x@.len(),
            forall|k: int| 0 <= k < i ==> x@[k] == y@[k],
        decreases x@.len() - i,
    {
        if x[i] != y[i] {
            assert(x@[i as int] != y@[i as int]);
            return false;
        }
        i = i + 1;
    }
    assert(x@ =~= y@);
    true
}

/// Whether `v[from..to]` is a host name.
fn check_host(v: &Vec<char>, from: usize, to: usize) -> (r: bool)
    requires
        from <= to <= v@.len(),
    ensures
        r == is_host(v@.subrange(from as int, to as int)),
{
    let ghost d = v@.subrange(from as int, to as int);
    if from == to {
        return false;
    }
    if v[from] == '.' || v[to - 1] == '.' {
        assert(d[0] == v@[from as int]);
        assert(d[d.len() - 1] == v@[to - 1]);
        return false;
    }
    let mut dot = false;
    let mut k = from;
    while k < to
        invariant
            from <= k <= to <= v@.len(),
            d == v@.subrange(from as int, to as int),
            forall|m: int| from <= m < k ==> is_host_char(#[trigger] v@[m]),
            dot <==> exists|m: int| from <= m < k && #[trigger] v@[m] == '.',
        decreases to - k,
    {
        if !char_is_host(v[k]) {
            assert(!is_host_char(d[k - from]));
            return false;
        }
        if v[k] == '.' {
            dot = true;
        }
        k = k + 1;
    }
    assert(all_host(d)) by {
        assert forall|m: int| 0 <= m < d.len() implies is_host_char(#[trigger] d[m]) by {
            assert(d[m] == v@[from + m]);
        }
    }
    if dot {
        let ghost m = choose|m: int| from <= m < to && #[trigger] v@[m] == '.';
        assert(d[m - from] == '.');
    } else {
        assert forall|m: int| 0 <= m < d.len() implies #[trigger] d[m] != '.' by {
            assert(d[m] == v@[from + m]);
        }
    }
    dot
}

/// Whether `s` is an email address.
pub fn is_email_str(s: &str) -> (r: bool)
    ensures
        r == is_email(s@),
{
    let v = chars_of(s);
    let n = v.len();
    let mut i: usize = 0;
    while i < n
        invariant
            n == v@.len(),
            i <= n,
            forall|k: int| 0 <= k < i ==> is_local_char(#[trigger] v@[k]),
        ensures
            i <= n,
            forall|k: int| 0 <= k < i ==> is_local_char(#[trigger] v@[k]),
            i < n ==> v@[i as int] == '@' || !is_local_char(v@[i as int]),
        decreases n - i,
    {
        if v[i] == '@' || !char_is_local(v[i]) {
            break;
        }
        i = i + 1;
    }
    if i >= n || v[i] != '@' || i == 0 {
        proof {
            assert forall|j: int|
                0 < j < v@.len() && #[trigger] v@[j] == '@' implies !all_local(v@.take(j)) by {
                if j < i {
                    assert(is_local_char(v@[j]));
                } else {
                    assert(v@.take(j)[i as int] == v@[i as int]);
                }
            }
        }
        return false;
    }
    let r = check_host(&v, i + 1, n);
    proof {
        assert(v@.skip(i + 1) == v@.subrange(i + 1, n as int));
        assert(v@.take(i as int)[0] == v@[0]);
        assert(all_local(v@.take(i as int)));
        if !r {
            assert forall|j: int|
                0 < j < v@.len() && #[trigger] v@[j] == '@' && all_local(v@.take(j)) implies !is_host(
                v@.skip(j + 1),
            ) by {
                if j < i {
                    assert(is_local_char(v@[j]));
                } else if j > i {
                    assert(v@.take(j)[i as int] == v@[i as int]);
                }
            }
        }
    }
    r
}

/// Whether `v[from..]` is what may follow `scheme://` in a URL.
fn check_url_rest(v: &Vec<char>, from: usize) -> (r: bool)
    requires
        from <= v@.len(),
    ensures
        r == is_url_rest(v@.skip(from as int)),
{
    let ghost rest = v@.skip(from as int);
    let n = v.len();
    let mut p = from;
    while p < n
        invariant
            from <= p <= n == v@.len(),
            forall|k: int| from <= k < p ==> #[trigger] v@[k] != '/',
        ensures
            from <= p <= n,
            forall|k: int| from <= k < p ==> #[trigger] v@[k] != '/',
            p < n ==> v@[p as int] == '/',
        decreases n - p,
    {
        if v[p] == '/' {
            break;
        }
        p = p + 1;
    }
    let host_ok = check_host(&v, from, p);
    assert(rest.take(p - from) == v@.subrange(from as int, p as int));
    if !host_ok {
        proof {
            assert forall|j: int|
                0 < j <= rest.len() && is_host(#[trigger] rest.take(j)) implies !(j == rest.len() || (
                rest[j] == '/' && forall|k: int|
                    j <= k < rest.len() ==> is_path_char(#[trigger] rest[k]))) by {
                if j < p - from {
                    assert(rest[j] == v@[from + j]);
                } else if j > p - from {
                    assert(rest.take(j)[p - from] == v@[p as int]);
                    assert(!is_host_char(rest.take(j)[p - from]));
                }
            }
        }
        return false;
    }
    let mut k = p;
    while k < n
        invariant
            from <= p <= k <= n == v@.len(),
            rest == v@.skip(from as int),
            forall|m: int| from <= m < p ==> #[trigger] v@[m] != '/',
            p < n ==> v@[p as int] == '/',
            is_host(rest.take(p - from)),
            forall|m: int| p <= m < k ==> is_path_char(#[trigger] v@[m]),
        decreases n - k,
    {
        if !('!' <= v[k] && v[k] <= '~') {
            proof {
                assert forall|j: int|
                    0 < j <= rest.len() && is_host(#[trigger] rest.take(j)) implies !(j == rest.len() || (
                    rest[j] == '/' && forall|m: int|
                        j <= m < rest.len() ==> is_path_char(#[trigger] rest[m]))) by {
                    if j < p - from {
                        assert(rest[j] == v@[from + j]);
                    } else if j > p - from {
                        assert(rest.take(j)[p - from] == v@[p as int]);
                        assert(!is_host_char(rest.take(j)[p - from]));
                    } else {
                        assert(rest[k - from] == v@[k as int]);
                    }
                }
            }
            return false;
        }
        k = k + 1;
    }
    proof {
        let j = p - from;
        if p < n {
            assert(rest[j] == '/');
            assert forall|m: int| j <= m < rest.len() implies is_path_char(#[trigger] rest[m]) by {
                assert(rest[m] == v@[from + m]);
            }
        }
        assert(0 < j <= rest.len() && is_host(rest.take(j)) && (j == rest.len() || (rest[j] == '/'
            && forall|m: int| j <= m < rest.len() ==> is_path_char(#[trigger] rest[m]))));
    }
    true
}

/// Whether `v` starts with `prefix`.
fn has_prefix(v: &Vec<char>, prefix: &Vec<char>) -> (r: bool)
    ensures
        r == (v@.len() >= prefix@.len() && v@.take(prefix@.len() as int) == prefix@),
{
    if v.len() < prefix.len() {
        return false;
    }
    let mut i: usize = 0;
    while i < prefix.len()
        invariant
            i <= prefix@.len() <= v@.len(),
            forall|k: int| 0 <= k < i ==> v@[k] == prefix@[k],
        decreases prefix@.len() - i,
    {
        if v[i] != prefix[i] {
            assert(v@.take(prefix@.len() as int)[i as int] != prefix@[i as int]);
            return false;
        }
        i = i + 1;
    }
    assert(v@.take(prefix@.len() as int) =~= prefix@);
    true
}

/// Whether `s` is an `http://` or `https://` URL.
pub fn is_url_str(s: &str) -> (r: bool)
    ensures
        r == is_url(s@),
{
    let v = chars_of(s);
    let http = vec!['h', 't', 't', 'p', ':', '/', '/'];
    let https = vec!['h', 't', 't', 'p', 's', ':', '/', '/'];
    assert(http@ == http_prefix());
    assert(https@ == https_prefix());
    if has_prefix(&v, &http) {
        proof {
            assert(v@[4] == v@.take(7)[4]);
            if v@.len() >= 8 {
                assert(v@.take(8)[4] == v@[4]);
                assert(https_prefix()[4] == 's');
            }
        }
        check_url_rest(&v, 7)
    } else if has_prefix(&v, &https) {
        check_url_rest(&v, 8)
    } else {
        false
    }
}

/// Accepts `s` when it is an email address.
pub fn match_email(s: &str) -> (r: Result<(), crate::errors::AuthError>)
    ensures
        r is Ok <==> is_email(s@),
        r is Err ==> r == Err::<(), _>(crate::errors::AuthError::InvalidFormat),
{
    if is_email_str(s) {
        Ok(())
    } else {
        Err(crate::errors::AuthError::InvalidFormat)
    }
}

/// Accepts `s` when it is an `http://` or `https://` URL.
pub fn match_url(s: &str) -> (r: Result<(), crate::errors::AuthError>)
    ensures
        r is Ok <==> is_url(s@),
        r is Err ==> r == Err::<(), _>(crate::errors::AuthError::InvalidFormat),
{
    if is_url_str(s) {
        Ok(())
    } else {
        Err(crate::errors::AuthError::InvalidFormat)
    }
}

} // verus!
