//! Rate-limit metadata read from the free tier's response headers. A missing
//! or unparsable header degrades to an absent field; extraction never fails.

use vstd::prelude::*;
use vstd::string::StrSliceExecFns;

verus! {

/// The remaining-request budget the service reports on free-tier calls:
/// calls left in the current window, and seconds until the window resets.
/// Each field is absent where its header is missing or unparsable.
#[derive(Debug, Copy, Clone)]
pub struct RateLimit {
    pub remaining: Option<usize>,
    pub seconds_until_reset: Option<usize>,
}

/// The header carrying the remaining-call count.
pub fn header_key_x_rl() -> (r: &'static str)
    ensures
        r@ == "X-Rl"@,
{
    "X-Rl"
}

/// The header carrying the seconds until the window resets.
pub fn header_key_x_ttl() -> (r: &'static str)
    ensures
        r@ == "X-Ttl"@,
{
    "X-Ttl"
}

/// Whether two characters are equal up to ASCII case.
pub open spec fn chars_eq_ci(a: char, b: char) -> bool {
    lower_code(a as u32) == lower_code(b as u32)
}

/// The code point with an ASCII uppercase letter folded to lowercase.
pub open spec fn lower_code(x: u32) -> u32 {
    if 0x41 <= x <= 0x5a {
        (x + 0x20) as u32
    } else {
        x
    }
}

/// Whether two strings are equal up to ASCII case.
pub open spec fn str_eq_ci(a: Seq<char>, b: Seq<char>) -> bool {
    a.len() == b.len() && forall|i: int| 0 <= i < a.len() ==> chars_eq_ci(a[i], b[i])
}

/// The value of the first header whose name matches up to ASCII case.
pub open spec fn header_lookup(headers: Seq<(String, String)>, key: Seq<char>) -> Option<Seq<char>>
    decreases headers.len(),
{
    if headers.len() == 0 {
        None
    } else if str_eq_ci(headers[0].0@, key) {
        Some(headers[0].1@)
    } else {
        header_lookup(headers.drop_first(), key)
    }
}

/// Whether a character is a decimal digit.
pub open spec fn is_digit(c: char) -> bool {
    '0' <= c && c <= '9'
}

/// The value of a string of decimal digits, most significant first.
pub open spec fn dec_val(s: Seq<char>) -> int
    decreases s.len(),
{
    if s.len() == 0 {
        0
    } else {
        dec_val(s.drop_last()) * 10 + (s.last() as u32 - 0x30)
    }
}

/// A number's digits: the whole string, less an optional leading `+`.
pub open spec fn digits_part(s: Seq<char>) -> Seq<char> {
    if s.len() > 0 && s[0] == '+' {
        s.drop_first()
    } else {
        s
    }
}

/// What parsing a string as a non-negative machine integer yields: an
/// optional leading `+`, then at least one digit and nothing else, with a
/// value that fits.
pub open spec fn parsed_usize(s: Seq<char>) -> Option<usize> {
    let t = digits_part(s);
    if t.len() > 0 && (forall|i: int| 0 <= i < t.len() ==> is_digit(t[i])) && dec_val(t)
        <= usize::MAX {
        Some(dec_val(t) as usize)
    } else {
        None
    }
}

/// The rate-limit field a header set yields for one header name.
pub open spec fn header_number(headers: Seq<(String, String)>, key: Seq<char>) -> Option<usize> {
    match header_lookup(headers, key) {
        Some(v) => parsed_usize(v),
        None => None,
    }
}

/// The rate-limit metadata a header set yields, when no API key was used.
pub open spec fn rate_limit_of(headers: Seq<(String, String)>) -> RateLimit {
    RateLimit {
        remaining: header_number(headers, "X-Rl"@),
        seconds_until_reset: header_number(headers, "X-Ttl"@),
    }
}

/// A digit string's value never shrinks as digits are appended.
proof fn lemma_dec_val_nonneg(s: Seq<char>)
    requires
        forall|i: int| 0 <= i < s.len() ==> is_digit(s[i]),
    ensures
        dec_val(s) >= 0,
    decreases s.len(),
{
    if s.len() > 0 {
        lemma_dec_val_nonneg(s.drop_last());
        assert(forall|i: int| 0 <= i < s.drop_last().len() ==> is_digit(s.drop_last()[i]));
    }
}

proof fn lemma_dec_val_prefix(s: Seq<char>, k: int)
    requires
        forall|i: int| 0 <= i < s.len() ==> is_digit(s[i]),
        0 <= k <= s.len(),
    ensures
        dec_val(s) >= dec_val(s.take(k)),
    decreases s.len() - k,
{
    if k < s.len() {
        lemma_dec_val_prefix(s, k + 1);
        let t = s.take(k + 1);
        assert(t.drop_last() =~= s.take(k));
        assert(forall|i: int| 0 <= i < s.take(k).len() ==> is_digit(s.take(k)[i]));
        lemma_dec_val_nonneg(s.take(k));
        assert(dec_val(t) == dec_val(s.take(k)) * 10 + (t.last() as u32 - 0x30));
        assert(dec_val(t) >= dec_val(s.take(k)));
    } else {
        assert(s.take(k) =~= s);
    }
}

fn char_lower_code(c: char) -> (r: u32)
    ensures
        r == lower_code(c as u32),
{
    let x = c as u32;
    if 0x41 <= x && x <= 0x5a {
        x + 0x20
    } else {
        x
    }
}

/// Compares two strings up to ASCII case.
fn eq_ignore_case(a: &str, b: &str) -> (r: bool)
    ensures
        r == str_eq_ci(a@, b@),
{
    let an = a.unicode_len();
    let bn = b.unicode_len();
    if an != bn {
        return false;
    }
    let mut i: usize = 0;
    while i < an
        invariant
            an == a@.len(),
            bn == b@.len(),
            an == bn,
            i <= an,
            forall|j: int| 0 <= j < i ==> chars_eq_ci(a@[j], b@[j]),
        decreases an - i,
    {
        let ca = a.get_char(i);
        let cb = b.get_char(i);
        if char_lower_code(ca) != char_lower_code(cb) {
            return false;
        }
        i = i + 1;
    }
    true
}

/// Finds the first header whose name matches up to ASCII case.
pub fn header_value(headers: &Vec<(String, String)>, key: &str) -> (r: Option<String>)
    ensures
        (r matches Some(v) ==> header_lookup(headers@, key@) == Some(v@)),
        (r is None ==> header_lookup(headers@, key@) is None),
{
    let mut i: usize = 0;
    proof {
        assert(headers@.skip(0) =~= headers@);
    }
    while i < headers.len()
        invariant
            i <= headers@.len(),
            forall|j: int| 0 <= j < i ==> !str_eq_ci(headers@[j].0@, key@),
            header_lookup(headers@, key@) == header_lookup(headers@.skip(i as int), key@),
        decreases headers@.len() - i,
    {
        let p = &headers[i];
        let matched = eq_ignore_case(p.0.as_str(), key);
        proof {
            assert(headers@.skip(i as int)[0] == headers@[i as int]);
            assert(headers@.skip(i as int).drop_first() =~= headers@.skip(i + 1));
        }
        if matched {
            return Some(p.1.clone());
        }
        i = i + 1;
    }
    proof {
        assert(headers@.skip(headers@.len() as int) =~= Seq::<(String, String)>::empty());
    }
    None
}

/// Parses a string as a non-negative machine integer: an optional leading
/// `+`, then at least one digit and nothing else, with a value that fits.
pub fn parse_usize(s: &str) -> (r: Option<usize>)
    ensures
        r == parsed_usize(s@),
{
    let n = s.unicode_len();
    let start: usize = if n > 0 && s.get_char(0) == '+' {
        1
    } else {
        0
    };
    let ghost t = digits_part(s@);
    proof {
        assert(t =~= s@.skip(start as int));
    }
    if start == n {
        return None;
    }
    let mut acc: usize = 0;
    let mut i: usize = start;
    while i < n
        invariant
            n == s@.len(),
            start <= i <= n,
            start < n,
            t == digits_part(s@),
            t == s@.skip(start as int),
            t.len() == n - start,
            forall|j: int| 0 <= j < i - start ==> is_digit(t[j]),
            acc == dec_val(t.take(i - start)),
        decreases n - i,
    {
        let c = s.get_char(i);
        if c < '0' || c > '9' {
            proof {
                assert(t[i - start] == s@[i as int]);
                assert(!(forall|j: int| 0 <= j < t.len() ==> is_digit(t[j]))) by {
                    assert(0 <= i - start < t.len() && !is_digit(t[i - start]));
                }
            }
            return None;
        }
        let d = (c as u32 - 0x30) as usize;
        proof {
            assert(t[i - start] == s@[i as int]);
            assert(is_digit(t[i - start]));
            assert(forall|j: int| 0 <= j < i + 1 - start ==> is_digit(t[j]));
        }
        let grown = match acc.checked_mul(10) {
            Some(x) => x.checked_add(d),
            None => None,
        };
        match grown {
            Some(x) => {
                acc = x;
                proof {
                    let w = t.take(i + 1 - start);
                    assert(w.drop_last() =~= t.take(i - start));
                    assert(w.last() == t[i - start]);
                    assert(acc == dec_val(w));
                }
            },
            None => {
                proof {
                    let w = t.take(i + 1 - start);
                    assert(w.drop_last() =~= t.take(i - start));
                    assert(w.last() == t[i - start]);
                    assert(dec_val(w) > usize::MAX);
                    if forall|j: int| 0 <= j < t.len() ==> is_digit(t[j]) {
                        lemma_dec_val_prefix(t, i + 1 - start);
                        assert(dec_val(t) >= dec_val(w));
                    }
                }
                return None;
            },
        }
        i = i + 1;
    }
    proof {
        assert(t.take(n - start) =~= t);
    }
    Some(acc)
}

/// Reads the rate-limit metadata out of a response header set.
pub fn rate_limit_from_headers(headers: &Vec<(String, String)>) -> (r: RateLimit)
    ensures
        r == rate_limit_of(headers@),
{
    let remaining = match header_value(headers, header_key_x_rl()) {
        Some(v) => parse_usize(v.as_str()),
        None => None,
    };
    let seconds_until_reset = match header_value(headers, header_key_x_ttl()) {
        Some(v) => parse_usize(v.as_str()),
        None => None,
    };
    RateLimit { remaining, seconds_until_reset }
}

} // verus!
