use vstd::prelude::*;
use crate::error::AuthError;

verus! {

/// Whether a character has Unicode's White_Space property.
pub uninterp spec fn unicode_space(c: char) -> bool;

/// Relies on char::is_whitespace: whether a character has Unicode's
/// White_Space property, a fact of the character alone.
#[verifier::external_body]
fn is_space(c: char) -> (r: bool)
    ensures
        r == unicode_space(c),
{
    c.is_whitespace()
}

/// `s` with its leading whitespace removed.
pub open spec fn trim_start(s: Seq<char>) -> Seq<char>
    decreases s.len(),
{
    if s.len() > 0 && unicode_space(s[0]) {
        trim_start(s.subrange(1, s.len() as int))
    } else {
        s
    }
}

/// `s` with its trailing whitespace removed.
pub open spec fn trim_end(s: Seq<char>) -> Seq<char>
    decreases s.len(),
{
    if s.len() > 0 && unicode_space(s[s.len() - 1]) {
        trim_end(s.subrange(0, s.len() - 1))
    } else {
        s
    }
}

/// `s` with both leading and trailing whitespace removed.
pub open spec fn trimmed(s: Seq<char>) -> Seq<char> {
    trim_end(trim_start(s))
}

proof fn lemma_trim_start_is_skip(s: Seq<char>, k: int)
    requires
        0 <= k <= s.len(),
        forall|j: int| 0 <= j < k ==> unicode_space(s[j]),
        k < s.len() ==> !unicode_space(s[k]),
    ensures
        trim_start(s) == s.subrange(k, s.len() as int),
    decreases k,
{
    if k == 0 {
        assert(s.subrange(0, s.len() as int) =~= s);
    } else {
        let s1 = s.subrange(1, s.len() as int);
        assert(unicode_space(s[0]));
        assert(forall|j: int| 0 <= j < k - 1 ==> unicode_space(s1[j]));
        lemma_trim_start_is_skip(s1, k - 1);
        assert(s1.subrange(k - 1, s1.len() as int) =~= s.subrange(k, s.len() as int));
    }
}

proof fn lemma_trim_end_is_take(s: Seq<char>, k: int)
    requires
        0 <= k <= s.len(),
        forall|j: int| k <= j < s.len() ==> unicode_space(s[j]),
        k > 0 ==> !unicode_space(s[k - 1]),
    ensures
        trim_end(s) == s.subrange(0, k),
    decreases s.len() - k,
{
    if k == s.len() {
        if s.len() > 0 {
            assert(s.subrange(0, s.len() as int) =~= s);
        } else {
            assert(s.subrange(0, 0) =~= s);
        }
    } else {
        let s1 = s.subrange(0, s.len() - 1);
        assert(unicode_space(s[s.len() - 1]));
        assert(forall|j: int| k <= j < s1.len() ==> unicode_space(s1[j]));
        lemma_trim_end_is_take(s1, k);
        assert(s1.subrange(0, k) =~= s.subrange(0, k));
    }
}

/// Removes leading and trailing whitespace from `s`.
pub fn trim_chars(s: &str) -> (r: String)
    ensures
        r@ == trimmed(s@),
{
    let n = s.unicode_len();
    let mut start: usize = 0;
    while start < n && is_space(s.get_char(start))
        invariant
            n == s@.len(),
            0 <= start <= n,
            forall|j: int| 0 <= j < start ==> unicode_space(s@[j]),
        decreases n - start,
    {
        start = start + 1;
    }
    let mut end: usize = n;
    while end > start && is_space(s.get_char(end - 1))
        invariant
            n == s@.len(),
            start <= end <= n,
            forall|j: int| end <= j < n ==> unicode_space(s@[j]),
        decreases end,
    {
        end = end - 1;
    }
    let t = s.substring_char(start, end);
    proof {
        lemma_trim_start_is_skip(s@, start as int);
        let t1 = s@.subrange(start as int, n as int);
        assert(forall|j: int| end - start <= j < t1.len() ==> unicode_space(t1[j]));
        lemma_trim_end_is_take(t1, end - start);
        assert(t1.subrange(0, end - start) =~= s@.subrange(start as int, end as int));
    }
    t.to_owned()
}

/// Whether the header value begins with the bearer scheme marker
/// `"Bearer "`.
pub open spec fn has_bearer_prefix(s: Seq<char>) -> bool {
    s.len() >= 7 && s[0] == 'B' && s[1] == 'e' && s[2] == 'a' && s[3] == 'r' && s[4] == 'e'
        && s[5] == 'r' && s[6] == ' '
}

/// The credential carried by a bearer-scheme header value: everything
/// after the first six characters, with surrounding whitespace removed.
pub open spec fn bearer_token(s: Seq<char>) -> Seq<char> {
    trimmed(s.skip(6))
}

/// The credential presented by an optional `authorization` header:
/// `None` when the header is absent or does not use the bearer scheme.
pub open spec fn header_token(header: Option<Seq<char>>) -> Option<Seq<char>> {
    match header {
        Option::Some(h) => if has_bearer_prefix(h) {
            Option::Some(bearer_token(h))
        } else {
            Option::None
        },
        Option::None => Option::None,
    }
}

/// The view of an optional header value.
pub open spec fn header_view(header: Option<&str>) -> Option<Seq<char>> {
    match header {
        Option::Some(h) => Option::Some(h@),
        Option::None => Option::None,
    }
}

/// Extracts the bearer credential from an `authorization` header value.
///
/// A missing header, or one that does not begin with `"Bearer "`, is a
/// missing credential; it is never treated as public access.
pub fn extract_bearer_token(header: Option<&str>) -> (r: Result<String, AuthError>)
    ensures
        match r {
            Result::Ok(t) => header_token(header_view(header)) == Option::Some(t@),
            Result::Err(e) => e == AuthError::CredentialMissing && header_token(
                header_view(header),
            ) is None,
        },
{
    match header {
        Option::None => Result::Err(AuthError::CredentialMissing),
        Option::Some(h) => {
            let n = h.unicode_len();
            if n >= 7 && h.get_char(0) == 'B' && h.get_char(1) == 'e' && h.get_char(2) == 'a'
                && h.get_char(3) == 'r' && h.get_char(4) == 'e' && h.get_char(5) == 'r'
                && h.get_char(6) == ' ' {
                let rest = h.substring_char(6, n);
                let token = trim_chars(rest);
                proof {
                    assert(h@.subrange(6, n as int) =~= h@.skip(6));
                }
                Result::Ok(token)
            } else {
                Result::Err(AuthError::CredentialMissing)
            }
        },
    }
}

} // verus!
