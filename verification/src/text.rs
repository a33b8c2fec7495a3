use vstd::prelude::*;
use vstd::string::*;

verus! {

/// Whether `p` is a prefix of `s`.
pub open spec fn has_prefix(s: Seq<char>, p: Seq<char>) -> bool {
    p.len() <= s.len() && s.subrange(0, p.len() as int) == p
}

/// Whether `s` begins with `p`, character by character.
pub fn starts_with(s: &str, p: &str) -> (b: bool)
    ensures
        b == has_prefix(s@, p@),
{
    let n = s.unicode_len();
    let m = p.unicode_len();
    if m > n {
        return false;
    }
    let mut i: usize = 0;
    while i < m
        invariant
            m == p@.len(),
            n == s@.len(),
            m <= n,
            i <= m,
            forall|j: int| 0 <= j < i ==> s@[j] == p@[j],
        decreases m - i,
    {
        if s.get_char(i) != p.get_char(i) {
            assert(s@.subrange(0, m as int)[i as int] != p@[i as int]);
            return false;
        }
        i = i + 1;
    }
    assert(s@.subrange(0, m as int) =~= p@);
    true
}

/// The text of `s` from character `from` to its end.
pub fn rest_from(s: &str, from: usize) -> (r: String)
    requires
        from <= s@.len(),
    ensures
        r@ == s@.subrange(from as int, s@.len() as int),
{
    let n = s.unicode_len();
    String::from_str(s.substring_char(from, n))
}

/// Two texts with the same characters.
pub fn same_text(a: &str, b: &str) -> (eq: bool)
    ensures
        eq == (a@ == b@),
{
    let n = a.unicode_len();
    let m = b.unicode_len();
    if n != m {
        return false;
    }
    let mut i: usize = 0;
    while i < n
        invariant
            n == a@.len(),
            m == b@.len(),
            n == m,
            i <= n,
            forall|j: int| 0 <= j < i ==> a@[j] == b@[j],
        decreases n - i,
    {
        if a.get_char(i) != b.get_char(i) {
            return false;
        }
        i = i + 1;
    }
    assert(a@ =~= b@);
    true
}

/// Whether a text holds no comma.
pub open spec fn comma_free(s: Seq<char>) -> bool {
    forall|j: int| 0 <= j < s.len() ==> s[j] != ','
}

/// Whether `f` is the first comma-separated field of `s`: the text before
/// its first comma, or all of it when it has none.
pub open spec fn is_first_field(f: Seq<char>, s: Seq<char>) -> bool {
    &&& has_prefix(s, f)
    &&& comma_free(f)
    &&& (f.len() == s.len() || s[f.len() as int] == ',')
}

/// The first comma-separated field of a text.
pub fn first_field(s: &str) -> (f: String)
    ensures
        is_first_field(f@, s@),
{
    let n = s.unicode_len();
    let mut i: usize = 0;
    while i < n
        invariant
            n == s@.len(),
            i <= n,
            forall|j: int| 0 <= j < i ==> s@[j] != ',',
        ensures
            i <= n,
            forall|j: int| 0 <= j < i ==> s@[j] != ',',
            i == n || s@[i as int] == ',',
        decreases n - i,
    {
        if s.get_char(i) == ',' {
            break;
        }
        i = i + 1;
    }
    let f = String::from_str(s.substring_char(0, i));
    assert(s@.subrange(0, f@.len() as int) =~= f@);
    f
}

/// The device a request comes from: its user agent, or `Unknown Device`
/// without one.
pub fn device_name(user_agent: Option<&str>) -> (d: String)
    ensures
        d@ == match user_agent {
            Some(u) => u@,
            None => "Unknown Device"@,
        },
{
    match user_agent {
        Some(u) => String::from_str(u),
        None => String::from_str("Unknown Device"),
    }
}

/// The address a request names in its `Forwarded` header: the header's
/// first comma-separated field, or `0.0.0.0` without the header.
pub fn forwarded_address(header: Option<&str>) -> (a: String)
    ensures
        match header {
            Some(h) => is_first_field(a@, h@),
            None => a@ == "0.0.0.0"@,
        },
{
    match header {
        Some(h) => first_field(h),
        None => String::from_str("0.0.0.0"),
    }
}

} // verus!
