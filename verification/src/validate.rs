//! URL validation for the Add Target flow.
//!
//! A candidate string is accepted only if it parses as an absolute URL,
//! its scheme is exactly `http` or `https`, it has a host, and the host
//! ends with one of an allow-list of top-level domains.  The allow-list
//! is a parameter, so callers can configure it; [`default_tlds`] is the
//! documented default.  Under that default a numeric host (an IP
//! address) is rejected: no entry of the list matches it.

use vstd::prelude::*;

verus! {

/// What `url::Url::parse` extracts from a string: `None` where the
/// string is not an absolute URL, else the scheme and, where the URL has
/// one, the host text.  A pure function of the string alone.
pub uninterp spec fn url_parts_of(s: Seq<char>) -> Option<(Seq<char>, Option<Seq<char>>)>;

/// Relies on `url::Url::parse`, `Url::scheme` and `Url::host_str`: the
/// parse either fails or yields a URL whose scheme and host text those
/// accessors return; all three depend on the input string alone.
#[verifier::external_body]
fn parse_url_parts(s: &str) -> (r: Option<(Vec<char>, Option<Vec<char>>)>)
    ensures
        match r {
            None => url_parts_of(s@) is None,
            Some(p) => url_parts_of(s@) matches Some(q) && q.0 == p.0@ && (match p.1 {
                Some(h) => q.1 == Some(h@),
                None => q.1 is None,
            }),
        },
{
    match url::Url::parse(s) {
        Ok(u) => Some(
            (u.scheme().chars().collect(), u.host_str().map(|h| h.chars().collect())),
        ),
        Err(_) => None,
    }
}

/// The characters of the scheme `http`.
pub open spec fn http_scheme() -> Seq<char> {
    seq!['h', 't', 't', 'p']
}

/// The characters of the scheme `https`.
pub open spec fn https_scheme() -> Seq<char> {
    seq!['h', 't', 't', 'p', 's']
}

/// Whether `h` ends with `suffix`.
pub open spec fn ends_with(h: Seq<char>, suffix: Seq<char>) -> bool {
    h.len() >= suffix.len() && h.subrange(h.len() - suffix.len(), h.len() as int) == suffix
}

/// The validation policy: the string parses as an absolute URL, the
/// scheme is exactly `http` or `https`, a host is present, and the host
/// ends with one of the allowed endings.
pub open spec fn valid_url(s: Seq<char>, tlds: Seq<Seq<char>>) -> bool {
    match url_parts_of(s) {
        None => false,
        Some(parts) => {
            &&& (parts.0 == http_scheme() || parts.0 == https_scheme())
            &&& parts.1 is Some
            &&& exists|k: int|
                0 <= k < tlds.len() && ends_with(parts.1->0, #[trigger] tlds[k])
        },
    }
}

/// Whether two character vectors hold the same characters.
fn chars_eq(a: &Vec<char>, b: &Vec<char>) -> (r: bool)
    ensures
        r == (a@ == b@),
{
    if a.len() != b.len() {
        return false;
    }
    let mut i: usize = 0;
    while i < a.len()
        invariant
            a@.len() == b@.len(),
            i <= a@.len(),
            forall|j: int| 0 <= j < i ==> a@[j] == b@[j],
        decreases a@.len() - i,
    {
        if a[i] != b[i] {
            return false;
        }
        i = i + 1;
    }
    proof {
        assert(a@ =~= b@);
    }
    true
}

/// Whether `h` ends with the characters of `suffix`.
#[verifier::loop_isolation(false)]
fn chars_end_with(h: &Vec<char>, suffix: &Vec<char>) -> (r: bool)
    ensures
        r == ends_with(h@, suffix@),
{
    if h.len() < suffix.len() {
        return false;
    }
    let start: usize = h.len() - suffix.len();
    let mut i: usize = 0;
    while i < suffix.len()
        invariant
            suffix@.len() <= h@.len(),
            start == h@.len() - suffix@.len(),
            i <= suffix@.len(),
            forall|j: int| 0 <= j < i ==> h@[start + j] == suffix@[j],
        decreases suffix@.len() - i,
    {
        proof {
            assert(start + i < h@.len());
        }
        if h[start + i] != suffix[i] {
            proof {
                assert(h@.subrange(
                    h@.len() - suffix@.len(),
                    h@.len() as int,
                )[i as int] == h@[start + i]);
            }
            return false;
        }
        i = i + 1;
    }
    proof {
        assert(h@.subrange(h@.len() - suffix@.len(), h@.len() as int) =~= suffix@);
    }
    true
}

/// The characters of the scheme `http`, as a vector.
fn http_scheme_chars() -> (v: Vec<char>)
    ensures
        v@ == http_scheme(),
{
    let v = vec!['h', 't', 't', 'p'];
    proof {
        assert(v@ =~= http_scheme());
    }
    v
}

/// The characters of the scheme `https`, as a vector.
fn https_scheme_chars() -> (v: Vec<char>)
    ensures
        v@ == https_scheme(),
{
    let v = vec!['h', 't', 't', 'p', 's'];
    proof {
        assert(v@ =~= https_scheme());
    }
    v
}

/// The default allow-list of host endings.
pub open spec fn spec_default_tlds() -> Seq<Seq<char>> {
    seq![
        seq!['.', 'c', 'o', 'm'],
        seq!['.', 'o', 'r', 'g'],
        seq!['.', 'n', 'e', 't'],
        seq!['.', 'i', 'o'],
        seq!['.', 'c', 'o'],
        seq!['.', 'g', 'o', 'v'],
        seq!['.', 'e', 'd', 'u'],
        seq!['.', 'd', 'e', 'v'],
        seq!['b', 'i'],
    ]
}

/// The default allow-list of host endings, as vectors.
pub fn default_tlds() -> (v: Vec<Vec<char>>)
    ensures
        v.deep_view() == spec_default_tlds(),
{
    let mut v: Vec<Vec<char>> = Vec::new();
    v.push(vec!['.', 'c', 'o', 'm']);
    v.push(vec!['.', 'o', 'r', 'g']);
    v.push(vec!['.', 'n', 'e', 't']);
    v.push(vec!['.', 'i', 'o']);
    v.push(vec!['.', 'c', 'o']);
    v.push(vec!['.', 'g', 'o', 'v']);
    v.push(vec!['.', 'e', 'd', 'u']);
    v.push(vec!['.', 'd', 'e', 'v']);
    v.push(vec!['b', 'i']);
    proof {
        assert(v.deep_view() =~~= spec_default_tlds());
    }
    v
}

/// Validate a candidate URL against a configured allow-list of host
/// endings.
#[verifier::loop_isolation(false)]
pub fn is_valid_url_with_tlds(url_str: &str, tlds: &Vec<Vec<char>>) -> (r: bool)
    ensures
        r == valid_url(url_str@, tlds.deep_view()),
{
    let parts = parse_url_parts(url_str);
    match parts {
        None => false,
        Some((scheme, host)) => {
            let http = http_scheme_chars();
            let https = https_scheme_chars();
            let scheme_ok = chars_eq(&scheme, &http) || chars_eq(&scheme, &https);
            if !scheme_ok {
                return false;
            }
            match host {
                None => false,
                Some(host_chars) => {
                    let mut k: usize = 0;
                    while k < tlds.len()
                        invariant
                            k <= tlds@.len(),
                            forall|j: int| 0 <= j < k ==> !ends_with(
                                host_chars@,
                                #[trigger] tlds.deep_view()[j],
                            ),
                        decreases tlds@.len() - k,
                    {
                        if chars_end_with(&host_chars, &tlds[k]) {
                            proof {
                                let tv = tlds.deep_view();
                                assert(tv[k as int] == tlds@[k as int]@);
                                assert(0 <= k < tv.len() && ends_with(
                                    host_chars@,
                                    tv[k as int],
                                ));
                            }
                            return true;
                        }
                        proof {
                            assert(tlds.deep_view()[k as int] == tlds@[k as int]@);
                        }
                        k = k + 1;
                    }
                    false
                },
            }
        },
    }
}

/// Validate a candidate URL under the default allow-list.
pub fn is_valid_url(url_str: &str) -> (r: bool)
    ensures
        r == valid_url(url_str@, spec_default_tlds()),
{
    let tlds = default_tlds();
    is_valid_url_with_tlds(url_str, &tlds)
}

} // verus!
