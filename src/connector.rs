use vstd::prelude::*;
use vstd::string::{StrSliceExecFns, StringExecFns};

verus! {

/// Scheme that every destination URL starts with.
pub const RTMP_SCHEME: &'static str = "rtmp://";

/// Port appended to a destination host that names none.
pub const DEFAULT_PORT_SUFFIX: &'static str = ":1935";

/// Index of the first `/` in `s`, or its length when it holds none.
pub open spec fn first_slash(s: Seq<char>) -> nat
    decreases s.len(),
{
    if s.len() == 0 {
        0
    } else if s[0] == '/' {
        0
    } else {
        1 + first_slash(s.drop_first())
    }
}

/// The authority of a destination URL: what follows the scheme, up to the
/// first `/`.
pub open spec fn authority(url: Seq<char>) -> Seq<char> {
    let rest = url.subrange(RTMP_SCHEME@.len() as int, url.len() as int);
    rest.subrange(0, first_slash(rest) as int)
}

/// The `host:port` address to connect to for a destination URL: its
/// authority, with the default port where it names none. `None` where the URL
/// does not start with the scheme or names no host.
pub open spec fn spec_destination_address(url: Seq<char>) -> Option<Seq<char>> {
    if url.len() < RTMP_SCHEME@.len() || url.subrange(0, RTMP_SCHEME@.len() as int)
        != RTMP_SCHEME@ {
        None
    } else if authority(url).len() == 0 {
        None
    } else if authority(url).contains(':') {
        Some(authority(url))
    } else {
        Some(authority(url) + DEFAULT_PORT_SUFFIX@)
    }
}

proof fn lemma_first_slash_at(s: Seq<char>, e: int)
    requires
        0 <= e <= s.len(),
        forall|k: int| 0 <= k < e ==> s[k] != '/',
        e == s.len() || s[e] == '/',
    ensures
        first_slash(s) == e,
    decreases s.len(),
{
    if s.len() > 0 && e > 0 {
        lemma_first_slash_at(s.drop_first(), e - 1);
    }
}

/// The address to connect to for destination URL `url`.
pub fn destination_address(url: &str) -> (r: Option<String>)
    ensures
        r matches Some(a) ==> spec_destination_address(url@) == Some(a@),
        r is None ==> spec_destination_address(url@) is None,
{
    proof {
        reveal_strlit("rtmp://");
    }
    let n = url.unicode_len();
    let scheme_len = RTMP_SCHEME.unicode_len();
    if n < scheme_len {
        return None;
    }
    let mut i: usize = 0;
    while i < scheme_len
        invariant
            0 <= i <= scheme_len,
            scheme_len == RTMP_SCHEME@.len(),
            scheme_len <= n == url@.len(),
            forall|k: int| 0 <= k < i ==> url@[k] == RTMP_SCHEME@[k],
        decreases scheme_len - i,
    {
        if url.get_char(i) != RTMP_SCHEME.get_char(i) {
            assert(url@.subrange(0, scheme_len as int)[i as int] != RTMP_SCHEME@[i as int]);
            return None;
        }
        i = i + 1;
    }
    assert(url@.subrange(0, scheme_len as int) =~= RTMP_SCHEME@);
    let ghost rest = url@.subrange(scheme_len as int, n as int);
    let mut j: usize = scheme_len;
    let mut colon = false;
    while j < n && url.get_char(j) != '/'
        invariant
            scheme_len <= j <= n,
            n == url@.len(),
            scheme_len == RTMP_SCHEME@.len(),
            rest == url@.subrange(scheme_len as int, n as int),
            forall|k: int| scheme_len <= k < j ==> url@[k] != '/',
            colon == exists|k: int| scheme_len <= k < j && url@[k] == ':',
        decreases n - j,
    {
        if url.get_char(j) == ':' {
            colon = true;
        }
        j = j + 1;
    }
    proof {
        lemma_first_slash_at(rest, j - scheme_len);
        let a = authority(url@);
        assert(a =~= url@.subrange(scheme_len as int, j as int));
        if colon {
            let k = choose|k: int| scheme_len <= k < j && url@[k] == ':';
            assert(a[k - scheme_len] == ':');
        }
        if a.contains(':') {
            let k = choose|k: int| 0 <= k < a.len() && a[k] == ':';
            assert(url@[k + scheme_len] == ':');
        }
    }
    if j == scheme_len {
        return None;
    }
    let host = url.substring_char(scheme_len, j).to_owned();
    if colon {
        Some(host)
    } else {
        Some(host.concat(DEFAULT_PORT_SUFFIX))
    }
}

} // verus!
