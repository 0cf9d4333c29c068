//! Small verified helpers on strings, shared by the key-set and gateway
//! logic.

use vstd::prelude::*;

verus! {

/// Character-wise string equality, proved equivalent to equality of the
/// views.
pub fn str_eq(a: &str, b: &str) -> (r: bool)
    ensures
        r == (a@ == b@),
{
    let an = a.unicode_len();
    let bn = b.unicode_len();
    if an != bn {
        return false;
    }
    let mut i: usize = 0;
    while i < an
        invariant
            an == a@.len(),
            bn == b@.len(),
            an == bn,
            i <= an,
            forall|j: int| 0 <= j < i ==> a@[j] == b@[j],
        decreases an - i,
    {
        if a.get_char(i) != b.get_char(i) {
            return false;
        }
        i = i + 1;
    }
    proof {
        assert(a@ =~= b@);
    }
    true
}

/// True when the header value uses the bearer scheme: the literal prefix
/// `"Bearer "` followed by the token.
pub open spec fn has_bearer_prefix(s: Seq<char>) -> bool {
    s.len() >= 7 && s.subrange(0, 7) == "Bearer "@
}

/// Strip the bearer scheme from an authorization header value, returning the
/// bare token, or nothing when the scheme is absent or malformed.
pub fn strip_bearer(h: &str) -> (r: Option<&str>)
    ensures
        match r {
            Some(t) => has_bearer_prefix(h@) && t@ == h@.skip(7),
            None => !has_bearer_prefix(h@),
        },
{
    let p = "Bearer ";
    proof {
        reveal_strlit("Bearer ");
    }
    let n = h.unicode_len();
    if n < 7 {
        return None;
    }
    let mut i: usize = 0;
    while i < 7
        invariant
            n == h@.len(),
            n >= 7,
            i <= 7,
            p@ == "Bearer "@,
            p@.len() == 7,
            forall|j: int| 0 <= j < i ==> h@[j] == p@[j],
        decreases 7 - i,
    {
        if h.get_char(i) != p.get_char(i) {
            proof {
                assert(h@.subrange(0, 7)[i as int] == h@[i as int]);
            }
            return None;
        }
        i = i + 1;
    }
    proof {
        assert(h@.subrange(0, 7) =~= p@);
    }
    Some(h.substring_char(7, n))
}

} // verus!
