use crate::errors::ApiError;
use vstd::prelude::*;

verus! {

/// Index of the first space at or after `i`, or the length if none
/// follows.
pub open spec fn space_from(s: Seq<char>, i: int) -> int
    decreases s.len() - i,
{
    if i < 0 || i >= s.len() {
        s.len() as int
    } else if s[i] == ' ' {
        i
    } else {
        space_from(s, i + 1)
    }
}

/// The token of an authorization header value: what stands between the
/// first space and the next one (or the end), as in `Bearer <token>`.
/// A value without any space carries no token.
pub open spec fn spec_bearer_token(h: Seq<char>) -> Option<Seq<char>> {
    let a = space_from(h, 0);
    if a == h.len() {
        None
    } else {
        Some(h.subrange(a + 1, space_from(h, a + 1)))
    }
}

proof fn lemma_space_from(s: Seq<char>, i: int, j: int)
    requires
        0 <= i <= j <= s.len(),
        forall|k: int| i <= k < j ==> (#[trigger] s[k]) != ' ',
        j == s.len() || s[j] == ' ',
    ensures
        space_from(s, i) == j,
    decreases j - i,
{
    if i < j {
        lemma_space_from(s, i + 1, j);
    }
}

/// Checks a request's authorization header value against the expected
/// token. The header is absent, carries no token after its scheme, or
/// carries the wrong one: each failure says which. Nothing else about
/// the header is inspected.
pub fn authenticate(header: Option<&str>, expected_token: &str) -> (r: Result<(), ApiError>)
    ensures
        r is Ok <==> (header matches Some(h) && spec_bearer_token(h@) matches Some(t) && t
            == expected_token@),
        header is None ==> (r matches Err(e) && e.0@ == "missing authentication header"@),
        header matches Some(h) && spec_bearer_token(h@) is None ==> (r matches Err(e) && e.0@
            == "missing authentication token"@),
        header matches Some(h) ==> (spec_bearer_token(h@) matches Some(t) && t != expected_token@
            ==> (r matches Err(e) && e.0@ == "invalid authentication token"@)),
{
    let h = match header {
        Some(h) => h,
        None => {
            return Err(ApiError(String::from_str("missing authentication header")));
        },
    };
    let n = h.unicode_len();
    let mut a: usize = 0;
    while a < n && h.get_char(a) != ' '
        invariant
            0 <= a <= n,
            n == h@.len(),
            forall|k: int| 0 <= k < a ==> (#[trigger] h@[k]) != ' ',
        decreases n - a,
    {
        a = a + 1;
    }
    proof {
        lemma_space_from(h@, 0, a as int);
    }
    if a == n {
        return Err(ApiError(String::from_str("missing authentication token")));
    }
    let mut b: usize = a + 1;
    while b < n && h.get_char(b) != ' '
        invariant
            a + 1 <= b <= n,
            n == h@.len(),
            forall|k: int| a + 1 <= k < b ==> (#[trigger] h@[k]) != ' ',
        decreases n - b,
    {
        b = b + 1;
    }
    proof {
        lemma_space_from(h@, a + 1, b as int);
    }
    let token = h.substring_char(a + 1, b);
    if String::from_str(token) == String::from_str(expected_token) {
        Ok(())
    } else {
        Err(ApiError(String::from_str("invalid authentication token")))
    }
}

} // verus!
