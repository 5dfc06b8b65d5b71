//! The bearer token of a request.
use vstd::prelude::*;

use crate::text::chars_of;

verus! {

/// The index of the first space in `s`, if there is one.
pub open spec fn first_space(s: Seq<char>) -> Option<int> {
    if exists|i: int| 0 <= i < s.len() && s[i] == ' ' {
        Some(
            choose|i: int|
                0 <= i < s.len() && s[i] == ' ' && forall|j: int| 0 <= j < i ==> s[j] != ' ',
        )
    } else {
        None
    }
}

/// The token of an `Authorization` header: what follows its first space
/// (as in `Bearer <token>`); nothing where there is no header or no space.
pub fn get_auth_token(authorization: Option<&str>) -> (r: Option<String>)
    ensures
        authorization is None ==> r is None,
        authorization matches Some(h) ==> (first_space(h@) is None ==> r is None),
        authorization matches Some(h) ==> (first_space(h@) matches Some(i) ==> (r matches Some(
            t,
        ) && t@ == h@.subrange(i + 1, h@.len() as int))),
{
    match authorization {
        None => None,
        Some(h) => {
            let v = chars_of(h);
            let n = v.len();
            let mut i: usize = 0;
            while i < n
                invariant
                    i <= n == v@.len(),
                    v@ == h@,
                    authorization == Some(h),
                    forall|j: int| 0 <= j < i ==> v@[j] != ' ',
                decreases n - i,
            {
                if v[i] == ' ' {
                    proof {
                        let k = i as int;
                        assert(0 <= k < h@.len() && h@[k] == ' ');
                        let c = choose|c: int|
                            0 <= c < h@.len() && h@[c] == ' ' && forall|j: int|
                                0 <= j < c ==> h@[j] != ' ';
                        assert(c == k) by {
                            if c < k {
                                assert(v@[c] != ' ');
                            }
                            if k < c {
                                assert(h@[k] != ' ');
                            }
                        }
                    }
                    let token = h.substring_char(i + 1, n);
                    return Some(token.to_owned());
                }
                i = i + 1;
            }
            None
        },
    }
}

/// The first space of a text is a space with none before it; a text has no
/// first space exactly when it has no space.
pub proof fn lemma_first_space(s: Seq<char>)
    ensures
        first_space(s) matches Some(i) ==> 0 <= i < s.len() && s[i] == ' ' && forall|j: int|
            0 <= j < i ==> s[j] != ' ',
        first_space(s) is None <==> forall|j: int| 0 <= j < s.len() ==> s[j] != ' ',
{
    if exists|i: int| 0 <= i < s.len() && s[i] == ' ' {
        let k = choose|i: int| 0 <= i < s.len() && s[i] == ' ';
        lemma_first_space_exists(s, k);
    }
}

proof fn lemma_first_space_exists(s: Seq<char>, k: int)
    requires
        0 <= k < s.len(),
        s[k] == ' ',
    ensures
        exists|i: int| 0 <= i < s.len() && s[i] == ' ' && forall|j: int| 0 <= j < i ==> s[j] != ' ',
    decreases k,
{
    if exists|j: int| 0 <= j < k && s[j] == ' ' {
        let j = choose|j: int| 0 <= j < k && s[j] == ' ';
        lemma_first_space_exists(s, j);
    }
}

/// The token of an authorization `scheme token`, whose scheme has no space,
/// is what follows the space after the scheme, spaces in it included.
pub proof fn lemma_token_follows_scheme(scheme: Seq<char>, token: Seq<char>)
    requires
        forall|j: int| 0 <= j < scheme.len() ==> scheme[j] != ' ',
    ensures
        first_space(scheme + seq![' '] + token) == Some(scheme.len() as int),
        (scheme + seq![' '] + token).subrange(scheme.len() as int + 1, (scheme + seq![' '] + token).len() as int)
            == token,
{
    let h = scheme + seq![' '] + token;
    assert(h[scheme.len() as int] == ' ');
    lemma_first_space(h);
    let i = first_space(h)->0;
    if i < scheme.len() {
        assert(h[i] == scheme[i]);
    }
    if i > scheme.len() {
        assert(h[scheme.len() as int] != ' ');
    }
    assert(h.subrange(scheme.len() as int + 1, h.len() as int) =~= token);
}

} // verus!
