//! Verified string helpers the collection resolver builds on: substring
//! search and splitting a name on `_`.

use vstd::prelude::*;
use vstd::string::StringExecFns;
use vstd::string::StrSliceExecFns;

verus! {

/// `n` occurs in `h` starting at position `i`.
pub open spec fn spec_matches_at(h: Seq<char>, n: Seq<char>, i: int) -> bool {
    0 <= i && i + n.len() <= h.len() && h.subrange(i, i + n.len() as int) == n
}

/// `n` occurs somewhere in `h` (the empty sequence occurs everywhere).
pub open spec fn spec_contains(h: Seq<char>, n: Seq<char>) -> bool {
    exists|i: int| spec_matches_at(h, n, i)
}

/// Whether `needle` occurs at position `i` of `hay`.
fn matches_at(hay: &str, needle: &str, i: usize) -> (r: bool)
    requires
        i + needle@.len() <= hay@.len(),
    ensures
        r == spec_matches_at(hay@, needle@, i as int),
{
    let hl = hay.unicode_len();
    let nl = needle.unicode_len();
    let mut k: usize = 0;
    while k < nl
        invariant
            k <= nl,
            hl == hay@.len(),
            nl == needle@.len(),
            i + nl <= hl,
            forall|j: int| 0 <= j < k ==> hay@[i + j] == needle@[j],
        decreases nl - k,
    {
        if hay.get_char(i + k) != needle.get_char(k) {
            proof {
                let sub = hay@.subrange(i as int, i as int + needle@.len() as int);
                assert(sub[k as int] == hay@[i + k]);
                assert(sub != needle@);
            }
            return false;
        }
        k += 1;
    }
    proof {
        assert(hay@.subrange(i as int, i as int + needle@.len() as int) =~= needle@);
    }
    true
}

/// Substring search: whether `needle` occurs anywhere in `hay`. This is the
/// deliberately permissive match the resolver uses, so that a scene id's
/// `CBERS4A` token matches a catalog's `CBERS4` token.
pub fn str_contains(hay: &str, needle: &str) -> (r: bool)
    ensures
        r == spec_contains(hay@, needle@),
{
    let hl = hay.unicode_len();
    let nl = needle.unicode_len();
    if nl > hl {
        proof {
            assert(forall|i: int| !spec_matches_at(hay@, needle@, i));
        }
        return false;
    }
    let mut i: usize = 0;
    loop
        invariant
            nl <= hl,
            hl == hay@.len(),
            nl == needle@.len(),
            i <= hl - nl,
            forall|j: int| 0 <= j < i ==> !spec_matches_at(hay@, needle@, j),
        decreases hl - nl - i,
    {
        if matches_at(hay, needle, i) {
            return true;
        }
        if i == hl - nl {
            proof {
                assert forall|j: int| !spec_matches_at(hay@, needle@, j) by {
                    if 0 <= j && j + needle@.len() <= hay@.len() {
                        assert(j <= i);
                    }
                }
            }
            return false;
        }
        i += 1;
    }
}

/// The position of the first `_` in `s`, or `s.len()` if there is none.
pub open spec fn spec_first_us_at(s: Seq<char>) -> int
    decreases s.len(),
{
    if s.len() == 0 {
        0
    } else if s[0] == '_' {
        0
    } else {
        1 + spec_first_us_at(s.drop_first())
    }
}

/// What `spec_first_us_at` finds: a position within the sequence, holding
/// `_` unless it is the length, with no `_` before it.
pub proof fn lemma_first_us_at(s: Seq<char>)
    ensures
        0 <= spec_first_us_at(s) <= s.len(),
        spec_first_us_at(s) < s.len() ==> s[spec_first_us_at(s)] == '_',
        forall|j: int| 0 <= j < spec_first_us_at(s) ==> s[j] != '_',
    decreases s.len(),
{
    if s.len() > 0 && s[0] != '_' {
        lemma_first_us_at(s.drop_first());
        let f = spec_first_us_at(s);
        assert(f == 1 + spec_first_us_at(s.drop_first()));
        assert forall|j: int| 0 <= j < f implies s[j] != '_' by {
            if j > 0 {
                assert(s.drop_first()[j - 1] == s[j]);
            }
        }
        if f < s.len() {
            assert(s.drop_first()[f - 1] == s[f]);
        }
    }
}

/// The tokens of `s` split on `_`: splitting never drops characters, keeps
/// empty tokens, and yields one more token than there are separators.
pub open spec fn spec_split_us(s: Seq<char>) -> Seq<Seq<char>>
    decreases s.len(),
{
    let f = spec_first_us_at(s);
    if 0 <= f < s.len() {
        seq![s.subrange(0, f)] + spec_split_us(s.subrange(f + 1, s.len() as int))
    } else {
        seq![s]
    }
}

/// The position of the first `_` in `s`, or its length if there is none.
fn first_underscore(s: &str) -> (r: usize)
    ensures
        r == spec_first_us_at(s@),
{
    let n = s.unicode_len();
    let mut i: usize = 0;
    while i < n
        invariant
            i <= n,
            n == s@.len(),
            forall|j: int| 0 <= j < i ==> s@[j] != '_',
        decreases n - i,
    {
        if s.get_char(i) == '_' {
            proof {
                lemma_first_us_at(s@);
                let f = spec_first_us_at(s@);
                if f < i {
                    assert(s@[f] != '_');
                } else if f > i {
                    assert(s@[i as int] != '_');
                }
            }
            return i;
        }
        i += 1;
    }
    proof {
        lemma_first_us_at(s@);
        let f = spec_first_us_at(s@);
        if f < n {
            assert(s@[f] != '_');
        }
    }
    n
}

/// Splits `s` on `_`, keeping empty tokens, as the catalog's naming
/// convention asks.
pub fn split_underscore(s: &str) -> (r: Vec<String>)
    ensures
        r.deep_view() == spec_split_us(s@),
        r.len() >= 1,
    decreases s@.len(),
{
    let n = s.unicode_len();
    let f = first_underscore(s);
    proof {
        lemma_first_us_at(s@);
    }
    if f < n {
        let head = s.substring_char(0, f);
        let tail = s.substring_char(f + 1, n);
        let rest = split_underscore(tail);
        let mut v: Vec<String> = Vec::new();
        v.push(String::from_str(head));
        let mut k: usize = 0;
        while k < rest.len()
            invariant
                k <= rest.len(),
                v@.len() == k + 1,
                v@[0]@ == head@,
                forall|j: int| 0 <= j < k ==> (#[trigger] v@[j + 1])@ == rest@[j]@,
            decreases rest.len() - k,
        {
            let item = rest[k].clone();
            v.push(item);
            k += 1;
        }
        proof {
            assert forall|j: int| 0 <= j < v@.len() implies #[trigger] v.deep_view()[j]
                == v@[j]@ by {}
            assert forall|j: int| 0 <= j < rest@.len() implies #[trigger] rest.deep_view()[j]
                == rest@[j]@ by {}
            assert forall|j: int| 1 <= j < v@.len() implies (#[trigger] v@[j])@
                == rest@[j - 1]@ by {
                assert(v@[(j - 1) + 1]@ == rest@[j - 1]@);
            }
            assert(v.deep_view() =~~= seq![head@] + rest.deep_view());
            assert(v.deep_view() =~~= spec_split_us(s@));
        }
        v
    } else {
        let mut v: Vec<String> = Vec::new();
        v.push(String::from_str(s));
        proof {
            assert(v.deep_view() =~~= seq![s@]);
            assert(v.deep_view() =~~= spec_split_us(s@));
        }
        v
    }
}

} // verus!
