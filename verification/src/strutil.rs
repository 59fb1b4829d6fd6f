//! Small verified string utilities: equality and substring search over the
//! character views of `&str`.

use vstd::prelude::*;
use vstd::string::StrSliceExecFns;

verus! {

/// `needle` occurs in `haystack` as a contiguous run of characters.
pub open spec fn contains_seq(haystack: Seq<char>, needle: Seq<char>) -> bool {
    exists|i: int|
        0 <= i && i + needle.len() <= haystack.len() && #[trigger] haystack.subrange(
            i,
            i + needle.len() as int,
        ) == needle
}

/// Character-for-character string equality.
pub fn str_eq(a: &str, b: &str) -> (r: bool)
    ensures
        r == (a@ == b@),
{
    let n = a.unicode_len();
    if n != b.unicode_len() {
        return false;
    }
    let mut i: usize = 0;
    while i < n
        invariant
            n == a@.len(),
            n == b@.len(),
            i <= n,
            forall|j: int| 0 <= j < i ==> a@[j] == b@[j],
        decreases n - i,
    {
        if a.get_char(i) != b.get_char(i) {
            return false;
        }
        i += 1;
    }
    proof {
        assert(a@ =~= b@);
    }
    true
}

/// Whether the characters of `needle` occur contiguously in `haystack`.
pub fn contains_substr(haystack: &str, needle: &str) -> (r: bool)
    ensures
        r == contains_seq(haystack@, needle@),
{
    let hl = haystack.unicode_len();
    let nl = needle.unicode_len();
    if nl > hl {
        return false;
    }
    if nl == 0 {
        proof {
            assert(haystack@.subrange(0, 0 + needle@.len() as int) =~= needle@);
        }
        return true;
    }
    let mut i: usize = 0;
    while i <= hl - nl
        invariant
            hl == haystack@.len(),
            nl == needle@.len(),
            1 <= nl <= hl,
            i <= hl - nl + 1,
            forall|k: int|
                0 <= k < i ==> #[trigger] haystack@.subrange(k, k + nl as int) != needle@,
        decreases hl - i,
    {
        let mut j: usize = 0;
        let mut mismatch = false;
        while j < nl
            invariant
                hl == haystack@.len(),
                nl == needle@.len(),
                i + nl <= hl,
                j <= nl,
                !mismatch ==> forall|m: int| 0 <= m < j ==> haystack@[i + m] == needle@[m],
                mismatch ==> haystack@.subrange(i as int, i + nl as int) != needle@,
            decreases nl - j,
        {
            if haystack.get_char(i + j) != needle.get_char(j) {
                proof {
                    assert(haystack@.subrange(i as int, i + nl as int)[j as int] == haystack@[i
                        + j]);
                }
                mismatch = true;
                j = nl;
            } else {
                j += 1;
            }
        }
        if !mismatch {
            proof {
                assert(haystack@.subrange(i as int, i + nl as int) =~= needle@);
            }
            return true;
        }
        i += 1;
    }
    proof {
        assert forall|k: int| 0 <= k && k + needle@.len() <= haystack@.len() implies #[trigger]
        haystack@.subrange(k, k + needle@.len() as int) != needle@ by {
            assert(k < i);
        }
    }
    false
}

} // verus!
