//! Substring search over text, used to read the terminal-capability signal.

use vstd::prelude::*;

verus! {

/// The pattern occurs in `s` starting at position `i`.
pub open spec fn contains_at(s: Seq<char>, pattern: Seq<char>, i: int) -> bool {
    0 <= i && i + pattern.len() <= s.len() && s.subrange(i, i + pattern.len() as int) == pattern
}

/// The pattern occurs somewhere in `s`.
pub open spec fn contains_seq(s: Seq<char>, pattern: Seq<char>) -> bool {
    exists|i: int| contains_at(s, pattern, i)
}

/// Whether `pattern` occurs as a substring of `text`.
pub fn contains_str(text: &str, pattern: &str) -> (found: bool)
    ensures
        found == contains_seq(text@, pattern@),
{
    let n = text.unicode_len();
    let p = pattern.unicode_len();
    if p > n {
        proof {
            assert(forall|i: int| !contains_at(text@, pattern@, i));
        }
        return false;
    }
    let mut i: usize = 0;
    loop
        invariant
            0 <= i <= n - p + 1,
            p <= n,
            n == text@.len(),
            p == pattern@.len(),
            forall|k: int| 0 <= k < i ==> !contains_at(text@, pattern@, k),
        decreases n - p + 1 - i,
    {
        if i > n - p {
            proof {
                assert(forall|k: int| k >= i ==> !contains_at(text@, pattern@, k));
            }
            return false;
        }
        let mut j: usize = 0;
        let mut matches_here = true;
        while j < p && matches_here
            invariant
                0 <= j <= p,
                i + p <= n,
                n == text@.len(),
                p == pattern@.len(),
                matches_here ==> forall|d: int| 0 <= d < j ==> text@[i + d] == pattern@[d],
                !matches_here ==> !contains_at(text@, pattern@, i as int),
            decreases p - j + if matches_here {
                1int
            } else {
                0int
            },
        {
            if text.get_char(i + j) != pattern.get_char(j) {
                matches_here = false;
                proof {
                    assert(text@.subrange(i as int, i + p) != pattern@) by {
                        assert(text@.subrange(i as int, i + p)[j as int] != pattern@[j as int]);
                    }
                }
            } else {
                j += 1;
            }
        }
        if matches_here {
            proof {
                assert(text@.subrange(i as int, i + p) =~= pattern@);
                assert(contains_at(text@, pattern@, i as int));
            }
            return true;
        }
        proof {
            if p == 0 {
                assert(text@.subrange(i as int, i as int) =~= pattern@);
                assert(false);
            }
        }
        i += 1;
    }
}

} // verus!
