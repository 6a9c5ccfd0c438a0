//! Substring search over strings, used for the catalog's name filter and for
//! recognising a throttling response body.

use vstd::prelude::*;

verus! {

/// The characters of `needle` appear in `hay` starting at position `i`.
pub open spec fn matches_at(hay: Seq<char>, needle: Seq<char>, i: int) -> bool {
    &&& 0 <= i
    &&& i + needle.len() <= hay.len()
    &&& forall|j: int| 0 <= j < needle.len() ==> hay[i + j] == needle[j]
}

/// `needle` occurs somewhere in `hay`.  The empty needle occurs in every
/// string, so an empty filter matches every name.
pub open spec fn has_substring(hay: Seq<char>, needle: Seq<char>) -> bool {
    exists|i: int| matches_at(hay, needle, i)
}

/// Whether `needle` appears in `hay` starting exactly at position `i`.
fn match_at(hay: &str, needle: &str, i: usize, h: usize, n: usize) -> (r: bool)
    requires
        h == hay@.len(),
        n == needle@.len(),
        i + n <= h,
    ensures
        r == matches_at(hay@, needle@, i as int),
{
    let mut j: usize = 0;
    while j < n
        invariant
            h == hay@.len(),
            n == needle@.len(),
            i + n <= h,
            j <= n,
            forall|l: int| 0 <= l < j ==> hay@[i + l] == needle@[l],
        decreases n - j,
    {
        if hay.get_char(i + j) != needle.get_char(j) {
            proof {
                if matches_at(hay@, needle@, i as int) {
                    assert(hay@[i + j] == needle@[j as int]);
                }
            }
            return false;
        }
        j += 1;
    }
    true
}

/// Substring search by direct character comparison: decides whether the
/// name or body `hay` contains `needle`.
pub fn str_contains(hay: &str, needle: &str) -> (r: bool)
    ensures
        r == has_substring(hay@, needle@),
{
    let h = hay.unicode_len();
    let n = needle.unicode_len();
    if n == 0 {
        assert(matches_at(hay@, needle@, 0));
        return true;
    }
    if n > h {
        proof {
            if has_substring(hay@, needle@) {
                let k = choose|k: int| matches_at(hay@, needle@, k);
                assert(k + needle@.len() <= hay@.len());
            }
        }
        return false;
    }
    let mut i: usize = 0;
    while i <= h - n
        invariant
            1 <= n <= h,
            h == hay@.len(),
            n == needle@.len(),
            i <= h - n + 1,
            forall|k: int| 0 <= k < i ==> !matches_at(hay@, needle@, k),
        decreases h - n + 1 - i,
    {
        if match_at(hay, needle, i, h, n) {
            return true;
        }
        i += 1;
    }
    proof {
        if has_substring(hay@, needle@) {
            let k = choose|k: int| matches_at(hay@, needle@, k);
            assert(k + needle@.len() <= hay@.len());
            assert(!matches_at(hay@, needle@, k));
        }
    }
    false
}

} // verus!
