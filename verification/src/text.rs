//! Verified text helpers: substring containment and slice equality over
//! character sequences.

use vstd::prelude::*;

verus! {

/// `needle` occurs in `hay` starting at character position `i`.
pub open spec fn spec_contains_at(hay: Seq<char>, needle: Seq<char>, i: int) -> bool {
    &&& 0 <= i
    &&& i + needle.len() <= hay.len()
    &&& hay.subrange(i, i + needle.len() as int) == needle
}

/// `needle` occurs somewhere in `hay` as a contiguous run of characters.
/// The empty needle occurs in every string.
pub open spec fn spec_contains(hay: Seq<char>, needle: Seq<char>) -> bool {
    exists|i: int| spec_contains_at(hay, needle, i)
}

/// Substring search by character positions.
pub fn contains_substr(hay: &str, needle: &str) -> (r: bool)
    ensures
        r == spec_contains(hay@, needle@),
{
    let hay_len = hay.unicode_len();
    let needle_len = needle.unicode_len();
    if needle_len > hay_len {
        assert(forall|k: int| !spec_contains_at(hay@, needle@, k));
        return false;
    }
    if needle_len == 0 {
        proof {
            assert(hay@.subrange(0, 0) =~= needle@);
            assert(spec_contains_at(hay@, needle@, 0));
        }
        return true;
    }
    let last = hay_len - needle_len;
    let mut i: usize = 0;
    while i <= last
        invariant
            hay@.len() == hay_len,
            needle@.len() == needle_len,
            1 <= needle_len <= hay_len,
            last == hay_len - needle_len,
            i <= last + 1,
            forall|k: int| 0 <= k < i ==> !spec_contains_at(hay@, needle@, k),
        decreases last + 1 - i,
    {
        let mut j: usize = 0;
        let mut matched = true;
        while j < needle_len
            invariant
                hay@.len() == hay_len,
                needle@.len() == needle_len,
                i + needle_len <= hay_len,
                j <= needle_len,
                matched ==> forall|t: int| 0 <= t < j ==> hay@[i as int + t] == needle@[t],
                !matched ==> !spec_contains_at(hay@, needle@, i as int),
            decreases needle_len - j,
        {
            if hay.get_char(i + j) != needle.get_char(j) {
                proof {
                    if matched {
                        assert(hay@.subrange(i as int, i as int + needle@.len() as int)[j as int]
                            == hay@[i as int + j as int]);
                    }
                }
                matched = false;
            }
            j += 1;
        }
        if matched {
            proof {
                assert(forall|t: int|
                    0 <= t < needle@.len() ==> #[trigger] hay@.subrange(
                        i as int,
                        i as int + needle@.len() as int,
                    )[t] == hay@[i as int + t]);
                assert(hay@.subrange(i as int, i as int + needle@.len() as int) =~= needle@);
                assert(spec_contains_at(hay@, needle@, i as int));
            }
            return true;
        }
        i += 1;
    }
    assert(forall|k: int| spec_contains_at(hay@, needle@, k) ==> 0 <= k <= last as int);
    false
}

/// Character-wise string equality: true exactly when the two views agree.
pub fn str_eq(a: &str, b: &str) -> (r: bool)
    ensures
        r == (a@ == b@),
{
    let a_len = a.unicode_len();
    let b_len = b.unicode_len();
    if a_len != b_len {
        return false;
    }
    let mut i: usize = 0;
    while i < a_len
        invariant
            a@.len() == a_len,
            b@.len() == b_len,
            a_len == b_len,
            i <= a_len,
            forall|k: int| 0 <= k < i ==> a@[k] == b@[k],
        decreases a_len - i,
    {
        if a.get_char(i) != b.get_char(i) {
            return false;
        }
        i += 1;
    }
    proof {
        assert(a@ =~= b@);
    }
    true
}

} // verus!
