//! Text helpers for the tracker: a verified case-sensitive substring
//! search (the matching rule of the search filter), and small trusted
//! wrappers around the standard library's character-level edits of a
//! `String`, used by the text buffers of the interactive windows.

use vstd::prelude::*;

verus! {

/// `needle` occurs in `hay` as a contiguous run of characters. Matching
/// is case-sensitive; the empty needle occurs in every string.
pub open spec fn contains_seq(hay: Seq<char>, needle: Seq<char>) -> bool {
    exists|i: int|
        0 <= i && i + needle.len() <= hay.len() && #[trigger] hay.subrange(i, i + needle.len())
            == needle
}

/// `needle` matches `hay` at position `i`, character by character.
pub open spec fn matches_at(hay: Seq<char>, needle: Seq<char>, i: int) -> bool {
    &&& 0 <= i
    &&& i + needle.len() <= hay.len()
    &&& forall|j: int| 0 <= j < needle.len() ==> hay[i + j] == needle[j]
}

proof fn lemma_matches_at_iff_subrange(hay: Seq<char>, needle: Seq<char>, i: int)
    requires
        0 <= i,
        i + needle.len() <= hay.len(),
    ensures
        matches_at(hay, needle, i) <==> hay.subrange(i, i + needle.len()) == needle,
{
    if matches_at(hay, needle, i) {
        assert(hay.subrange(i, i + needle.len()) =~= needle);
    }
    if hay.subrange(i, i + needle.len()) == needle {
        assert forall|j: int| 0 <= j < needle.len() implies hay[i + j] == needle[j] by {
            assert(hay.subrange(i, i + needle.len())[j] == hay[i + j]);
        }
    }
}

/// Does `hay` contain `needle` as a substring? This is the matching rule
/// used both by the search filter of the table and by the search command.
pub fn str_contains(hay: &str, needle: &str) -> (r: bool)
    ensures
        r == contains_seq(hay@, needle@),
{
    let n = hay.unicode_len();
    let m = needle.unicode_len();
    if m > n {
        assert(!contains_seq(hay@, needle@));
        return false;
    }
    let mut i: usize = 0;
    while i <= n - m
        invariant
            m <= n,
            n == hay@.len(),
            m == needle@.len(),
            i <= n - m + 1,
            forall|k: int| 0 <= k < i ==> !matches_at(hay@, needle@, k),
        decreases n - m - i + 1,
    {
        let mut j: usize = 0;
        let mut all_match = true;
        while j < m
            invariant
                m <= n,
                n == hay@.len(),
                m == needle@.len(),
                i <= n - m,
                j <= m,
                all_match <==> (forall|l: int| 0 <= l < j ==> hay@[i + l] == needle@[l]),
            decreases m - j,
        {
            if hay.get_char(i + j) != needle.get_char(j) {
                all_match = false;
                assert(!(forall|l: int| 0 <= l < j + 1 ==> hay@[i + l] == needle@[l]));
            }
            j += 1;
        }
        proof {
            lemma_matches_at_iff_subrange(hay@, needle@, i as int);
        }
        if all_match {
            assert(contains_seq(hay@, needle@));
            return true;
        }
        i += 1;
    }
    assert forall|k: int| 0 <= k && k + needle@.len() <= hay@.len() implies #[trigger] hay@.subrange(
        k,
        k + needle@.len(),
    ) != needle@ by {
        lemma_matches_at_iff_subrange(hay@, needle@, k);
    }
    false
}

/// Relies on `String::push`: appends exactly the given character at the
/// end of the string.
#[verifier::external_body]
pub(crate) fn string_push(s: &mut String, c: char)
    ensures
        final(s)@ == old(s)@.push(c),
{
    s.push(c);
}

/// Relies on `String::pop`: removes and returns the last character of the
/// string, or returns `None` and leaves the string as it was if it is
/// empty.
#[verifier::external_body]
pub(crate) fn string_pop(s: &mut String) -> (r: Option<char>)
    ensures
        old(s)@.len() == 0 ==> r is None && final(s)@ == old(s)@,
        old(s)@.len() > 0 ==> r == Some(old(s)@.last()) && final(s)@ == old(s)@.drop_last(),
{
    s.pop()
}

} // verus!
