//! The text a replacement scan hands to `DuckDB` as a C string.

use vstd::prelude::*;

use crate::text::{str_chars, string_from_chars};

verus! {

/// `s` up to its first NUL, all of it if it has none.
pub open spec fn before_nul(s: Seq<char>) -> Seq<char>
    decreases s.len(),
{
    if s.len() == 0 {
        s
    } else if s[0] == '\0' {
        Seq::empty()
    } else {
        seq![s[0]] + before_nul(s.drop_first())
    }
}

/// What is kept is the beginning of `s`, up to its first NUL: a prefix of
/// `s` with no NUL in it, all of `s` when it has none.
pub proof fn lemma_before_nul_is_the_prefix_up_to_the_first_nul(s: Seq<char>)
    ensures
        before_nul(s).len() <= s.len(),
        before_nul(s) =~= s.take(before_nul(s).len() as int),
        !before_nul(s).contains('\0'),
        before_nul(s).len() < s.len() ==> s[before_nul(s).len() as int] == '\0',
        !s.contains('\0') ==> before_nul(s) == s,
    decreases s.len(),
{
    if s.len() > 0 && s[0] != '\0' {
        let rest = s.drop_first();
        lemma_before_nul_is_the_prefix_up_to_the_first_nul(rest);
        assert(before_nul(s) == seq![s[0]] + before_nul(rest));
        assert(s.take(before_nul(s).len() as int) =~= seq![s[0]] + rest.take(before_nul(rest).len() as int));
        if before_nul(s).contains('\0') {
            let k = choose|k: int| 0 <= k < before_nul(s).len() && before_nul(s)[k] == '\0';
            if k > 0 {
                assert(before_nul(rest)[k - 1] == '\0');
            }
        }
        if before_nul(s).len() < s.len() {
            assert(s[before_nul(s).len() as int] == rest[before_nul(rest).len() as int]);
        }
        if !s.contains('\0') {
            assert forall|i: int| 0 <= i < rest.len() implies rest[i] != '\0' by {
                assert(rest[i] == s[i + 1]);
            }
            assert(seq![s[0]] + rest =~= s);
        }
    }
}

/// The text a C string made from `s` can carry: `s` truncated at its first
/// interior NUL, as function names and error messages are when they reach
/// `DuckDB`.
pub fn str_to_cstring(s: &str) -> (t: String)
    ensures
        t@ == before_nul(s@),
{
    let chars = str_chars(s);
    let mut end: usize = 0;
    assert(chars@.take(0) + chars@.skip(0) =~= chars@);
    assert(chars@.skip(0) =~= chars@);
    assert(chars@.take(0) + before_nul(chars@) =~= before_nul(chars@));
    while end < chars.len() && chars[end] != '\0'
        invariant
            end <= chars@.len(),
            chars@ == s@,
            forall|j: int| 0 <= j < end ==> chars@[j] != '\0',
            before_nul(s@) == chars@.take(end as int) + before_nul(chars@.skip(end as int)),
        decreases chars@.len() - end,
    {
        assert(chars@.skip(end as int).drop_first() =~= chars@.skip(end + 1));
        assert(chars@.take(end as int) + seq![chars@[end as int]] =~= chars@.take(end + 1));
        end = end + 1;
    }
    assert(before_nul(chars@.skip(end as int)) =~= Seq::<char>::empty());
    let mut prefix: Vec<char> = Vec::new();
    let mut k: usize = 0;
    while k < end
        invariant
            k <= end <= chars@.len(),
            prefix@ == chars@.take(k as int),
        decreases end - k,
    {
        prefix.push(chars[k]);
        assert(chars@.take(k as int).push(chars@[k as int]) =~= chars@.take(k + 1));
        k = k + 1;
    }
    assert(prefix@ + Seq::<char>::empty() =~= prefix@);
    string_from_chars(prefix.as_slice())
}

} // verus!
