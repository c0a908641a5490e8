//! The text transformation itself: `disemvowel` removes every ASCII vowel
//! from a text and keeps all other characters in their original order.

use vstd::prelude::*;

verus! {

/// The ten characters that are removed: the ASCII vowels, both cases.
pub open spec fn is_vowel(c: char) -> bool {
    c == 'a' || c == 'e' || c == 'i' || c == 'o' || c == 'u' || c == 'A' || c == 'E' || c == 'I'
        || c == 'O' || c == 'U'
}

/// The characters of `s` that are not ASCII vowels, in their original order.
pub open spec fn disemvowel_spec(s: Seq<char>) -> Seq<char>
    decreases s.len(),
{
    if s.len() == 0 {
        Seq::empty()
    } else if is_vowel(s.last()) {
        disemvowel_spec(s.drop_last())
    } else {
        disemvowel_spec(s.drop_last()).push(s.last())
    }
}

/// Appending one character keeps it exactly when it is not a vowel.
proof fn lemma_disemvowel_push(s: Seq<char>, c: char)
    ensures
        disemvowel_spec(s.push(c)) == (if is_vowel(c) {
            disemvowel_spec(s)
        } else {
            disemvowel_spec(s).push(c)
        }),
{
    assert(s.push(c).drop_last() =~= s);
    assert(s.push(c).last() == c);
}

/// Whether `c` is one of the ten ASCII vowels.
pub fn is_vowel_char(c: char) -> (b: bool)
    ensures
        b == is_vowel(c),
{
    c == 'a' || c == 'e' || c == 'i' || c == 'o' || c == 'u' || c == 'A' || c == 'E' || c == 'I'
        || c == 'O' || c == 'U'
}

/// No ASCII vowel occurs in the transformed text, whatever the input was.
pub proof fn lemma_disemvowel_no_vowels(s: Seq<char>)
    ensures
        forall|i: int|
            0 <= i < disemvowel_spec(s).len() ==> !is_vowel(#[trigger] disemvowel_spec(s)[i]),
    decreases s.len(),
{
    if s.len() > 0 {
        lemma_disemvowel_no_vowels(s.drop_last());
        let t = disemvowel_spec(s);
        let td = disemvowel_spec(s.drop_last());
        assert forall|i: int| 0 <= i < t.len() implies !is_vowel(t[i]) by {
            if !is_vowel(s.last()) {
                assert(t == td.push(s.last()));
                if i < td.len() {
                    assert(t[i] == td[i]);
                }
            }
        }
    }
}

/// `t` occurs inside `s` as a subsequence: the characters of `t` appear in
/// `s`, in the same relative order.
pub open spec fn is_subsequence_of(t: Seq<char>, s: Seq<char>) -> bool
    decreases s.len(),
{
    if t.len() == 0 {
        true
    } else if s.len() == 0 {
        false
    } else {
        (t.last() == s.last() && is_subsequence_of(t.drop_last(), s.drop_last()))
            || is_subsequence_of(t, s.drop_last())
    }
}

/// The transformed text is a subsequence of the input: every remaining
/// character comes from the input, in its original relative order.
pub proof fn lemma_disemvowel_subsequence(s: Seq<char>)
    ensures
        is_subsequence_of(disemvowel_spec(s), s),
    decreases s.len(),
{
    if s.len() > 0 {
        lemma_disemvowel_subsequence(s.drop_last());
        if !is_vowel(s.last()) {
            let t = disemvowel_spec(s);
            assert(t == disemvowel_spec(s.drop_last()).push(s.last()));
            assert(t.last() == s.last());
            assert(t.drop_last() =~= disemvowel_spec(s.drop_last()));
        }
    }
}

/// The transformed text is never longer than the input.
pub proof fn lemma_disemvowel_len(s: Seq<char>)
    ensures
        disemvowel_spec(s).len() <= s.len(),
    decreases s.len(),
{
    if s.len() > 0 {
        lemma_disemvowel_len(s.drop_last());
    }
}

/// A text without ASCII vowels passes through unchanged.
pub proof fn lemma_disemvowel_vowel_free(s: Seq<char>)
    requires
        forall|i: int| 0 <= i < s.len() ==> !is_vowel(#[trigger] s[i]),
    ensures
        disemvowel_spec(s) == s,
    decreases s.len(),
{
    if s.len() > 0 {
        lemma_disemvowel_vowel_free(s.drop_last());
        assert(disemvowel_spec(s) =~= s);
    } else {
        assert(disemvowel_spec(s) =~= s);
    }
}

/// Applying the transformation twice gives the same text as applying it
/// once: the first pass leaves no vowel for the second to remove.
pub proof fn lemma_disemvowel_idempotent(s: Seq<char>)
    ensures
        disemvowel_spec(disemvowel_spec(s)) == disemvowel_spec(s),
{
    lemma_disemvowel_no_vowels(s);
    lemma_disemvowel_vowel_free(disemvowel_spec(s));
}

/// Relies on `Iterator::collect` for `String`: collecting characters yields
/// the string made of exactly those characters, in order.
#[verifier::external_body]
fn chars_to_string(v: &Vec<char>) -> (r: String)
    ensures
        r@ == v@,
{
    v.iter().collect()
}

/// Removes every ASCII vowel from `s` and returns the remaining characters
/// in their original order.
pub fn disemvowel(s: &str) -> (r: String)
    ensures
        r@ == disemvowel_spec(s@),
{
    let n: usize = s.unicode_len();
    let mut kept: Vec<char> = Vec::new();
    let mut i: usize = 0;
    while i < n
        invariant
            n == s@.len(),
            i <= n,
            kept@ == disemvowel_spec(s@.subrange(0, i as int)),
        decreases n - i,
    {
        let c = s.get_char(i);
        proof {
            assert(s@.subrange(0, i + 1) =~= s@.subrange(0, i as int).push(s@[i as int]));
            lemma_disemvowel_push(s@.subrange(0, i as int), s@[i as int]);
        }
        if !is_vowel_char(c) {
            kept.push(c);
        }
        i = i + 1;
    }
    proof {
        assert(s@.subrange(0, n as int) =~= s@);
    }
    chars_to_string(&kept)
}

} // verus!
