//! Helpers of the command-line interface's text output.

use vstd::prelude::*;
use crate::text::{char_utf8_len, utf8_prefix, take_utf8_prefix, chars_from, string_from_chars,
    owned, push_char};

verus! {

/// The number of bytes of `s` in UTF-8.
pub open spec fn utf8_size(s: Seq<char>) -> nat
    decreases s.len(),
{
    if s.len() == 0 {
        0
    } else {
        utf8_size(s.drop_last()) + char_utf8_len(s.last())
    }
}

/// `s` cut to at most `max_len` bytes: unchanged when it fits; else its
/// first `max_len` bytes when `max_len` is 3 or less; else its first
/// `max_len - 3` bytes followed by `...`.  `None` when the cut falls inside
/// a character.
pub open spec fn truncated(s: Seq<char>, max_len: nat) -> Option<Seq<char>> {
    if utf8_size(s) <= max_len {
        Some(s)
    } else if max_len <= 3 {
        utf8_prefix(s, max_len)
    } else {
        match utf8_prefix(s, (max_len - 3) as nat) {
            Some(p) => Some(p + seq!['.', '.', '.']),
            None => None,
        }
    }
}

fn chars_of(s: &str) -> (r: Vec<char>)
    ensures
        r@ == s@,
{
    let n = s.unicode_len();
    let mut out: Vec<char> = Vec::new();
    let mut i: usize = 0;
    while i < n
        invariant
            n == s@.len(),
            i <= n,
            out@ == s@.subrange(0, i as int),
        decreases n - i,
    {
        out.push(s.get_char(i));
        i = i + 1;
        assert(out@ =~= s@.subrange(0, i as int));
    }
    assert(s@.subrange(0, n as int) =~= s@);
    out
}

fn fits_in(s: &Vec<char>, max_len: usize) -> (r: bool)
    ensures
        r == (utf8_size(s@) <= max_len),
{
    let mut total: u128 = 0;
    let mut i: usize = 0;
    while i < s.len()
        invariant
            i <= s@.len(),
            total == utf8_size(s@.subrange(0, i as int)),
            total <= 4 * i,
        decreases s@.len() - i,
    {
        let ghost pre = s@.subrange(0, i as int);
        let ghost next = s@.subrange(0, i + 1);
        assert(next.drop_last() =~= pre);
        let c = s[i];
        let v = c as u32;
        let w: u128 = if v < 0x80 { 1 } else if v < 0x800 { 2 } else if v < 0x10000 { 3 } else { 4 };
        total = total + w;
        i = i + 1;
    }
    assert(s@.subrange(0, s@.len() as int) =~= s@);
    total <= max_len as u128
}

/// Truncates a string to at most `max_len` bytes, marking a cut with
/// `...` when there is room for it.
pub fn truncate_string(s: &str, max_len: usize) -> (r: String)
    requires
        truncated(s@, max_len as nat) is Some,
    ensures
        truncated(s@, max_len as nat) == Some(r@),
{
    let chars = chars_of(s);
    assert(chars_from(chars@, 0) =~= chars@);
    if fits_in(&chars, max_len) {
        owned(s)
    } else if max_len <= 3 {
        match take_utf8_prefix(&chars, 0, max_len) {
            Some(p) => string_from_chars(&p),
            None => owned(s),
        }
    } else {
        match take_utf8_prefix(&chars, 0, max_len - 3) {
            Some(p) => {
                let mut r = string_from_chars(&p);
                push_char(&mut r, '.');
                push_char(&mut r, '.');
                push_char(&mut r, '.');
                assert(r@ =~= p@ + seq!['.', '.', '.']);
                r
            },
            None => owned(s),
        }
    }
}

proof fn lemma_utf8_size_concat(a: Seq<char>, b: Seq<char>)
    ensures
        utf8_size(a + b) == utf8_size(a) + utf8_size(b),
    decreases b.len(),
{
    if b.len() == 0 {
        assert(a + b =~= a);
    } else {
        lemma_utf8_size_concat(a, b.drop_last());
        assert((a + b).drop_last() =~= a + b.drop_last());
        assert((a + b).last() == b.last());
    }
}

proof fn lemma_utf8_prefix_size(s: Seq<char>, budget: nat)
    ensures
        utf8_prefix(s, budget) matches Some(p) ==> utf8_size(p) <= budget,
    decreases s.len(),
{
    if s.len() == 0 || budget == 0 {
        assert(utf8_size(Seq::<char>::empty()) == 0);
    } else if char_utf8_len(s[0]) <= budget {
        let rest_budget = (budget - char_utf8_len(s[0])) as nat;
        lemma_utf8_prefix_size(s.drop_first(), rest_budget);
        if let Some(p) = utf8_prefix(s.drop_first(), rest_budget) {
            let one = seq![s[0]];
            lemma_utf8_size_concat(one, p);
            assert(one.drop_last() =~= Seq::<char>::empty());
            assert(utf8_size(Seq::<char>::empty()) == 0);
            assert(one.last() == s[0]);
            assert(utf8_size(one) == char_utf8_len(s[0]));
            assert(utf8_prefix(s, budget) == Some(one + p));
        }
    }
}

/// A truncated string never takes more than `max_len` bytes, and a
/// string that fits is left as it is.
pub proof fn law_truncation_fits(s: Seq<char>, max_len: nat)
    ensures
        truncated(s, max_len) matches Some(t) ==> utf8_size(t) <= max_len,
        utf8_size(s) <= max_len ==> truncated(s, max_len) == Some(s),
{
    if utf8_size(s) > max_len {
        if max_len <= 3 {
            lemma_utf8_prefix_size(s, max_len);
        } else {
            lemma_utf8_prefix_size(s, (max_len - 3) as nat);
            if let Some(p) = utf8_prefix(s, (max_len - 3) as nat) {
                let dots = seq!['.', '.', '.'];
                lemma_utf8_size_concat(p, dots);
                let d1 = seq!['.'];
                let d2 = seq!['.', '.'];
                assert(d1.drop_last() =~= Seq::<char>::empty());
                assert(utf8_size(Seq::<char>::empty()) == 0);
                assert(char_utf8_len('.') == 1);
                assert(utf8_size(d1) == 1);
                assert(d2.drop_last() =~= d1);
                assert(utf8_size(d2) == 2);
                assert(dots.drop_last() =~= d2);
                assert(utf8_size(dots) == 3);
            }
        }
    }
}

/// Picks the pattern a keyboard is assigned to: the first one, in priority
/// order, that it matches; `None` when it matches none.
pub fn first_matching_pattern(matches: &Vec<bool>) -> (r: Option<usize>)
    ensures
        r matches Some(i) ==> i < matches@.len() && matches@[i as int] && forall|j: int|
            0 <= j < i ==> !matches@[j],
        r is None <==> forall|j: int| 0 <= j < matches@.len() ==> !matches@[j],
{
    let mut i: usize = 0;
    while i < matches.len()
        invariant
            i <= matches@.len(),
            forall|j: int| 0 <= j < i ==> !matches@[j],
        decreases matches@.len() - i,
    {
        if matches[i] {
            return Some(i);
        }
        i = i + 1;
    }
    None
}

} // verus!
