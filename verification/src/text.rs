//! String helpers shared by the library: building strings character by
//! character, prefix and substring tests, and number formatting.

use vstd::prelude::*;
use vstd::string::*;

verus! {

/// Appends one character to a string (`String::push`).
#[verifier::external_body]
pub(crate) fn push_char(s: &mut String, c: char)
    ensures
        final(s)@ == old(s)@.push(c),
{
    s.push(c);
}

/// Builds an owned string from a string slice.
pub fn owned(s: &str) -> (r: String)
    ensures
        r@ == s@,
{
    String::from_str(s)
}

/// Concatenates two string slices into a new string.
pub fn concat2(a: &str, b: &str) -> (r: String)
    ensures
        r@ == a@ + b@,
{
    let mut r = String::from_str(a);
    r.append(b);
    r
}

/// Concatenates three string slices into a new string.
pub fn concat3(a: &str, b: &str, c: &str) -> (r: String)
    ensures
        r@ == a@ + b@ + c@,
{
    let mut r = String::from_str(a);
    r.append(b);
    r.append(c);
    r
}

/// Whether `s` begins with `prefix`.
pub fn starts_with(s: &str, prefix: &str) -> (r: bool)
    ensures
        r == prefix@.is_prefix_of(s@),
{
    let n = s.unicode_len();
    let m = prefix.unicode_len();
    if m > n {
        return false;
    }
    let mut i: usize = 0;
    while i < m
        invariant
            n == s@.len(),
            m == prefix@.len(),
            m <= n,
            i <= m,
            forall|j: int| 0 <= j < i ==> s@[j] == prefix@[j],
        decreases m - i,
    {
        if s.get_char(i) != prefix.get_char(i) {
            return false;
        }
        i = i + 1;
    }
    true
}

/// Whether two string slices hold the same characters.
pub fn str_eq(a: &str, b: &str) -> (r: bool)
    ensures
        r == (a@ == b@),
{
    if a.unicode_len() != b.unicode_len() {
        return false;
    }
    let r = starts_with(a, b);
    proof {
        if r {
            assert(a@ =~= b@);
        }
    }
    r
}

/// Whether `pat` occurs in `s` starting at position `at`.
pub open spec fn occurs_at(s: Seq<char>, pat: Seq<char>, at: int) -> bool {
    0 <= at && at + pat.len() <= s.len() && s.subrange(at, at + pat.len()) == pat
}

/// Whether `pat` occurs anywhere in `s`.
pub open spec fn contains_seq(s: Seq<char>, pat: Seq<char>) -> bool {
    exists|at: int| occurs_at(s, pat, at)
}

fn matches_at(s: &str, n: usize, pat: &str, m: usize, at: usize) -> (r: bool)
    requires
        n == s@.len(),
        m == pat@.len(),
        at + m <= n,
    ensures
        r == occurs_at(s@, pat@, at as int),
{
    let mut j: usize = 0;
    while j < m
        invariant
            n == s@.len(),
            m == pat@.len(),
            at + m <= n,
            j <= m,
            forall|k: int| 0 <= k < j ==> s@[at + k] == pat@[k],
        decreases m - j,
    {
        if s.get_char(at + j) != pat.get_char(j) {
            assert(s@.subrange(at as int, at + m)[j as int] != pat@[j as int]);
            return false;
        }
        j = j + 1;
    }
    assert(s@.subrange(at as int, at + m) =~= pat@);
    true
}

/// Whether `pat` occurs as a contiguous substring of `s`.
pub fn contains_str(s: &str, pat: &str) -> (r: bool)
    ensures
        r == contains_seq(s@, pat@),
{
    let n = s.unicode_len();
    let m = pat.unicode_len();
    if m > n {
        return false;
    }
    if m == 0 {
        assert(s@.subrange(0, 0) =~= pat@);
        assert(occurs_at(s@, pat@, 0));
        return true;
    }
    let mut at: usize = 0;
    while at <= n - m
        invariant
            n == s@.len(),
            m == pat@.len(),
            0 < m <= n,
            at <= n - m + 1,
            forall|k: int| 0 <= k < at ==> !occurs_at(s@, pat@, k),
        decreases n - at,
    {
        if matches_at(s, n, pat, m, at) {
            return true;
        }
        at = at + 1;
    }
    assert forall|k: int| !occurs_at(s@, pat@, k) by {
        if occurs_at(s@, pat@, k) {
            assert(k < at);
        }
    }
    false
}

/// The character for a digit value below sixteen (lower-case hex letters).
pub open spec fn digit_char(d: nat) -> char {
    if d == 0 { '0' }
    else if d == 1 { '1' }
    else if d == 2 { '2' }
    else if d == 3 { '3' }
    else if d == 4 { '4' }
    else if d == 5 { '5' }
    else if d == 6 { '6' }
    else if d == 7 { '7' }
    else if d == 8 { '8' }
    else if d == 9 { '9' }
    else if d == 10 { 'a' }
    else if d == 11 { 'b' }
    else if d == 12 { 'c' }
    else if d == 13 { 'd' }
    else if d == 14 { 'e' }
    else { 'f' }
}

/// The digits of `n` written in base `base`, most significant first, with
/// no leading zeros (zero is written as a single `0`).
pub open spec fn radix_digits(n: nat, base: nat) -> Seq<char>
    recommends
        2 <= base <= 16,
    decreases n,
{
    if base < 2 || n < base {
        seq![digit_char(n % 16)]
    } else {
        proof {
            assert(n / base < n) by (nonlinear_arith)
                requires
                    base >= 2,
                    n >= base,
            ;
        }
        radix_digits(n / base, base).push(digit_char(n % base))
    }
}

/// Decimal rendering of `n`, as `format!("{}", n)` writes it.
pub open spec fn dec(n: nat) -> Seq<char> {
    radix_digits(n, 10)
}

/// Lower-case hexadecimal rendering of `n`, as `format!("{:x}", n)` writes it.
pub open spec fn hex(n: nat) -> Seq<char> {
    radix_digits(n, 16)
}

/// `s` padded on the left with `0` up to `width` characters.
pub open spec fn zero_pad(s: Seq<char>, width: nat) -> Seq<char> {
    if s.len() >= width {
        s
    } else {
        Seq::new((width - s.len()) as nat, |i: int| '0') + s
    }
}

fn digit(d: u64) -> (c: char)
    requires
        d < 16,
    ensures
        c == digit_char(d as nat),
{
    if d == 0 { '0' }
    else if d == 1 { '1' }
    else if d == 2 { '2' }
    else if d == 3 { '3' }
    else if d == 4 { '4' }
    else if d == 5 { '5' }
    else if d == 6 { '6' }
    else if d == 7 { '7' }
    else if d == 8 { '8' }
    else if d == 9 { '9' }
    else if d == 10 { 'a' }
    else if d == 11 { 'b' }
    else if d == 12 { 'c' }
    else if d == 13 { 'd' }
    else if d == 14 { 'e' }
    else { 'f' }
}

/// Appends the base-`base` digits of `n` to `s`.
pub fn push_radix(s: &mut String, n: u64, base: u64)
    requires
        2 <= base <= 16,
    ensures
        final(s)@ == old(s)@ + radix_digits(n as nat, base as nat),
    decreases n,
{
    if n < base {
        push_char(s, digit(n));
        assert(n % 16 == n);
        assert(old(s)@.push(digit_char(n as nat)) =~= old(s)@ + seq![digit_char(n as nat % 16)]);
    } else {
        assert(n / base < n) by (nonlinear_arith)
            requires
                base >= 2,
                n >= base,
        ;
        push_radix(s, n / base, base);
        let ghost mid = s@;
        push_char(s, digit(n % base));
        assert(s@ =~= old(s)@ + radix_digits(n as nat, base as nat));
    }
}

/// Decimal rendering of `n` (`n.to_string()`).
pub fn u64_to_dec(n: u64) -> (r: String)
    ensures
        r@ == dec(n as nat),
{
    let mut r = String::new();
    push_radix(&mut r, n, 10);
    assert(r@ =~= dec(n as nat));
    r
}

/// Lower-case hexadecimal rendering of `n` (`format!("{:x}", n)`).
pub fn u64_to_hex(n: u64) -> (r: String)
    ensures
        r@ == hex(n as nat),
{
    let mut r = String::new();
    push_radix(&mut r, n, 16);
    assert(r@ =~= hex(n as nat));
    r
}

/// Appends the decimal digits of `n` zero-padded to `width` characters
/// (`format!("{:0w$}", n)`).
pub fn push_dec_padded(s: &mut String, n: u64, width: usize)
    ensures
        final(s)@ == old(s)@ + zero_pad(dec(n as nat), width as nat),
{
    let digits = u64_to_dec(n);
    let len = digits.as_str().unicode_len();
    if len < width {
        let mut k: usize = 0;
        while k < width - len
            invariant
                len < width,
                k <= width - len,
                s@ == old(s)@ + Seq::new(k as nat, |i: int| '0'),
            decreases width - len - k,
        {
            push_char(s, '0');
            k = k + 1;
            assert(s@ =~= old(s)@ + Seq::new(k as nat, |i: int| '0'));
        }
    }
    s.append(digits.as_str());
    assert(s@ =~= old(s)@ + zero_pad(dec(n as nat), width as nat));
}

/// `s` cut into the pieces between separator characters, as `str::split`
/// does with a character predicate: `n` separators give `n + 1` pieces,
/// some of which may be empty.
pub open spec fn split_by(s: Seq<char>, sep: spec_fn(char) -> bool) -> Seq<Seq<char>>
    decreases s.len(),
{
    if s.len() == 0 {
        seq![Seq::<char>::empty()]
    } else {
        let rest = split_by(s.drop_last(), sep);
        if sep(s.last()) {
            rest.push(Seq::<char>::empty())
        } else {
            rest.update(rest.len() - 1, rest.last().push(s.last()))
        }
    }
}

/// The separators the library splits on.
pub enum Separators {
    /// `#` only.
    Hash,
    /// `#` and `&`.
    HashOrAmpersand,
}

/// The predicate a separator choice stands for.
pub open spec fn sep_pred(which: Separators) -> spec_fn(char) -> bool {
    match which {
        Separators::Hash => |c: char| c == '#',
        Separators::HashOrAmpersand => |c: char| c == '#' || c == '&',
    }
}

fn is_separator(which: &Separators, c: char) -> (r: bool)
    ensures
        r == (sep_pred(*which))(c),
{
    match which {
        Separators::Hash => c == '#',
        Separators::HashOrAmpersand => c == '#' || c == '&',
    }
}

/// The pieces of a vector of pieces, as sequences.
pub open spec fn pieces_view(v: Seq<Vec<char>>) -> Seq<Seq<char>> {
    v.map_values(|p: Vec<char>| p@)
}

/// Splits `s` at the chosen separator characters.
pub fn split_chars(s: &str, which: Separators) -> (r: Vec<Vec<char>>)
    ensures
        pieces_view(r@) == split_by(s@, sep_pred(which)),
{
    let n = s.unicode_len();
    let mut done: Vec<Vec<char>> = Vec::new();
    let mut cur: Vec<char> = Vec::new();
    let mut i: usize = 0;
    proof {
        assert(s@.subrange(0, 0) =~= Seq::<char>::empty());
        assert(pieces_view(done@).push(cur@) =~= split_by(s@.subrange(0, 0), sep_pred(which)));
    }
    while i < n
        invariant
            n == s@.len(),
            i <= n,
            pieces_view(done@).push(cur@) == split_by(s@.subrange(0, i as int), sep_pred(which)),
        decreases n - i,
    {
        let c = s.get_char(i);
        let ghost prefix = s@.subrange(0, i as int);
        let ghost next = s@.subrange(0, i + 1);
        proof {
            assert(next.drop_last() =~= prefix);
            assert(next.last() == c);
        }
        if is_separator(&which, c) {
            let mut fresh: Vec<char> = Vec::new();
            std::mem::swap(&mut fresh, &mut cur);
            done.push(fresh);
            proof {
                assert(pieces_view(done@) =~= split_by(prefix, sep_pred(which)));
                assert(pieces_view(done@).push(cur@) =~= split_by(next, sep_pred(which)));
            }
        } else {
            let ghost before = cur@;
            cur.push(c);
            proof {
                let rest = split_by(prefix, sep_pred(which));
                assert(rest.last() == before);
                assert(pieces_view(done@).push(cur@) =~= rest.update(
                    rest.len() - 1,
                    rest.last().push(c),
                ));
            }
        }
        i = i + 1;
    }
    done.push(cur);
    proof {
        assert(s@.subrange(0, n as int) =~= s@);
        assert(pieces_view(done@) =~= split_by(s@, sep_pred(which)));
    }
    done
}

/// Builds a string from a vector of characters.
pub fn string_from_chars(v: &Vec<char>) -> (r: String)
    ensures
        r@ == v@,
{
    let mut r = String::new();
    let mut i: usize = 0;
    while i < v.len()
        invariant
            i <= v@.len(),
            r@ == v@.subrange(0, i as int),
        decreases v@.len() - i,
    {
        push_char(&mut r, v[i]);
        i = i + 1;
        assert(r@ =~= v@.subrange(0, i as int));
    }
    assert(v@.subrange(0, v@.len() as int) =~= v@);
    r
}

/// The number of bytes of `c` in UTF-8.
pub open spec fn char_utf8_len(c: char) -> nat {
    if (c as u32) < 0x80 {
        1
    } else if (c as u32) < 0x800 {
        2
    } else if (c as u32) < 0x10000 {
        3
    } else {
        4
    }
}

/// The characters of the first `budget` bytes of `s` in UTF-8, or all of
/// `s` when it is shorter (`&s[..budget.min(s.len())]`); `None` when byte
/// `budget` falls inside a character, where slicing there panics.
pub open spec fn utf8_prefix(s: Seq<char>, budget: nat) -> Option<Seq<char>>
    decreases s.len(),
{
    if s.len() == 0 || budget == 0 {
        Some(Seq::<char>::empty())
    } else if char_utf8_len(s[0]) <= budget {
        match utf8_prefix(s.drop_first(), (budget - char_utf8_len(s[0])) as nat) {
            Some(p) => Some(seq![s[0]] + p),
            None => None,
        }
    } else {
        None
    }
}

fn utf8_len_of(c: char) -> (r: usize)
    ensures
        r == char_utf8_len(c),
{
    let v = c as u32;
    if v < 0x80 {
        1
    } else if v < 0x800 {
        2
    } else if v < 0x10000 {
        3
    } else {
        4
    }
}

/// The characters of `s` from position `from` on.
pub open spec fn chars_from(s: Seq<char>, from: int) -> Seq<char> {
    s.subrange(from, s.len() as int)
}

/// Takes the characters of the first `budget` bytes of `s[from..]`
/// (see [`utf8_prefix`]); `None` when that cut falls inside a character.
pub fn take_utf8_prefix(s: &Vec<char>, from: usize, budget: usize) -> (r: Option<Vec<char>>)
    requires
        from <= s@.len(),
    ensures
        r matches Some(p) ==> utf8_prefix(chars_from(s@, from as int), budget as nat) == Some(p@),
        r is None ==> utf8_prefix(chars_from(s@, from as int), budget as nat) is None,
    decreases s@.len() - from,
{
    let ghost rest = chars_from(s@, from as int);
    if from == s.len() || budget == 0 {
        return Some(Vec::new());
    }
    let c = s[from];
    let n = utf8_len_of(c);
    assert(rest[0] == c);
    assert(rest.drop_first() =~= chars_from(s@, from + 1));
    if n <= budget {
        match take_utf8_prefix(s, from + 1, budget - n) {
            Some(p) => {
                let mut out: Vec<char> = Vec::new();
                out.push(c);
                let mut k: usize = 0;
                while k < p.len()
                    invariant
                        k <= p@.len(),
                        out@ == seq![c] + p@.subrange(0, k as int),
                    decreases p@.len() - k,
                {
                    out.push(p[k]);
                    k = k + 1;
                    assert(out@ =~= seq![c] + p@.subrange(0, k as int));
                }
                assert(p@.subrange(0, p@.len() as int) =~= p@);
                Some(out)
            },
            None => None,
        }
    } else {
        None
    }
}

/// The value of a hexadecimal digit, either case.
pub open spec fn hex_digit_value(c: char) -> Option<nat> {
    if '0' <= c && c <= '9' {
        Some((c as u32 - '0' as u32) as nat)
    } else if 'a' <= c && c <= 'f' {
        Some((c as u32 - 'a' as u32 + 10) as nat)
    } else if 'A' <= c && c <= 'F' {
        Some((c as u32 - 'A' as u32 + 10) as nat)
    } else {
        None
    }
}

/// The value of a non-empty run of hexadecimal digits, most significant
/// first; `None` if any character is not a digit.
pub open spec fn hex_digits_value(s: Seq<char>) -> Option<nat>
    decreases s.len(),
{
    if s.len() == 0 {
        Some(0)
    } else {
        match (hex_digits_value(s.drop_last()), hex_digit_value(s.last())) {
            (Some(v), Some(d)) => Some(v * 16 + d),
            _ => None,
        }
    }
}

/// What `u16::from_str_radix(s, 16)` gives: an optional `+` sign followed
/// by at least one hexadecimal digit, whose value fits in 16 bits.
pub open spec fn parse_hex_u16(s: Seq<char>) -> Option<u16> {
    let digits = if s.len() > 0 && s[0] == '+' { s.drop_first() } else { s };
    if digits.len() == 0 {
        None
    } else {
        match hex_digits_value(digits) {
            Some(v) => if v <= 0xffff { Some(v as u16) } else { None },
            None => None,
        }
    }
}

fn hex_digit_of(c: char) -> (r: Option<u32>)
    ensures
        r matches Some(d) ==> hex_digit_value(c) == Some(d as nat) && d < 16,
        r is None ==> hex_digit_value(c) is None,
{
    if '0' <= c && c <= '9' {
        Some(c as u32 - '0' as u32)
    } else if 'a' <= c && c <= 'f' {
        Some(c as u32 - 'a' as u32 + 10)
    } else if 'A' <= c && c <= 'F' {
        Some(c as u32 - 'A' as u32 + 10)
    } else {
        None
    }
}

proof fn lemma_hex_digits_grow(s: Seq<char>, v: nat)
    requires
        hex_digits_value(s) == Some(v),
    ensures
        forall|k: int| 0 <= k <= s.len() ==> #[trigger] hex_digits_value(s.subrange(0, k)) is Some
            && hex_digits_value(s.subrange(0, k))->0 <= v,
    decreases s.len(),
{
    if s.len() > 0 {
        let p = s.drop_last();
        let pv = hex_digits_value(p)->0;
        lemma_hex_digits_grow(p, pv);
        assert forall|k: int| 0 <= k <= s.len() implies #[trigger] hex_digits_value(s.subrange(0, k)) is Some
            && hex_digits_value(s.subrange(0, k))->0 <= v by {
            if k == s.len() {
                assert(s.subrange(0, k) =~= s);
            } else {
                assert(s.subrange(0, k) =~= p.subrange(0, k));
            }
        }
    }
}

/// Parses text as a hexadecimal `u16` the way `u16::from_str_radix(s, 16)`
/// does.
pub fn hex_to_u16(s: &Vec<char>) -> (r: Option<u16>)
    ensures
        r == parse_hex_u16(s@),
{
    let n = s.len();
    let start: usize = if n > 0 && s[0] == '+' { 1 } else { 0 };
    let ghost digits = if s@.len() > 0 && s@[0] == '+' { s@.drop_first() } else { s@ };
    assert(digits =~= s@.subrange(start as int, n as int));
    if start == n {
        return None;
    }
    let mut value: u32 = 0;
    let mut i: usize = start;
    while i < n
        invariant
            start <= i <= n,
            n == s@.len(),
            digits =~= s@.subrange(start as int, n as int),
            digits == (if s@.len() > 0 && s@[0] == '+' { s@.drop_first() } else { s@ }),
            start < n,
            hex_digits_value(digits.subrange(0, i - start)) == Some(value as nat),
            value <= 0xffff,
        decreases n - i,
    {
        let c = s[i];
        let ghost pre = digits.subrange(0, i - start);
        let ghost next = digits.subrange(0, i + 1 - start);
        assert(next.drop_last() =~= pre);
        assert(next.last() == c);
        match hex_digit_of(c) {
            Some(d) => {
                let nv = value * 16 + d;
                if nv > 0xffff {
                    proof {
                        assert(hex_digits_value(next) == Some(nv as nat));
                        if let Some(total) = hex_digits_value(digits) {
                            lemma_hex_digits_grow(digits, total);
                            assert(hex_digits_value(next)->0 <= total);
                            assert(total > 0xffff);
                        }
                    }
                    return None;
                }
                value = nv;
            },
            None => {
                proof {
                    assert(hex_digits_value(next) is None);
                    if let Some(total) = hex_digits_value(digits) {
                        lemma_hex_digits_grow(digits, total);
                        assert(hex_digits_value(next) is Some);
                        assert(false);
                    }
                }
                return None;
            },
        }
        i = i + 1;
    }
    assert(digits.subrange(0, n - start) =~= digits);
    Some(value as u16)
}

} // verus!
