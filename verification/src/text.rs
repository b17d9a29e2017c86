//! Building blocks for the texts the quiz reads and sends: decimal numerals,
//! white space and tokens, and conversions between strings and character
//! vectors.

use vstd::prelude::*;

verus! {

/// `String::push` of the standard library: the string afterwards is the string
/// before with `ch` appended as its last character.
pub assume_specification[ String::push ](s: &mut String, ch: char)
    ensures
        final(s)@ == old(s)@.push(ch),
;

/// What `str::to_uppercase` of the standard library returns for a text: its
/// upper-case equivalent by the Unicode case mapping, which may be longer or
/// shorter than the text itself.
pub uninterp spec fn uppercase_of(s: Seq<char>) -> Seq<char>;

/// `str::to_uppercase` of the standard library: a new string that holds the
/// upper-case equivalent of `s`.
pub assume_specification[ str::to_uppercase ](s: &str) -> (upper: String)
    ensures
        upper@ == uppercase_of(s@),
;

/// The character that writes the digit `d`, for `d` below ten.
pub open spec fn digit_char(d: nat) -> char {
    (d + 48) as char
}

/// The decimal numeral of `n`, most significant digit first, without leading
/// zeros.
pub open spec fn decimal(n: nat) -> Seq<char>
    decreases n,
{
    if n < 10 {
        seq![digit_char(n)]
    } else {
        decimal(n / 10).push(digit_char(n % 10))
    }
}

/// The decimal numeral of a signed number: a minus sign before the numeral of
/// the magnitude when `i` is negative.
pub open spec fn signed_decimal(i: int) -> Seq<char> {
    if i < 0 {
        seq!['-'] + decimal((-i) as nat)
    } else {
        decimal(i as nat)
    }
}

/// The digit `d` as a character.
pub fn digit(d: u8) -> (c: char)
    requires
        d < 10,
    ensures
        c == digit_char(d as nat),
{
    (d + 48u8) as char
}

/// Appends the decimal numeral of `n` to `out`.
pub fn push_decimal(out: &mut String, n: u64)
    ensures
        final(out)@ == old(out)@ + decimal(n as nat),
    decreases n,
{
    if n >= 10 {
        push_decimal(out, n / 10);
    }
    out.push(digit((n % 10) as u8));
}

/// Appends the decimal numeral of the signed number `i` to `out`.
pub fn push_signed_decimal(out: &mut String, i: i32)
    ensures
        final(out)@ == old(out)@ + signed_decimal(i as int),
{
    if i < 0 {
        out.push('-');
        let magnitude: i64 = -(i as i64);
        push_decimal(out, magnitude as u64);
    } else {
        push_decimal(out, i as u64);
    }
}

/// The place of the first `c` in `s`, or the length of `s` if it holds none.
pub open spec fn first_place_of(s: Seq<char>, c: char) -> int
    decreases s.len(),
{
    if s.len() == 0 || s[0] == c {
        0
    } else {
        1 + first_place_of(s.drop_first(), c)
    }
}

/// If no `c` stands before place `k` of `s`, and `k` is the end of `s` or holds
/// a `c`, then `k` is the place of the first `c`.
pub proof fn lemma_first_place_of(s: Seq<char>, c: char, k: int)
    requires
        0 <= k <= s.len(),
        forall|j: int| 0 <= j < k ==> s[j] != c,
        k < s.len() ==> s[k] == c,
    ensures
        first_place_of(s, c) == k,
    decreases k,
{
    if k > 0 {
        lemma_first_place_of(s.drop_first(), c, k - 1);
    }
}

/// Whether `c` is white space: a space, a tab, a line feed, a vertical tab,
/// a form feed, a carriage return, or one of the other characters that
/// Unicode marks as white space.
pub open spec fn is_whitespace(c: char) -> bool {
    let code = c as u32;
    ||| 0x09 <= code <= 0x0D
    ||| code == 0x20
    ||| code == 0x85
    ||| code == 0xA0
    ||| code == 0x1680
    ||| 0x2000 <= code <= 0x200A
    ||| code == 0x2028
    ||| code == 0x2029
    ||| code == 0x202F
    ||| code == 0x205F
    ||| code == 0x3000
}

/// How many characters of white space stand at the start of `s`.
pub open spec fn leading_whitespace(s: Seq<char>) -> int
    decreases s.len(),
{
    if s.len() == 0 || !is_whitespace(s[0]) {
        0
    } else {
        1 + leading_whitespace(s.drop_first())
    }
}

/// The place of the first white space in `s`, or the length of `s` if it
/// holds none.
pub open spec fn first_whitespace(s: Seq<char>) -> int
    decreases s.len(),
{
    if s.len() == 0 || is_whitespace(s[0]) {
        0
    } else {
        1 + first_whitespace(s.drop_first())
    }
}

/// The first token of a text: what stands between the white space at its
/// start, if any, and the next white space or the end. A text of nothing but
/// white space has the empty token.
pub open spec fn first_token(text: Seq<char>) -> Seq<char> {
    let rest = text.skip(leading_whitespace(text));
    rest.take(first_whitespace(rest))
}

/// If the first `k` characters of `s` are white space, and `k` is the end of
/// `s` or holds another character, then `k` characters of white space stand
/// at the start of `s`.
pub proof fn lemma_leading_whitespace(s: Seq<char>, k: int)
    requires
        0 <= k <= s.len(),
        forall|j: int| 0 <= j < k ==> is_whitespace(s[j]),
        k < s.len() ==> !is_whitespace(s[k]),
    ensures
        leading_whitespace(s) == k,
    decreases k,
{
    if k > 0 {
        lemma_leading_whitespace(s.drop_first(), k - 1);
    }
}

/// If no white space stands before place `k` of `s`, and `k` is the end of `s`
/// or holds white space, then `k` is the place of the first white space.
pub proof fn lemma_first_whitespace(s: Seq<char>, k: int)
    requires
        0 <= k <= s.len(),
        forall|j: int| 0 <= j < k ==> !is_whitespace(s[j]),
        k < s.len() ==> is_whitespace(s[k]),
    ensures
        first_whitespace(s) == k,
    decreases k,
{
    if k > 0 {
        lemma_first_whitespace(s.drop_first(), k - 1);
    }
}

/// Whether `c` is white space.
pub fn is_space(c: char) -> (white: bool)
    ensures
        white == is_whitespace(c),
{
    let code: u32 = c as u32;
    (0x09 <= code && code <= 0x0D) || code == 0x20 || code == 0x85 || code == 0xA0 || code
        == 0x1680 || (0x2000 <= code && code <= 0x200A) || code == 0x2028 || code == 0x2029
        || code == 0x202F || code == 0x205F || code == 0x3000
}

/// The first token of the characters: see `first_token`.
pub fn first_token_of(chars: &Vec<char>) -> (token: Vec<char>)
    ensures
        token@ == first_token(chars@),
{
    let n = chars.len();
    let mut start: usize = 0;
    while start < n && is_space(chars[start])
        invariant
            start <= n,
            n == chars@.len(),
            forall|j: int| 0 <= j < start ==> is_whitespace(chars@[j]),
        decreases n - start,
    {
        start += 1;
    }
    let ghost rest = chars@.skip(start as int);
    let mut token: Vec<char> = Vec::new();
    let mut end: usize = start;
    while end < n && !is_space(chars[end])
        invariant
            start <= end <= n,
            n == chars@.len(),
            rest == chars@.skip(start as int),
            token@ == rest.take(end - start),
            forall|j: int| 0 <= j < end - start ==> !is_whitespace(rest[j]),
        decreases n - end,
    {
        token.push(chars[end]);
        end += 1;
        assert(token@ =~= rest.take(end - start));
    }
    proof {
        lemma_leading_whitespace(chars@, start as int);
        lemma_first_whitespace(rest, end - start);
    }
    token
}

/// Whether the string spells exactly the given text.
pub fn spells(s: &String, text: &str) -> (same: bool)
    ensures
        same == (s@ == text@),
{
    *s == String::from_str(text)
}

/// The characters of `s`, in order.
pub fn chars_of(s: &str) -> (chars: Vec<char>)
    ensures
        chars@ == s@,
{
    let mut chars: Vec<char> = Vec::new();
    for c in it: s.chars()
        invariant
            it.seq() == s@,
            chars@ == s@.take(it.index()),
    {
        chars.push(c);
    }
    chars
}

/// The string that the characters spell.
pub fn string_of(chars: &Vec<char>) -> (s: String)
    ensures
        s@ == chars@,
{
    let mut s = String::new();
    let mut i: usize = 0;
    while i < chars.len()
        invariant
            i <= chars.len(),
            s@ == chars@.take(i as int),
        decreases chars.len() - i,
    {
        s.push(chars[i]);
        i += 1;
    }
    s
}

} // verus!
