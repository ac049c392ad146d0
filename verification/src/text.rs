//! Text helpers shared by the other modules: conversion between strings and
//! character vectors, decimal numbers, joining and trimming.

use vstd::prelude::*;
use vstd::std_specs::iter::IteratorSpec;
use crate::platform::{lowercased, to_lowercase};

verus! {

/// The characters of `s`, in order.
pub fn to_chars(s: &str) -> (v: Vec<char>)
    ensures
        v@ == s@,
{
    broadcast use vstd::string::group_string_axioms;

    let mut v: Vec<char> = Vec::new();
    let source = s.chars();
    for c in it: source
        invariant
            it.seq() == s@,
            v@ == it.seq().take(it.index()),
    {
        v.push(c);
    }
    v
}

/// Appends the characters `chars[from..to]` to `out`.
pub fn push_chars(out: &mut String, chars: &Vec<char>, from: usize, to: usize)
    requires
        from <= to <= chars.len(),
    ensures
        final(out)@ == old(out)@ + chars@.subrange(from as int, to as int),
{
    let mut i: usize = from;
    while i < to
        invariant
            from <= i <= to <= chars.len(),
            out@ == old(out)@ + chars@.subrange(from as int, i as int),
        decreases to - i,
    {
        out.push(chars[i]);
        i += 1;
    }
}

/// The string made of `chars`.
pub fn from_chars(chars: &Vec<char>) -> (s: String)
    ensures
        s@ == chars@,
{
    let mut s = String::new();
    push_chars(&mut s, chars, 0, chars.len());
    assert(chars@.subrange(0, chars.len() as int) == chars@);
    s
}

/// Whether two character vectors are equal.
pub fn same_chars(a: &Vec<char>, b: &Vec<char>) -> (r: bool)
    ensures
        r == (a@ == b@),
{
    if a.len() != b.len() {
        return false;
    }
    let mut i: usize = 0;
    while i < a.len()
        invariant
            i <= a.len(),
            a.len() == b.len(),
            a@.take(i as int) == b@.take(i as int),
        decreases a.len() - i,
    {
        if a[i] != b[i] {
            return false;
        }
        assert(a@.take(i + 1) == a@.take(i as int).push(a@[i as int]));
        assert(b@.take(i + 1) == b@.take(i as int).push(b@[i as int]));
        i += 1;
    }
    assert(a@.take(a.len() as int) == a@);
    assert(b@.take(b.len() as int) == b@);
    true
}

/// Whether `c` is one of the ASCII digits `0` to `9`.
pub open spec fn is_digit(c: char) -> bool {
    '0' <= c && c <= '9'
}

/// The value of the ASCII digit `c`.
pub open spec fn digit_value(c: char) -> nat
    recommends
        is_digit(c),
{
    (c as int - '0' as int) as nat
}

/// The ASCII digit that stands for `d`.
pub open spec fn digit_char(d: nat) -> char
    recommends
        d < 10,
{
    ('0' as int + d) as char
}

/// Tests whether `c` is an ASCII digit.
pub fn check_digit(c: char) -> (r: bool)
    ensures
        r == is_digit(c),
{
    '0' <= c && c <= '9'
}

/// The value of the digit `c`.
pub fn value_of_digit(c: char) -> (d: u8)
    requires
        is_digit(c),
    ensures
        d == digit_value(c),
        d < 10,
{
    (c as u8) - ('0' as u8)
}

/// The digit that stands for `d`.
pub fn char_of_digit(d: u8) -> (c: char)
    requires
        d < 10,
    ensures
        c == digit_char(d as nat),
        is_digit(c),
        digit_value(c) == d,
{
    (('0' as u8) + d) as char
}

/// The decimal digits of `n`, most significant first, without leading zeros.
pub open spec fn decimal_digits(n: nat) -> Seq<char>
    decreases n,
{
    if n < 10 {
        seq![digit_char(n)]
    } else {
        decimal_digits(n / 10).push(digit_char(n % 10))
    }
}

/// The number that the digits of `s` spell, read as a decimal numeral.
pub open spec fn digits_value(s: Seq<char>) -> nat
    decreases s.len(),
{
    if s.len() == 0 {
        0
    } else {
        digits_value(s.drop_last()) * 10 + digit_value(s.last())
    }
}

/// Whether `s` consists of ASCII digits only.
pub open spec fn all_digits(s: Seq<char>) -> bool {
    forall|i: int| 0 <= i < s.len() ==> is_digit(#[trigger] s[i])
}

/// The decimal digits of a number are digits, and they spell that number.
pub proof fn decimal_digits_round_trip(n: nat)
    ensures
        decimal_digits(n).len() >= 1,
        all_digits(decimal_digits(n)),
        digits_value(decimal_digits(n)) == n,
    decreases n,
{
    if n < 10 {
        let s = decimal_digits(n);
        assert(s.drop_last() =~= Seq::<char>::empty());
        assert(digits_value(s.drop_last()) == 0);
    } else {
        decimal_digits_round_trip(n / 10);
        let s = decimal_digits(n);
        assert(s.drop_last() =~= decimal_digits(n / 10));
    }
}

/// A longer numeral spells a number at least as large as any of its prefixes.
pub proof fn digits_value_grows(s: Seq<char>, k: int)
    requires
        0 <= k <= s.len(),
    ensures
        digits_value(s.take(k)) <= digits_value(s),
    decreases s.len() - k,
{
    if k < s.len() {
        digits_value_grows(s, k + 1);
        assert(s.take(k + 1).drop_last() =~= s.take(k));
    } else {
        assert(s.take(k) =~= s);
    }
}

/// Appends the decimal digits of `n` to `out`.
pub fn push_decimal(out: &mut String, n: u64)
    ensures
        final(out)@ == old(out)@ + decimal_digits(n as nat),
    decreases n,
{
    if n < 10 {
        out.push(char_of_digit(n as u8));
        assert(old(out)@.push(digit_char(n as nat)) =~= old(out)@ + decimal_digits(n as nat));
    } else {
        push_decimal(out, n / 10);
        out.push(char_of_digit((n % 10) as u8));
        assert(out@ =~= old(out)@ + decimal_digits(n as nat));
    }
}

/// The decimal numeral of `n`.
pub fn decimal(n: u64) -> (s: String)
    ensures
        s@ == decimal_digits(n as nat),
{
    let mut s = String::new();
    push_decimal(&mut s, n);
    assert(Seq::<char>::empty() + decimal_digits(n as nat) =~= decimal_digits(n as nat));
    s
}

/// Reads `chars[from..to]` as a decimal numeral of at most `limit`.
///
/// The result is `None` when the range is empty, holds anything but ASCII
/// digits, or spells a number above `limit`.
pub fn read_digits(chars: &Vec<char>, from: usize, to: usize, limit: u64) -> (r: Option<u64>)
    requires
        from <= to <= chars.len(),
    ensures
        r == bounded_numeral(chars@.subrange(from as int, to as int), limit as nat),
{
    let ghost s = chars@.subrange(from as int, to as int);
    if from == to {
        return None;
    }
    let mut acc: u64 = 0;
    let mut i: usize = from;
    while i < to
        invariant
            from <= i <= to <= chars.len(),
            s == chars@.subrange(from as int, to as int),
            all_digits(s.take(i - from)),
            acc == digits_value(s.take(i - from)),
            acc <= limit,
        decreases to - i,
    {
        let c = chars[i];
        assert(c == s[i - from]);
        if !check_digit(c) {
            return None;
        }
        let d = value_of_digit(c) as u64;
        proof {
            assert(s.take(i - from + 1).drop_last() =~= s.take(i - from));
            assert(s.take(i - from + 1).last() == c);
            digits_value_grows(s, i - from + 1);
        }
        if d > limit || acc > (limit - d) / 10 {
            return None;
        }
        acc = acc * 10 + d;
        i += 1;
    }
    assert(s.take(to - from) =~= s);
    Some(acc)
}

/// What a decimal numeral spells, where it is one and stays within `limit`.
pub open spec fn bounded_numeral(s: Seq<char>, limit: nat) -> Option<u64> {
    if s.len() > 0 && all_digits(s) && digits_value(s) <= limit && limit <= u64::MAX {
        Some(digits_value(s) as u64)
    } else {
        None
    }
}

/// What an unsigned decimal literal spells: an optional `+`, then one digit
/// or more. `None` where `s` is no such literal.
pub open spec fn unsigned_literal(s: Seq<char>) -> Option<nat> {
    let digits = if s.len() > 0 && s[0] == '+' {
        s.drop_first()
    } else {
        s
    };
    if digits.len() > 0 && all_digits(digits) {
        Some(digits_value(digits))
    } else {
        None
    }
}

/// What a signed decimal literal spells: an optional `+` or `-`, then one
/// digit or more. `None` where `s` is no such literal.
pub open spec fn signed_literal(s: Seq<char>) -> Option<int> {
    if s.len() > 0 && s[0] == '-' {
        if s.len() > 1 && all_digits(s.drop_first()) {
            Some(-(digits_value(s.drop_first()) as int))
        } else {
            None
        }
    } else {
        match unsigned_literal(s) {
            Some(n) => Some(n as int),
            None => None,
        }
    }
}

/// Reads `chars[from..to]` as an unsigned decimal literal that fits `u64`.
pub fn read_unsigned(chars: &Vec<char>, from: usize, to: usize) -> (r: Option<u64>)
    requires
        from <= to <= chars.len(),
    ensures
        r == match unsigned_literal(chars@.subrange(from as int, to as int)) {
            Some(n) => if n <= u64::MAX {
                Some(n as u64)
            } else {
                None
            },
            None => None,
        },
{
    let ghost s = chars@.subrange(from as int, to as int);
    if from < to && chars[from] == '+' {
        assert(s.drop_first() =~= chars@.subrange(from + 1, to as int));
        read_digits(chars, from + 1, to, u64::MAX)
    } else {
        read_digits(chars, from, to, u64::MAX)
    }
}

/// Reads `chars[from..to]` as a signed decimal literal that fits `i64`.
pub fn read_signed(chars: &Vec<char>, from: usize, to: usize) -> (r: Option<i64>)
    requires
        from <= to <= chars.len(),
    ensures
        r == match signed_literal(chars@.subrange(from as int, to as int)) {
            Some(n) => if i64::MIN <= n <= i64::MAX {
                Some(n as i64)
            } else {
                None
            },
            None => None,
        },
{
    let ghost s = chars@.subrange(from as int, to as int);
    if from < to && chars[from] == '-' {
        assert(s.drop_first() =~= chars@.subrange(from + 1, to as int));
        match read_digits(chars, from + 1, to, 0x8000_0000_0000_0000u64) {
            Some(n) => {
                if n == 0x8000_0000_0000_0000u64 {
                    Some(i64::MIN)
                } else {
                    Some(-(n as i64))
                }
            },
            None => None,
        }
    } else if from < to && chars[from] == '+' {
        assert(s.drop_first() =~= chars@.subrange(from + 1, to as int));
        match read_digits(chars, from + 1, to, 0x7fff_ffff_ffff_ffffu64) {
            Some(n) => Some(n as i64),
            None => None,
        }
    } else {
        match read_digits(chars, from, to, 0x7fff_ffff_ffff_ffffu64) {
            Some(n) => Some(n as i64),
            None => None,
        }
    }
}

/// Whether `c` is whitespace: one of the characters with the Unicode
/// property `White_Space`, the tab, the space and the line breaks among
/// them.
pub open spec fn is_whitespace(c: char) -> bool {
    let v = c as u32;
    ||| 0x09 <= v <= 0x0d
    ||| v == 0x20
    ||| v == 0x85
    ||| v == 0xa0
    ||| v == 0x1680
    ||| 0x2000 <= v <= 0x200a
    ||| v == 0x2028
    ||| v == 0x2029
    ||| v == 0x202f
    ||| v == 0x205f
    ||| v == 0x3000
}

/// Tests whether `c` is whitespace.
pub fn char_is_whitespace(c: char) -> (r: bool)
    ensures
        r == is_whitespace(c),
{
    let v = c as u32;
    (0x09 <= v && v <= 0x0d) || v == 0x20 || v == 0x85 || v == 0xa0 || v == 0x1680 || (0x2000
        <= v && v <= 0x200a) || v == 0x2028 || v == 0x2029 || v == 0x202f || v == 0x205f || v
        == 0x3000
}

/// `s` without the whitespace at its start.
pub open spec fn trim_start(s: Seq<char>) -> Seq<char>
    decreases s.len(),
{
    if s.len() > 0 && is_whitespace(s.first()) {
        trim_start(s.drop_first())
    } else {
        s
    }
}

/// `s` without the whitespace at its end.
pub open spec fn trim_end(s: Seq<char>) -> Seq<char>
    decreases s.len(),
{
    if s.len() > 0 && is_whitespace(s.last()) {
        trim_end(s.drop_last())
    } else {
        s
    }
}

/// `s` without the whitespace at its start and at its end.
pub open spec fn trimmed(s: Seq<char>) -> Seq<char> {
    trim_end(trim_start(s))
}

/// What `trim_end` leaves is a prefix of the text, and it does not end in
/// whitespace.
pub proof fn trim_end_is_prefix(s: Seq<char>)
    ensures
        trim_end(s).len() <= s.len(),
        trim_end(s) == s.take(trim_end(s).len() as int),
        trim_end(s).len() > 0 ==> !is_whitespace(trim_end(s).last()),
    decreases s.len(),
{
    if s.len() > 0 && is_whitespace(s.last()) {
        trim_end_is_prefix(s.drop_last());
        let t = trim_end(s.drop_last());
        assert(s.drop_last().take(t.len() as int) =~= s.take(t.len() as int));
    } else {
        assert(s.take(s.len() as int) =~= s);
    }
}

/// What `trim_start` leaves does not begin with whitespace.
pub proof fn trim_start_is_clean(s: Seq<char>)
    ensures
        trim_start(s).len() > 0 ==> !is_whitespace(trim_start(s).first()),
    decreases s.len(),
{
    if s.len() > 0 && is_whitespace(s.first()) {
        trim_start_is_clean(s.drop_first());
    }
}

/// A trimmed text has no whitespace at either end, and trimming it again
/// changes nothing.
pub proof fn trimmed_is_stable(s: Seq<char>)
    ensures
        trimmed(s).len() > 0 ==> !is_whitespace(trimmed(s).first()) && !is_whitespace(
            trimmed(s).last(),
        ),
        trimmed(trimmed(s)) == trimmed(s),
{
    let u = trim_start(s);
    let t = trimmed(s);
    trim_start_is_clean(s);
    trim_end_is_prefix(u);
    if t.len() > 0 {
        assert(t.first() == u.take(t.len() as int)[0]);
        assert(trim_start(t) == t);
        assert(trim_end(t) == t);
    } else {
        assert(trim_start(t) == t);
        assert(trim_end(t) == t);
    }
}

/// The bounds of `chars` without the whitespace at its two ends.
pub fn trim_bounds(chars: &Vec<char>) -> (r: (usize, usize))
    ensures
        r.0 <= r.1 <= chars.len(),
        chars@.subrange(r.0 as int, r.1 as int) == trimmed(chars@),
{
    let mut from: usize = 0;
    assert(chars@.skip(0) =~= chars@);
    while from < chars.len() && char_is_whitespace(chars[from])
        invariant
            from <= chars.len(),
            trim_start(chars@) == trim_start(chars@.skip(from as int)),
        decreases chars.len() - from,
    {
        assert(chars@.skip(from as int).drop_first() =~= chars@.skip(from + 1));
        from += 1;
    }
    assert(trim_start(chars@) == chars@.skip(from as int));
    let mut to: usize = chars.len();
    while to > from && char_is_whitespace(chars[to - 1])
        invariant
            from <= to <= chars.len(),
            trimmed(chars@) == trim_end(chars@.subrange(from as int, to as int)),
        decreases to,
    {
        assert(chars@.subrange(from as int, to as int).drop_last() =~= chars@.subrange(
            from as int,
            to - 1,
        ));
        to -= 1;
    }
    (from, to)
}

/// The text of `s` without the whitespace at its two ends.
pub fn trim(s: &str) -> (r: String)
    ensures
        r@ == trimmed(s@),
{
    let chars = to_chars(s);
    let (from, to) = trim_bounds(&chars);
    let mut out = String::new();
    push_chars(&mut out, &chars, from, to);
    assert(Seq::<char>::empty() + trimmed(s@) =~= trimmed(s@));
    out
}

/// Whether every character of `s` is an ASCII character.
pub open spec fn is_ascii_text(s: Seq<char>) -> bool {
    forall|i: int| 0 <= i < s.len() ==> (#[trigger] s[i]) as u32 <= 0x7f
}

/// The lower-case form of an ASCII character: the small letter for a
/// capital letter, and the character itself otherwise.
pub open spec fn ascii_lower(c: char) -> char {
    if 'A' <= c && c <= 'Z' {
        (c as int + 32) as char
    } else {
        c
    }
}

/// The lower-case form of a text. For a text of ASCII characters it is the
/// text with its capital letters made small; for any other text it is what
/// the case tables of Unicode give.
pub open spec fn lowercase_of(s: Seq<char>) -> Seq<char> {
    if is_ascii_text(s) {
        Seq::new(s.len(), |i: int| ascii_lower(s[i]))
    } else {
        lowercased(s)
    }
}

/// The lower-case form of an ASCII character.
pub fn lower_char(c: char) -> (r: char)
    requires
        c as u32 <= 0x7f,
    ensures
        r == ascii_lower(c),
{
    if 'A' <= c && c <= 'Z' {
        ((c as u8) + 32) as char
    } else {
        c
    }
}

/// The lower-case form of the text `s`.
pub fn lowercase(s: &str) -> (r: String)
    ensures
        r@ == lowercase_of(s@),
{
    let chars = to_chars(s);
    let mut out = String::new();
    let mut i: usize = 0;
    while i < chars.len()
        invariant
            i <= chars.len(),
            chars@ == s@,
            is_ascii_text(chars@.take(i as int)),
            out@ == Seq::new(i as nat, |k: int| ascii_lower(chars@[k])),
        decreases chars.len() - i,
    {
        let c = chars[i];
        if c as u32 > 0x7f {
            assert(!is_ascii_text(chars@));
            return to_lowercase(s);
        }
        out.push(lower_char(c));
        assert(out@ =~= Seq::new((i + 1) as nat, |k: int| ascii_lower(chars@[k])));
        i += 1;
    }
    assert(chars@.take(chars.len() as int) =~= chars@);
    out
}

/// The words of `parts`, with one space between neighbours.
pub open spec fn join_spaced(parts: Seq<String>) -> Seq<char>
    decreases parts.len(),
{
    if parts.len() == 0 {
        Seq::empty()
    } else if parts.len() == 1 {
        parts[0]@
    } else {
        join_spaced(parts.drop_last()) + seq![' '] + parts.last()@
    }
}

/// Joins `parts[from..]` with single spaces.
pub fn join_words(parts: &Vec<String>, from: usize) -> (r: String)
    requires
        from <= parts.len(),
    ensures
        r@ == join_spaced(parts@.skip(from as int)),
{
    let ghost words = parts@.skip(from as int);
    let mut out = String::new();
    let mut i: usize = from;
    while i < parts.len()
        invariant
            from <= i <= parts.len(),
            words == parts@.skip(from as int),
            out@ == join_spaced(words.take(i - from)),
        decreases parts.len() - i,
    {
        if i > from {
            out.push(' ');
        }
        out.append(parts[i].as_str());
        proof {
            let next = words.take(i - from + 1);
            assert(next.drop_last() =~= words.take(i - from));
            assert(next.last() == parts@[i as int]);
        }
        i += 1;
    }
    assert(words.take(parts.len() - from) =~= words);
    out
}

/// Whether `s` begins with `prefix`.
pub open spec fn has_prefix(s: Seq<char>, prefix: Seq<char>) -> bool {
    prefix.len() <= s.len() && s.take(prefix.len() as int) == prefix
}

/// Tests whether `chars[from..]` begins with `prefix`.
pub fn starts_with_at(chars: &Vec<char>, from: usize, prefix: &Vec<char>) -> (r: bool)
    requires
        from <= chars.len(),
    ensures
        r == has_prefix(chars@.skip(from as int), prefix@),
{
    let ghost rest = chars@.skip(from as int);
    if prefix.len() > chars.len() - from {
        return false;
    }
    let mut i: usize = 0;
    while i < prefix.len()
        invariant
            i <= prefix.len() <= chars.len() - from,
            rest == chars@.skip(from as int),
            rest.take(i as int) == prefix@.take(i as int),
        decreases prefix.len() - i,
    {
        if chars[from + i] != prefix[i] {
            assert(rest.take(prefix.len() as int)[i as int] != prefix@[i as int]);
            return false;
        }
        assert(rest.take(i + 1) =~= rest.take(i as int).push(rest[i as int]));
        assert(prefix@.take(i + 1) =~= prefix@.take(i as int).push(prefix@[i as int]));
        i += 1;
    }
    assert(prefix@.take(prefix.len() as int) =~= prefix@);
    true
}

/// The text of `chars` from place `from` on.
pub fn text_from(chars: &Vec<char>, from: usize) -> (r: String)
    requires
        from <= chars.len(),
    ensures
        r@ == chars@.skip(from as int),
{
    let mut out = String::new();
    push_chars(&mut out, chars, from, chars.len());
    assert(Seq::<char>::empty() + chars@.skip(from as int) =~= chars@.skip(from as int));
    out
}

/// The number of bytes that the character `c` takes in UTF-8.
pub open spec fn utf8_len(c: char) -> nat {
    if (c as u32) < 0x80 {
        1
    } else if (c as u32) < 0x800 {
        2
    } else if (c as u32) < 0x1_0000 {
        3
    } else {
        4
    }
}

/// Counts the bytes that the character `c` takes in UTF-8.
pub fn char_len(c: char) -> (n: usize)
    ensures
        n == utf8_len(c),
        1 <= n <= 4,
{
    let v = c as u32;
    if v < 0x80 {
        1
    } else if v < 0x800 {
        2
    } else if v < 0x1_0000 {
        3
    } else {
        4
    }
}

/// The number of bytes that the text `s` takes in UTF-8: the length of a
/// string as Rust counts it.
pub open spec fn byte_len(s: Seq<char>) -> nat
    decreases s.len(),
{
    if s.len() == 0 {
        0
    } else {
        byte_len(s.drop_last()) + utf8_len(s.last())
    }
}

/// Every character takes a byte at least: a longer prefix takes more bytes.
pub proof fn byte_len_grows(s: Seq<char>, i: int, k: int)
    requires
        0 <= i <= k <= s.len(),
    ensures
        byte_len(s.take(i)) + (k - i) <= byte_len(s.take(k)),
    decreases k - i,
{
    if i < k {
        byte_len_grows(s, i, k - 1);
        assert(s.take(k).drop_last() =~= s.take(k - 1));
    }
}

/// Whether the first `k` characters of `s` take `n` bytes, so that a cut
/// after `n` bytes falls between two characters.
pub open spec fn is_cut(s: Seq<char>, k: int, n: int) -> bool {
    0 <= k <= s.len() && byte_len(s.take(k)) == n
}

/// Whether a cut after `n` bytes of `s` falls between two characters.
pub open spec fn has_cut(s: Seq<char>, n: int) -> bool {
    exists|k: int| is_cut(s, k, n)
}

/// The number of characters before a cut after `n` bytes of `s`.
pub open spec fn cut_place(s: Seq<char>, n: int) -> int {
    choose|k: int| is_cut(s, k, n)
}

/// A cut after `n` bytes falls in one place, if it falls between characters
/// at all.
pub proof fn cut_is_unique(s: Seq<char>, j: int, k: int, n: int)
    requires
        is_cut(s, j, n),
        is_cut(s, k, n),
    ensures
        j == k,
{
    if j < k {
        byte_len_grows(s, j, k);
    } else if k < j {
        byte_len_grows(s, k, j);
    }
}

/// The number of bytes of `chars` in UTF-8, or `cap` if they are more.
pub fn byte_len_capped(chars: &Vec<char>, cap: usize) -> (n: usize)
    ensures
        n == if byte_len(chars@) <= cap {
            byte_len(chars@)
        } else {
            cap as nat
        },
{
    let mut acc: usize = 0;
    let mut i: usize = 0;
    assert(chars@.take(0) =~= Seq::<char>::empty());
    while i < chars.len()
        invariant
            i <= chars.len(),
            acc <= cap,
            acc == byte_len(chars@.take(i as int)),
        decreases chars.len() - i,
    {
        let len = char_len(chars[i]);
        proof {
            assert(chars@.take(i + 1).drop_last() =~= chars@.take(i as int));
            byte_len_grows(chars@, i + 1, chars.len() as int);
            assert(chars@.take(chars.len() as int) =~= chars@);
        }
        if len > cap - acc {
            return cap;
        }
        acc += len;
        i += 1;
    }
    assert(chars@.take(chars.len() as int) =~= chars@);
    acc
}

/// Tests whether `chars` take at most `limit` bytes in UTF-8.
pub fn fits_in(chars: &Vec<char>, limit: usize) -> (r: bool)
    ensures
        r == (byte_len(chars@) <= limit),
{
    let mut acc: usize = 0;
    let mut i: usize = 0;
    assert(chars@.take(0) =~= Seq::<char>::empty());
    while i < chars.len()
        invariant
            i <= chars.len(),
            acc <= limit,
            acc == byte_len(chars@.take(i as int)),
        decreases chars.len() - i,
    {
        let len = char_len(chars[i]);
        proof {
            assert(chars@.take(i + 1).drop_last() =~= chars@.take(i as int));
            byte_len_grows(chars@, i + 1, chars.len() as int);
            assert(chars@.take(chars.len() as int) =~= chars@);
        }
        if len > limit - acc {
            return false;
        }
        acc += len;
        i += 1;
    }
    assert(chars@.take(chars.len() as int) =~= chars@);
    true
}

/// Finds the number of leading characters of `chars` that take `n` bytes in
/// UTF-8, if a cut after `n` bytes falls between two characters.
pub fn find_cut(chars: &Vec<char>, n: usize) -> (r: Option<usize>)
    ensures
        match r {
            Some(k) => is_cut(chars@, k as int, n as int),
            None => forall|k: int| !is_cut(chars@, k, n as int),
        },
{
    let mut acc: usize = 0;
    let mut i: usize = 0;
    assert(chars@.take(0) =~= Seq::<char>::empty());
    while i < chars.len() && acc < n
        invariant
            i <= chars.len(),
            acc <= n,
            acc == byte_len(chars@.take(i as int)),
        decreases chars.len() - i,
    {
        let len = char_len(chars[i]);
        proof {
            assert(chars@.take(i + 1).drop_last() =~= chars@.take(i as int));
        }
        if len > n - acc {
            proof {
                assert forall|k: int| !is_cut(chars@, k, n as int) by {
                    if 0 <= k <= i {
                        byte_len_grows(chars@, k, i as int);
                    } else if i < k <= chars.len() {
                        byte_len_grows(chars@, i + 1, k);
                    }
                }
            }
            return None;
        }
        acc += len;
        i += 1;
    }
    if acc == n {
        Some(i)
    } else {
        proof {
            assert forall|k: int| !is_cut(chars@, k, n as int) by {
                if 0 <= k <= chars.len() {
                    byte_len_grows(chars@, k, chars.len() as int);
                }
            }
        }
        None
    }
}

/// `s` with spaces after it, up to `width` characters.
pub open spec fn padded_end(s: Seq<char>, width: nat) -> Seq<char> {
    if s.len() >= width {
        s
    } else {
        s + Seq::new((width - s.len()) as nat, |i: int| ' ')
    }
}

/// `s` with spaces before it, up to `width` characters.
pub open spec fn padded_start(s: Seq<char>, width: nat) -> Seq<char> {
    if s.len() >= width {
        s
    } else {
        Seq::new((width - s.len()) as nat, |i: int| ' ') + s
    }
}

/// Appends `count` spaces to `out`.
pub fn push_spaces(out: &mut String, count: usize)
    ensures
        final(out)@ == old(out)@ + Seq::new(count as nat, |i: int| ' '),
{
    let mut i: usize = 0;
    assert(out@ =~= old(out)@ + Seq::new(0nat, |i: int| ' '));
    while i < count
        invariant
            i <= count,
            out@ == old(out)@ + Seq::new(i as nat, |i: int| ' '),
        decreases count - i,
    {
        out.push(' ');
        i += 1;
        assert(out@ =~= old(out)@ + Seq::new(i as nat, |i: int| ' '));
    }
}

/// Left-aligns `s` in a field of `width` characters.
pub fn pad_end(s: &str, width: usize) -> (r: String)
    ensures
        r@ == padded_end(s@, width as nat),
{
    let chars = to_chars(s);
    let mut out = from_chars(&chars);
    if chars.len() < width {
        push_spaces(&mut out, width - chars.len());
    }
    out
}

/// Right-aligns `s` in a field of `width` characters.
pub fn pad_start(s: &str, width: usize) -> (r: String)
    ensures
        r@ == padded_start(s@, width as nat),
{
    let chars = to_chars(s);
    let mut out = String::new();
    if chars.len() < width {
        push_spaces(&mut out, width - chars.len());
    }
    push_chars(&mut out, &chars, 0, chars.len());
    assert(chars@.subrange(0, chars.len() as int) =~= chars@);
    assert(Seq::<char>::empty() + chars@ =~= chars@);
    assert(Seq::<char>::empty() + Seq::new((width - chars.len()) as nat, |i: int| ' ')
        =~= Seq::new((width - chars.len()) as nat, |i: int| ' '));
    out
}

} // verus!
