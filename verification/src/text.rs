//! Text building blocks: trimming, searching, and decimal numbers.

use vstd::prelude::*;
use vstd::string::*;

verus! {

/// The characters with the Unicode `White_Space` property.
pub open spec fn is_white_space(c: char) -> bool {
    let n = c as u32;
    ||| 0x09 <= n <= 0x0d
    ||| n == 0x20
    ||| n == 0x85
    ||| n == 0xa0
    ||| n == 0x1680
    ||| 0x2000 <= n <= 0x200a
    ||| n == 0x2028
    ||| n == 0x2029
    ||| n == 0x202f
    ||| n == 0x205f
    ||| n == 0x3000
}

/// `s` without its leading white space.
pub open spec fn trimmed_start(s: Seq<char>) -> Seq<char>
    decreases s.len(),
{
    if s.len() > 0 && is_white_space(s[0]) {
        trimmed_start(s.skip(1))
    } else {
        s
    }
}

/// `s` without its trailing white space.
pub open spec fn trimmed_end(s: Seq<char>) -> Seq<char>
    decreases s.len(),
{
    if s.len() > 0 && is_white_space(s.last()) {
        trimmed_end(s.drop_last())
    } else {
        s
    }
}

/// `s` without leading and trailing white space.
pub open spec fn trimmed(s: Seq<char>) -> Seq<char> {
    trimmed_end(trimmed_start(s))
}

/// Calls [`str::trim`], which removes the leading and the trailing characters
/// with the Unicode `White_Space` property and keeps everything between.
#[verifier::external_body]
pub(crate) fn trim(s: &str) -> (r: &str)
    ensures
        r@ == trimmed(s@),
{
    s.trim()
}

/// Text that neither begins nor ends with white space is left as it is.
pub proof fn lemma_trimmed_idle(s: Seq<char>)
    requires
        s.len() > 0,
        !is_white_space(s[0]),
        !is_white_space(s.last()),
    ensures
        trimmed(s) == s,
{
}

/// Trimming text that begins with a part without white space at either end
/// only shortens what stands behind that part.
pub proof fn lemma_trimmed_behind(p: Seq<char>, rest: Seq<char>)
    requires
        p.len() > 0,
        !is_white_space(p[0]),
        !is_white_space(p.last()),
    ensures
        trimmed(p + rest) == p + trimmed_end(rest),
    decreases rest.len(),
{
    let s = p + rest;
    assert(s[0] == p[0]);
    if rest.len() == 0 {
        assert(s =~= p);
        assert(p + trimmed_end(rest) =~= p);
    } else {
        assert(s.last() == rest.last());
        if is_white_space(rest.last()) {
            lemma_trimmed_behind(p, rest.drop_last());
            assert(s.drop_last() =~= p + rest.drop_last());
            assert((p + rest.drop_last())[0] == p[0]);
        }
    }
}

/// Trimmed text has no white space at either end.
pub proof fn lemma_trimmed_ends(s: Seq<char>)
    ensures
        trimmed(s).len() > 0 ==> !is_white_space(trimmed(s)[0]) && !is_white_space(
            trimmed(s).last(),
        ),
        trimmed(s).len() <= s.len(),
{
    lemma_trimmed_start(s);
    lemma_trimmed_end(trimmed_start(s));
}

proof fn lemma_trimmed_start(s: Seq<char>)
    ensures
        trimmed_start(s).len() <= s.len(),
        trimmed_start(s).len() > 0 ==> !is_white_space(trimmed_start(s)[0]),
    decreases s.len(),
{
    if s.len() > 0 && is_white_space(s[0]) {
        lemma_trimmed_start(s.skip(1));
    }
}

proof fn lemma_trimmed_end(s: Seq<char>)
    ensures
        trimmed_end(s).len() <= s.len(),
        trimmed_end(s).len() > 0 ==> !is_white_space(trimmed_end(s).last()) && trimmed_end(s)[0]
            == s[0],
    decreases s.len(),
{
    if s.len() > 0 && is_white_space(s.last()) {
        lemma_trimmed_end(s.drop_last());
    }
}

/// The lower-case form of `s` under Unicode's `Lowercase` mapping.
pub uninterp spec fn lowercased(s: Seq<char>) -> Seq<char>;

/// Calls [`str::to_lowercase`]. Nothing is said of the result but that it
/// depends on the text alone.
#[verifier::external_body]
pub(crate) fn to_lowercase(s: &str) -> (r: String)
    ensures
        r@ == lowercased(s@),
{
    s.to_lowercase()
}

/// The specification of [`String::push`]: it appends one character.
pub assume_specification[ String::push ](s: &mut String, c: char)
    ensures
        final(s)@ == old(s)@.push(c),
;

/// All characters of `s`, in order.
pub fn chars_of(s: &str) -> (r: Vec<char>)
    ensures
        r@ == s@,
{
    let mut v: Vec<char> = Vec::new();
    for c in it: s.chars()
        invariant
            v@ == it.seq().take(it.index() as int),
    {
        v.push(c);
    }
    v
}

/// The text made of the characters of `v`.
pub fn text_of(v: &Vec<char>) -> (r: String)
    ensures
        r@ == v@,
{
    let mut s: String = String::new();
    for i in 0..v.len()
        invariant
            s@ == v@.take(i as int),
    {
        s.push(v[i]);
        assert(v@.take(i as int + 1) =~= v@.take(i as int).push(v@[i as int]));
    }
    assert(v@.take(v@.len() as int) =~= v@);
    s
}

/// Are the two texts the same, character by character?
pub fn same_text(a: &str, b: &str) -> (r: bool)
    ensures
        r == (a@ == b@),
{
    let x: String = a.to_string();
    let y: String = b.to_string();
    x == y
}

/// `a` followed by `b`.
pub fn join2(a: &str, b: &str) -> (r: String)
    ensures
        r@ == a@ + b@,
{
    let mut r: String = a.to_string();
    r.append(b);
    r
}

/// `a` followed by `b` followed by `c`.
pub fn join3(a: &str, b: &str, c: &str) -> (r: String)
    ensures
        r@ == a@ + b@ + c@,
{
    let mut r: String = join2(a, b);
    r.append(c);
    r
}

/// `a`, `b`, `c` and `d`, one after the other.
pub fn join4(a: &str, b: &str, c: &str, d: &str) -> (r: String)
    ensures
        r@ == a@ + b@ + c@ + d@,
{
    let mut r: String = join3(a, b, c);
    r.append(d);
    r
}

/// `a`, `b`, `c`, `d` and `e`, one after the other.
pub fn join5(a: &str, b: &str, c: &str, d: &str, e: &str) -> (r: String)
    ensures
        r@ == a@ + b@ + c@ + d@ + e@,
{
    let mut r: String = join4(a, b, c, d);
    r.append(e);
    r
}

// ---------------------------------------------------------------------------
// Prefixes and splitting

/// Does `s` begin with `prefix`?
pub open spec fn begins_with(s: Seq<char>, prefix: Seq<char>) -> bool {
    s.len() >= prefix.len() && s.take(prefix.len() as int) == prefix
}

/// What follows `prefix` in `s`, if `s` begins with it.
pub fn strip_prefix<'a>(s: &'a str, prefix: &str) -> (r: Option<&'a str>)
    ensures
        match r {
            Some(rest) => begins_with(s@, prefix@) && rest@ == s@.skip(prefix@.len() as int),
            None => !begins_with(s@, prefix@),
        },
{
    let n: usize = s.unicode_len();
    let k: usize = prefix.unicode_len();
    if n < k {
        return None;
    }
    let head: &str = s.substring_char(0, k);
    if same_text(head, prefix) {
        let rest: &str = s.substring_char(k, n);
        assert(rest@ =~= s@.skip(k as int));
        Some(rest)
    } else {
        None
    }
}

/// Does `s` end with `suffix`?
pub open spec fn ends_with(s: Seq<char>, suffix: Seq<char>) -> bool {
    s.len() >= suffix.len() && s.skip(s.len() - suffix.len()) == suffix
}

/// What precedes `suffix` in `s`, if `s` ends with it.
pub fn strip_suffix<'a>(s: &'a str, suffix: &str) -> (r: Option<&'a str>)
    ensures
        match r {
            Some(rest) => ends_with(s@, suffix@) && rest@ == s@.take(s@.len() - suffix@.len()),
            None => !ends_with(s@, suffix@),
        },
{
    let n: usize = s.unicode_len();
    let k: usize = suffix.unicode_len();
    if n < k {
        return None;
    }
    let tail: &str = s.substring_char(n - k, n);
    assert(tail@ =~= s@.skip(n - k));
    if same_text(tail, suffix) {
        let rest: &str = s.substring_char(0, n - k);
        assert(rest@ =~= s@.take(n - k));
        Some(rest)
    } else {
        None
    }
}

/// Where `c` first occurs in `s`; the length of `s` where it does not.
pub open spec fn first_index(s: Seq<char>, c: char) -> int
    decreases s.len(),
{
    if s.len() == 0 {
        0
    } else if s[0] == c {
        0
    } else {
        1 + first_index(s.skip(1), c)
    }
}

/// Where `c` last occurs in `s`; `-1` where it does not.
pub open spec fn last_index(s: Seq<char>, c: char) -> int
    decreases s.len(),
{
    if s.len() == 0 {
        -1
    } else if s.last() == c {
        s.len() - 1
    } else {
        last_index(s.drop_last(), c)
    }
}

/// An index before which `c` does not occur and at which it does, or at which
/// the text ends, is the first index.
pub proof fn lemma_first_index(s: Seq<char>, c: char, i: int)
    requires
        0 <= i <= s.len(),
        forall|k: int| 0 <= k < i ==> s[k] != c,
        i < s.len() ==> s[i] == c,
    ensures
        first_index(s, c) == i,
    decreases s.len(),
{
    if s.len() > 0 && s[0] != c {
        assert forall|k: int| 0 <= k < i - 1 implies s.skip(1)[k] != c by {
            assert(s.skip(1)[k] == s[k + 1]);
        }
        lemma_first_index(s.skip(1), c, i - 1);
    }
}

/// An index behind which `c` does not occur and at which it does, or `-1`
/// where it occurs nowhere, is the last index.
pub proof fn lemma_last_index(s: Seq<char>, c: char, i: int)
    requires
        -1 <= i < s.len(),
        forall|k: int| i < k < s.len() ==> s[k] != c,
        i >= 0 ==> s[i] == c,
    ensures
        last_index(s, c) == i,
    decreases s.len(),
{
    if s.len() > 0 && s.last() != c {
        lemma_last_index(s.drop_last(), c, i);
    }
}

/// The parts of `s` before and behind the first `c`.
pub open spec fn split_first(s: Seq<char>, c: char) -> Option<(Seq<char>, Seq<char>)> {
    let i = first_index(s, c);
    if i < s.len() {
        Some((s.take(i), s.skip(i + 1)))
    } else {
        None
    }
}

/// The parts of `s` before and behind the last `c`.
pub open spec fn split_last(s: Seq<char>, c: char) -> Option<(Seq<char>, Seq<char>)> {
    let i = last_index(s, c);
    if i >= 0 {
        Some((s.take(i), s.skip(i + 1)))
    } else {
        None
    }
}

/// The views of a pair of texts.
pub open spec fn pair_view(p: Option<(&str, &str)>) -> Option<(Seq<char>, Seq<char>)> {
    match p {
        Some((a, b)) => Some((a@, b@)),
        None => None,
    }
}

/// Splits `s` around the first `c`.
pub fn split_once<'a>(s: &'a str, c: char) -> (r: Option<(&'a str, &'a str)>)
    ensures
        pair_view(r) == split_first(s@, c),
{
    let v: Vec<char> = chars_of(s);
    let n: usize = v.len();
    let mut i: usize = 0;
    while i < n && v[i] != c
        invariant
            n == v.len(),
            v@ == s@,
            i <= n,
            forall|k: int| 0 <= k < i ==> v@[k] != c,
        decreases n - i,
    {
        i = i + 1;
    }
    proof {
        lemma_first_index(s@, c, i as int);
    }
    if i < n {
        let head: &str = s.substring_char(0, i);
        let tail: &str = s.substring_char(i + 1, n);
        assert(head@ =~= s@.take(i as int));
        assert(tail@ =~= s@.skip(i + 1));
        Some((head, tail))
    } else {
        None
    }
}

/// Splits `s` around the last `c`.
pub fn rsplit_once<'a>(s: &'a str, c: char) -> (r: Option<(&'a str, &'a str)>)
    ensures
        pair_view(r) == split_last(s@, c),
{
    let v: Vec<char> = chars_of(s);
    let n: usize = v.len();
    let mut i: usize = n;
    while i > 0 && v[i - 1] != c
        invariant
            n == v.len(),
            v@ == s@,
            i <= n,
            forall|k: int| i <= k < n ==> v@[k] != c,
        decreases i,
    {
        i = i - 1;
    }
    proof {
        lemma_last_index(s@, c, i - 1);
    }
    if i > 0 {
        let head: &str = s.substring_char(0, i - 1);
        let tail: &str = s.substring_char(i, n);
        assert(head@ =~= s@.take(i - 1));
        assert(tail@ =~= s@.skip(i as int));
        Some((head, tail))
    } else {
        None
    }
}

/// Does `needle` stand in `s` at position `i`?
pub open spec fn stands_at(s: Seq<char>, needle: Seq<char>, i: int) -> bool {
    0 <= i && i + needle.len() <= s.len() && s.subrange(i, i + needle.len()) == needle
}

/// Does `needle` stand anywhere in `s`?
pub open spec fn has_substring(s: Seq<char>, needle: Seq<char>) -> bool {
    exists|i: int| stands_at(s, needle, i)
}

/// Does `needle` stand anywhere in `s`?
pub fn contains(s: &str, needle: &str) -> (r: bool)
    ensures
        r == has_substring(s@, needle@),
{
    let n: usize = s.unicode_len();
    let k: usize = needle.unicode_len();
    if n < k {
        return false;
    }
    let mut i: usize = 0;
    while i <= n - k
        invariant
            n == s@.len(),
            k == needle@.len(),
            k <= n,
            i <= n - k + 1,
            forall|j: int| 0 <= j < i ==> !stands_at(s@, needle@, j),
        decreases n - k + 1 - i,
    {
        let part: &str = s.substring_char(i, i + k);
        if same_text(part, needle) {
            assert(stands_at(s@, needle@, i as int));
            return true;
        }
        assert(!stands_at(s@, needle@, i as int));
        if i == n - k {
            assert forall|j: int| !stands_at(s@, needle@, j) by {}
            return false;
        }
        i = i + 1;
    }
    false
}

/// The first `k` characters of `s`, or all of them where there are fewer.
pub fn take_chars(s: &str, k: usize) -> (r: String)
    ensures
        r@ == (if s@.len() <= k { s@ } else { s@.take(k as int) }),
{
    let n: usize = s.unicode_len();
    if n <= k {
        s.to_string()
    } else {
        let head: &str = s.substring_char(0, k);
        assert(head@ =~= s@.take(k as int));
        head.to_string()
    }
}

/// `s` with every `from` replaced by `to`.
pub open spec fn replaced(s: Seq<char>, from: char, to: char) -> Seq<char> {
    s.map_values(|c: char| if c == from { to } else { c })
}

/// `s` with every `from` replaced by `to`.
pub fn replace_char(s: &str, from: char, to: char) -> (r: String)
    ensures
        r@ == replaced(s@, from, to),
{
    let v: Vec<char> = chars_of(s);
    let mut r: String = String::new();
    for i in 0..v.len()
        invariant
            v@ == s@,
            r@ == replaced(s@, from, to).take(i as int),
    {
        let c: char = v[i];
        if c == from {
            r.push(to);
        } else {
            r.push(c);
        }
        assert(r@ =~= replaced(s@, from, to).take(i as int + 1));
    }
    assert(replaced(s@, from, to).take(v@.len() as int) =~= replaced(s@, from, to));
    r
}

// ---------------------------------------------------------------------------
// Decimal numbers

/// The decimal digit that stands for `n`.
pub open spec fn digit(n: int) -> char {
    (48 + n) as char
}

/// Is `c` one of the ten decimal digits?
pub open spec fn is_digit(c: char) -> bool {
    48 <= c as u32 <= 57
}

/// `n` in decimal, without leading zeros.
pub open spec fn decimal_nat(n: nat) -> Seq<char>
    decreases n,
{
    if n < 10 {
        seq![digit(n as int)]
    } else {
        decimal_nat(n / 10).push(digit((n % 10) as int))
    }
}

/// `n` in decimal, with a `-` before it where it is negative.
pub open spec fn decimal(n: int) -> Seq<char> {
    if n < 0 {
        seq!['-'] + decimal_nat((-n) as nat)
    } else {
        decimal_nat(n as nat)
    }
}

/// Is `s` made of decimal digits alone?
pub open spec fn all_digits(s: Seq<char>) -> bool {
    forall|i: int| 0 <= i < s.len() ==> is_digit(#[trigger] s[i])
}

/// The number that a row of decimal digits stands for.
pub open spec fn digits_value(s: Seq<char>) -> nat
    decreases s.len(),
{
    if s.len() == 0 {
        0
    } else {
        10 * digits_value(s.drop_last()) + (s.last() as u32 - 48) as nat
    }
}

/// The integer between `min` and `max` that `s` denotes: decimal digits with at
/// most one sign before them, where `-` is a sign only if `min` is negative.
pub open spec fn parsed_int(s: Seq<char>, min: int, max: int) -> Option<int> {
    let negative = min < 0 && s.len() > 0 && s[0] == '-';
    let signed = negative || (s.len() > 0 && s[0] == '+');
    let digits = if signed { s.skip(1) } else { s };
    let value = if negative { -(digits_value(digits) as int) } else { digits_value(digits) as int };
    if digits.len() > 0 && all_digits(digits) && min <= value <= max {
        Some(value)
    } else {
        None
    }
}

/// Calls [`str::parse`] for `i32`, which takes decimal digits with at most one
/// leading `+` or `-` and refuses everything else and every value out of range.
#[verifier::external_body]
pub(crate) fn parse_i32(s: &str) -> (r: Option<i32>)
    ensures
        match r {
            Some(v) => parsed_int(s@, i32::MIN as int, i32::MAX as int) == Some(v as int),
            None => parsed_int(s@, i32::MIN as int, i32::MAX as int) is None,
        },
{
    s.parse::<i32>().ok()
}

/// Calls [`str::parse`] for `u16`, which takes decimal digits with at most one
/// leading `+` and refuses everything else and every value out of range.
#[verifier::external_body]
pub(crate) fn parse_u16(s: &str) -> (r: Option<u16>)
    ensures
        match r {
            Some(v) => parsed_int(s@, 0, u16::MAX as int) == Some(v as int),
            None => parsed_int(s@, 0, u16::MAX as int) is None,
        },
{
    s.parse::<u16>().ok()
}

/// Calls [`ToString::to_string`] on an integer, which writes it in decimal.
#[verifier::external_body]
pub(crate) fn int_text(n: i128) -> (r: String)
    ensures
        r@ == decimal(n as int),
{
    n.to_string()
}

/// What [`decimal_nat`] writes is digits alone, at least one of them, the
/// first no zero unless it is the only one, and they denote the number.
pub proof fn lemma_decimal_nat(n: nat)
    ensures
        decimal_nat(n).len() > 0,
        all_digits(decimal_nat(n)),
        digits_value(decimal_nat(n)) == n,
        n > 0 ==> decimal_nat(n)[0] != '0',
        n == 0 ==> decimal_nat(n) == seq!['0'],
    decreases n,
{
    reveal_with_fuel(digits_value, 2);
    let s = decimal_nat(n);
    if n < 10 {
        assert(s.drop_last() =~= Seq::<char>::empty());
    } else {
        lemma_decimal_nat(n / 10);
        assert(s.drop_last() =~= decimal_nat(n / 10));
        assert(s[0] == decimal_nat(n / 10)[0]);
    }
}

/// An integer survives being written in decimal and read back.
pub proof fn lemma_parse_decimal(n: int, min: int, max: int)
    requires
        min <= n <= max,
    ensures
        parsed_int(decimal(n), min, max) == Some(n),
{
    if n < 0 {
        lemma_decimal_nat((-n) as nat);
        assert(decimal(n).skip(1) =~= decimal_nat((-n) as nat));
    } else {
        lemma_decimal_nat(n as nat);
        assert(is_digit(decimal(n)[0]));
    }
}

// ---------------------------------------------------------------------------
// Tenths

/// `n` tenths with one decimal.
pub open spec fn tenths(n: int) -> Seq<char> {
    let m = if n < 0 {
        -n
    } else {
        n
    };
    (if n < 0 {
        seq!['-']
    } else {
        Seq::empty()
    }) + decimal_nat((m / 10) as nat) + seq!['.'] + decimal_nat((m % 10) as nat)
}

/// `n` tenths with one decimal.
pub fn tenths_text(n: i64) -> (r: String)
    ensures
        r@ == tenths(n as int),
{
    let wide: i128 = n as i128;
    let m: i128 = if wide < 0 {
        -wide
    } else {
        wide
    };
    let whole: String = int_text(m / 10);
    let part: String = int_text(m % 10);
    proof {
        reveal_strlit("-");
        reveal_strlit(".");
        reveal_strlit("");
        assert("-"@ =~= seq!['-']);
        assert("."@ =~= seq!['.']);
        assert(""@ =~= Seq::<char>::empty());
    }
    let sign: &str = if wide < 0 {
        "-"
    } else {
        ""
    };
    join4(sign, whole.as_str(), ".", part.as_str())
}

/// A number below 100 as two digits.
pub open spec fn two_digits(n: int) -> Seq<char> {
    seq![digit(n / 10), digit(n % 10)]
}

/// `n` hundredths with two decimals.
pub open spec fn hundredths(n: nat) -> Seq<char> {
    decimal_nat(n / 100) + seq!['.'] + two_digits((n % 100) as int)
}

/// `n` hundredths with two decimals.
pub fn hundredths_text(n: u64) -> (r: String)
    ensures
        r@ == hundredths(n as nat),
{
    let whole: String = int_text((n / 100) as i128);
    let first: String = int_text((n % 100 / 10) as i128);
    let second: String = int_text((n % 10) as i128);
    proof {
        reveal_strlit(".");
        assert("."@ =~= seq!['.']);
        assert(n % 100 % 10 == n % 10);
        assert(decimal((n % 100 / 10) as int) =~= seq![digit((n % 100 / 10) as int)]);
        assert(decimal((n % 10) as int) =~= seq![digit((n % 10) as int)]);
        assert(two_digits((n % 100) as int) =~= decimal((n % 100 / 10) as int) + decimal(
            (n % 10) as int,
        ));
    }
    let r: String = join4(whole.as_str(), ".", first.as_str(), second.as_str());
    assert(r@ =~= hundredths(n as nat));
    r
}

// ---------------------------------------------------------------------------
// ASCII case

/// `c` in lower case if it is an ASCII letter.
pub open spec fn ascii_lower(c: char) -> char {
    if 65 <= c as u32 <= 90 {
        ((c as u32) + 32) as char
    } else {
        c
    }
}

/// `s` with its ASCII letters in lower case.
pub open spec fn ascii_lowered(s: Seq<char>) -> Seq<char> {
    s.map_values(|c: char| ascii_lower(c))
}

fn lower_char(c: char) -> (r: char)
    ensures
        r == ascii_lower(c),
{
    let n: u32 = c as u32;
    if n >= 65 && n <= 90 {
        ((n as u8) + 32) as char
    } else {
        c
    }
}

/// `s` with its ASCII letters in lower case.
pub fn lower_ascii(s: &str) -> (r: String)
    ensures
        r@ == ascii_lowered(s@),
{
    let v: Vec<char> = chars_of(s);
    let mut r: String = String::new();
    for i in 0..v.len()
        invariant
            v@ == s@,
            r@ == ascii_lowered(s@).take(i as int),
    {
        r.push(lower_char(v[i]));
        assert(r@ =~= ascii_lowered(s@).take(i as int + 1));
    }
    assert(ascii_lowered(s@).take(v@.len() as int) =~= ascii_lowered(s@));
    r
}

// ---------------------------------------------------------------------------
// Lists of texts

/// The contents of a list of texts.
pub open spec fn texts(v: Seq<String>) -> Seq<Seq<char>> {
    v.map_values(|s: String| s@)
}

/// The different texts of a list, in the order in which they are first seen.
pub open spec fn first_seen(s: Seq<Seq<char>>) -> Seq<Seq<char>>
    decreases s.len(),
{
    if s.len() == 0 {
        Seq::empty()
    } else {
        let before = first_seen(s.drop_last());
        if before.contains(s.last()) {
            before
        } else {
            before.push(s.last())
        }
    }
}

/// Is the text in the list?
pub fn list_has(list: &Vec<String>, s: &str) -> (r: bool)
    ensures
        r == texts(list@).contains(s@),
{
    for i in 0..list.len()
        invariant
            forall|j: int| 0 <= j < i ==> texts(list@)[j] != s@,
    {
        if same_text(list[i].as_str(), s) {
            assert(texts(list@)[i as int] == s@);
            return true;
        }
    }
    false
}

/// Adds a text to a list unless it is there already.
pub fn push_new(list: &mut Vec<String>, s: &str)
    ensures
        texts(final(list)@) == (if texts(old(list)@).contains(s@) {
            texts(old(list)@)
        } else {
            texts(old(list)@).push(s@)
        }),
{
    if !list_has(list, s) {
        let ghost before = list@;
        list.push(s.to_string());
        assert(texts(list@) =~= texts(before).push(s@));
    }
}

/// The texts first seen are those of the list, each of them once.
pub proof fn law_first_seen(s: Seq<Seq<char>>)
    ensures
        forall|t: Seq<char>|
            #![trigger first_seen(s).contains(t)]
            #![trigger s.contains(t)]
            first_seen(s).contains(t) <==> s.contains(t),
        first_seen(s).no_duplicates(),
    decreases s.len(),
{
    if s.len() > 0 {
        let w = s.drop_last();
        law_first_seen(w);
        assert forall|t: Seq<char>|
            #![trigger first_seen(s).contains(t)]
            #![trigger s.contains(t)]
            first_seen(s).contains(t) <==> s.contains(t) by {
            if s.contains(t) {
                let i = choose|i: int| 0 <= i < s.len() && s[i] == t;
                if i < w.len() {
                    assert(w[i] == t);
                    assert(w.contains(t));
                    let k = choose|k: int| 0 <= k < first_seen(w).len() && first_seen(w)[k] == t;
                    assert(first_seen(s)[k] == t);
                } else if first_seen(w).contains(s.last()) {
                    assert(first_seen(s).contains(t));
                } else {
                    assert(first_seen(s)[first_seen(w).len() as int] == t);
                }
            }
            if first_seen(s).contains(t) {
                let k = choose|k: int| 0 <= k < first_seen(s).len() && first_seen(s)[k] == t;
                if k < first_seen(w).len() {
                    assert(first_seen(w)[k] == t);
                    assert(first_seen(w).contains(t));
                    assert(w.contains(t));
                    let i = choose|i: int| 0 <= i < w.len() && w[i] == t;
                    assert(s[i] == t);
                } else {
                    assert(s[s.len() - 1] == t);
                }
            }
        }
    }
}

// ---------------------------------------------------------------------------
// Laws of the functions

/// A text taken apart into its characters and put together again is the same.
pub proof fn law_characters_make_the_text(s: &str, v: Vec<char>, r: String)
    requires
        call_ensures(chars_of, (s,), v),
        call_ensures(text_of, (&v,), r),
    ensures
        v@.len() == s@.len(),
        r@ == s@,
{
}

/// Joined texts stand behind each other in their order.
pub proof fn law_joined_in_order(
    a: &str,
    b: &str,
    c: &str,
    d: &str,
    e: &str,
    two: String,
    three: String,
    four: String,
    five: String,
    same: bool,
)
    requires
        call_ensures(join2, (a, b), two),
        call_ensures(join3, (a, b, c), three),
        call_ensures(join4, (a, b, c, d), four),
        call_ensures(join5, (a, b, c, d, e), five),
        call_ensures(same_text, (a, b), same),
    ensures
        two@ == a@ + b@,
        three@ == two@ + c@,
        four@ == three@ + d@,
        five@ == four@ + e@,
        same <==> a@ == b@,
{
}

/// What is left without a prefix stands behind it, what is left without a
/// suffix before it, and nothing is left where there is none.
pub proof fn law_prefix_and_suffix_come_off(
    s: &'static str,
    part: &str,
    behind: Option<&'static str>,
    before: Option<&'static str>,
    rest: Seq<char>,
)
    requires
        call_ensures(strip_prefix, (s, part), behind),
        call_ensures(strip_suffix, (s, part), before),
    ensures
        behind matches Some(r) ==> s@ == part@ + r@,
        before matches Some(r) ==> s@ == r@ + part@,
        s@ == part@ + rest ==> (behind matches Some(r) && r@ == rest),
        s@ == rest + part@ ==> (before matches Some(r) && r@ == rest),
{
    let k = part@.len() as int;
    if let Some(r) = behind {
        assert(s@ =~= s@.take(k) + s@.skip(k));
    }
    if let Some(r) = before {
        assert(s@ =~= s@.take(s@.len() - k) + s@.skip(s@.len() - k));
    }
    if s@ == part@ + rest {
        assert(s@.take(k) =~= part@);
        assert(s@.skip(k) =~= rest);
    }
    if s@ == rest + part@ {
        assert(s@.skip(s@.len() - k) =~= part@);
        assert(s@.take(s@.len() - k) =~= rest);
    }
}

proof fn lemma_first_index_holds(s: Seq<char>, c: char)
    ensures
        0 <= first_index(s, c) <= s.len(),
        first_index(s, c) < s.len() ==> s[first_index(s, c)] == c,
        forall|k: int| 0 <= k < first_index(s, c) ==> s[k] != c,
    decreases s.len(),
{
    if s.len() > 0 && s[0] != c {
        lemma_first_index_holds(s.skip(1), c);
        assert forall|k: int| 0 <= k < first_index(s, c) implies s[k] != c by {
            if k > 0 {
                assert(s[k] == s.skip(1)[k - 1]);
            }
        }
    }
}

proof fn lemma_last_index_holds(s: Seq<char>, c: char)
    ensures
        -1 <= last_index(s, c) < s.len(),
        last_index(s, c) >= 0 ==> s[last_index(s, c)] == c,
        forall|k: int| last_index(s, c) < k < s.len() ==> s[k] != c,
    decreases s.len(),
{
    if s.len() > 0 && s.last() != c {
        lemma_last_index_holds(s.drop_last(), c);
        assert forall|k: int| last_index(s, c) < k < s.len() implies s[k] != c by {
            if k < s.len() - 1 {
                assert(s[k] == s.drop_last()[k]);
            }
        }
    }
}

/// A text splits at the first or at the last place of a character: the parts
/// with the character between them make the text, and the character is not in
/// the part before the first place nor in the part behind the last. It does not
/// split only where the character is not in it.
pub proof fn law_text_splits_at_a_character(
    s: &'static str,
    c: char,
    first: Option<(&'static str, &'static str)>,
    last: Option<(&'static str, &'static str)>,
)
    requires
        call_ensures(split_once, (s, c), first),
        call_ensures(rsplit_once, (s, c), last),
    ensures
        first matches Some(p) ==> s@ == p.0@ + seq![c] + p.1@ && !p.0@.contains(c),
        last matches Some(p) ==> s@ == p.0@ + seq![c] + p.1@ && !p.1@.contains(c),
        first is None <==> !s@.contains(c),
        last is None <==> !s@.contains(c),
{
    lemma_first_index_holds(s@, c);
    lemma_last_index_holds(s@, c);
    let i = first_index(s@, c);
    let j = last_index(s@, c);
    if let Some(p) = first {
        assert(s@ =~= s@.take(i) + seq![c] + s@.skip(i + 1));
        assert(s@[i] == c);
        if p.0@.contains(c) {
            let k = choose|k: int| 0 <= k < p.0@.len() && p.0@[k] == c;
            assert(s@[k] == c);
        }
    } else if s@.contains(c) {
        let k = choose|k: int| 0 <= k < s@.len() && s@[k] == c;
        assert(s@[k] != c);
    }
    if let Some(p) = last {
        assert(s@ =~= s@.take(j) + seq![c] + s@.skip(j + 1));
        assert(s@[j] == c);
        if p.1@.contains(c) {
            let k = choose|k: int| 0 <= k < p.1@.len() && p.1@[k] == c;
            assert(s@[j + 1 + k] == c);
        }
    } else if s@.contains(c) {
        let k = choose|k: int| 0 <= k < s@.len() && s@[k] == c;
        assert(s@[k] != c);
    }
}

/// A text is in another where the other is made of something, the text, and
/// something.
pub proof fn law_contained_text_stands_between(
    s: &str,
    needle: &str,
    r: bool,
    before: Seq<char>,
    behind: Seq<char>,
)
    requires
        call_ensures(contains, (s, needle), r),
    ensures
        s@ == before + needle@ + behind ==> r,
        r ==> exists|i: int|
            #![trigger s@.take(i)]
            0 <= i <= s@.len() - needle@.len() && s@ == s@.take(i) + needle@ + s@.skip(
                i + needle@.len(),
            ),
{
    if s@ == before + needle@ + behind {
        let i = before.len() as int;
        assert(s@.subrange(i, i + needle@.len()) =~= needle@);
        assert(stands_at(s@, needle@, i));
    }
    if r {
        let i = choose|i: int| stands_at(s@, needle@, i);
        assert(s@ =~= s@.take(i) + s@.subrange(i, i + needle@.len()) + s@.skip(i + needle@.len()));
    }
}

/// Cutting keeps the first characters, replacing changes one character into
/// another everywhere, and lowering changes capitals alone.
pub proof fn law_characters_keep_their_place(
    s: &str,
    k: usize,
    from: char,
    to: char,
    cut: String,
    swapped: String,
    low: String,
    i: int,
)
    requires
        call_ensures(take_chars, (s, k), cut),
        call_ensures(replace_char, (s, from, to), swapped),
        call_ensures(lower_ascii, (s,), low),
        0 <= i < s@.len(),
    ensures
        cut@.len() == (if s@.len() <= k {
            s@.len()
        } else {
            k as nat
        }),
        i < k ==> cut@[i] == s@[i],
        swapped@.len() == s@.len(),
        s@[i] == from ==> swapped@[i] == to,
        s@[i] != from ==> swapped@[i] == s@[i],
        low@.len() == s@.len(),
        65 <= s@[i] as u32 <= 90 ==> low@[i] as int == s@[i] as u32 + 32,
        !(65 <= s@[i] as u32 <= 90) ==> low@[i] == s@[i],
{
    assert(low@[i] == ascii_lower(s@[i]));
}

/// Tenths and hundredths read as the whole part, a point, and one digit or two.
pub proof fn law_decimals_stand_behind_the_point(n: i64, m: u64, a: String, b: String)
    requires
        call_ensures(tenths_text, (n,), a),
        call_ensures(hundredths_text, (m,), b),
    ensures
        ({
            let size = if n < 0 {
                -n as int
            } else {
                n as int
            };
            &&& a@.len() >= 3
            &&& a@[a@.len() - 2] == '.'
            &&& a@.last() as int == 48 + size % 10
            &&& n >= 0 ==> a@.take(a@.len() - 2) == decimal(size / 10)
            &&& n < 0 ==> a@.take(a@.len() - 2) == seq!['-'] + decimal(size / 10)
        }),
        b@.len() >= 4,
        b@[b@.len() - 3] == '.',
        b@[b@.len() - 2] as int == 48 + m % 100 / 10,
        b@[b@.len() - 1] as int == 48 + m % 10,
        b@.take(b@.len() - 3) == decimal((m / 100) as int),
{
    let size = if n < 0 {
        -n as int
    } else {
        n as int
    };
    lemma_decimal_nat((size / 10) as nat);
    lemma_decimal_nat((m / 100) as nat);
    assert(decimal_nat((size % 10) as nat) =~= seq![digit(size % 10)]);
    if n >= 0 {
        assert(a@.take(a@.len() - 2) =~= decimal(size / 10));
    } else {
        assert(a@.take(a@.len() - 2) =~= seq!['-'] + decimal(size / 10));
    }
    assert(b@.take(b@.len() - 3) =~= decimal((m / 100) as int));
    assert(m % 100 % 10 == m % 10);
}

/// A list has a text where one of its texts is it. A new text is added behind
/// the others, one that is there already is not.
pub proof fn law_new_text_is_added_once(
    list: &mut Vec<String>,
    s: &str,
    before: bool,
    after: bool,
)
    requires
        call_ensures(list_has, (&*old(list), s), before),
        call_ensures(push_new, (list, s), ()),
        call_ensures(list_has, (&*final(list), s), after),
    ensures
        before <==> exists|i: int| 0 <= i < old(list).len() && (#[trigger] old(list)@[i])@ == s@,
        after,
        before ==> final(list).len() == old(list).len(),
        !before ==> final(list).len() == old(list).len() + 1 && final(list)@.last()@ == s@,
        forall|i: int|
            0 <= i < old(list).len() ==> (#[trigger] final(list)@[i])@ == old(list)@[i]@,
{
    let a = texts(old(list)@);
    let b = texts(final(list)@);
    assert(a.len() == old(list).len() && b.len() == final(list).len());
    if before {
        let i = choose|i: int| 0 <= i < a.len() && a[i] == s@;
        assert(old(list)@[i]@ == s@);
    }
    if exists|i: int| 0 <= i < old(list).len() && (#[trigger] old(list)@[i])@ == s@ {
        let i = choose|i: int| 0 <= i < old(list).len() && (#[trigger] old(list)@[i])@ == s@;
        assert(a[i] == s@);
    }
    if !before {
        assert(b[a.len() as int] == s@);
        assert(b[a.len() as int] == final(list)@[a.len() as int]@);
    }
    assert forall|i: int| 0 <= i < old(list).len() implies (#[trigger] final(list)@[i])@
        == old(list)@[i]@ by {
        assert(b[i] == final(list)@[i]@);
        assert(a[i] == old(list)@[i]@);
    }
}

} // verus!
