//! Text: decimal numerals, splitting and searching, stated over sequences of
//! characters.
use vstd::prelude::*;
use vstd::string::*;
use vstd::utf8::*;

verus! {

/// The characters of a text, in order.
pub fn chars_of(s: &str) -> (r: Vec<char>)
    ensures
        r@ == s@,
{
    let mut out: Vec<char> = Vec::new();
    for c in iter: s.chars()
        invariant
            iter.seq() == s@,
            out@ == s@.take(iter.index() as int),
    {
        out.push(c);
        assert(s@.take(iter.index() as int + 1) =~= s@.take(iter.index() as int).push(c));
    }
    assert(s@.take(s@.len() as int) =~= s@);
    out
}

/// Texts with equal UTF-8 bytes are equal.
pub proof fn lemma_utf8_injective(a: Seq<char>, b: Seq<char>)
    requires
        encode_utf8(a) == encode_utf8(b),
    ensures
        a == b,
{
    encode_utf8_decode_utf8(a);
    encode_utf8_decode_utf8(b);
}

/// Whether two byte strings are equal.
pub fn bytes_eq(a: &[u8], b: &[u8]) -> (r: bool)
    ensures
        r == (a@ == b@),
{
    if a.len() != b.len() {
        return false;
    }
    let mut i: usize = 0;
    while i < a.len()
        invariant
            i <= a.len(),
            a.len() == b.len(),
            forall|j: int| 0 <= j < i ==> a@[j] == b@[j],
        decreases a.len() - i,
    {
        if a[i] != b[i] {
            return false;
        }
        i = i + 1;
    }
    assert(a@ =~= b@);
    true
}

/// Whether two texts are equal.
pub fn str_eq(a: &str, b: &str) -> (r: bool)
    ensures
        r == (a@ == b@),
{
    let r = bytes_eq(a.as_bytes(), b.as_bytes());
    proof {
        if r {
            lemma_utf8_injective(a@, b@);
        }
    }
    r
}

// ---- decimal numerals -------------------------------------------------------

/// The decimal digit of a number below ten.
pub open spec fn digit(d: nat) -> char {
    "0123456789"@[d as int]
}

/// The decimal numeral of a natural number, without leading zeros.
pub open spec fn decimal(n: nat) -> Seq<char>
    decreases n,
{
    if n < 10 {
        seq![digit(n)]
    } else {
        decimal(n / 10).push(digit(n % 10))
    }
}

/// The decimal numeral of an integer: a minus sign in front of a negative one.
pub open spec fn signed_decimal(n: int) -> Seq<char> {
    if n < 0 {
        seq!['-'] + decimal((-n) as nat)
    } else {
        decimal(n as nat)
    }
}

pub open spec fn is_digit(c: char) -> bool {
    '0' <= c <= '9'
}

pub open spec fn digit_value(c: char) -> int {
    c as int - '0' as int
}

pub open spec fn all_digits(s: Seq<char>) -> bool {
    forall|i: int| 0 <= i < s.len() ==> is_digit(#[trigger] s[i])
}

/// The number that a sequence of decimal digits denotes.
pub open spec fn numeral_value(s: Seq<char>) -> int
    decreases s.len(),
{
    if s.len() == 0 {
        0
    } else {
        numeral_value(s.drop_last()) * 10 + digit_value(s.last())
    }
}

/// The integer that a text denotes: at most one sign in front of one or more
/// decimal digits and nothing else. A minus sign counts only where `negatives`.
pub open spec fn parsed_integer(s: Seq<char>, negatives: bool) -> Option<int> {
    let minus = negatives && s.len() > 0 && s[0] == '-';
    let digits = if minus || (s.len() > 0 && s[0] == '+') {
        s.drop_first()
    } else {
        s
    };
    if digits.len() == 0 || !all_digits(digits) {
        None
    } else if minus {
        Some(-numeral_value(digits))
    } else {
        Some(numeral_value(digits))
    }
}

/// The integer that a text denotes where it lies between `low` and `high`.
pub open spec fn parsed_within(s: Seq<char>, low: int, high: int) -> Option<int> {
    match parsed_integer(s, low < 0) {
        Some(n) => if low <= n <= high {
            Some(n)
        } else {
            None
        },
        None => None,
    }
}

proof fn lemma_digit(d: nat)
    requires
        d < 10,
    ensures
        is_digit(digit(d)),
        digit_value(digit(d)) == d,
        "0123456789"@.len() == 10,
{
    reveal_strlit("0123456789");
    if d == 0 {
    } else if d == 1 {
    } else if d == 2 {
    } else if d == 3 {
    } else if d == 4 {
    } else if d == 5 {
    } else if d == 6 {
    } else if d == 7 {
    } else if d == 8 {
    }
}

/// A decimal numeral consists of digits and denotes the number it was made of.
pub proof fn lemma_decimal(n: nat)
    ensures
        decimal(n).len() > 0,
        all_digits(decimal(n)),
        numeral_value(decimal(n)) == n,
    decreases n,
{
    if n < 10 {
        lemma_digit(n);
        assert(seq![digit(n)].drop_last() =~= Seq::<char>::empty());
        assert(numeral_value(Seq::<char>::empty()) == 0);
    } else {
        lemma_decimal(n / 10);
        lemma_digit(n % 10);
        assert(decimal(n).drop_last() =~= decimal(n / 10));
    }
}

/// Reading the numeral of an integer gives the integer back.
pub proof fn law_numeral_round_trip(n: int, low: int, high: int)
    requires
        low <= n <= high,
    ensures
        parsed_within(signed_decimal(n), low, high) == Some(n),
{
    if n < 0 {
        lemma_decimal((-n) as nat);
        let s = signed_decimal(n);
        assert(s.drop_first() =~= decimal((-n) as nat));
        assert(s[0] == '-');
    } else {
        lemma_decimal(n as nat);
        let s = signed_decimal(n);
        assert(is_digit(s[0]));
    }
}

/// Two integers with the same numeral are the same.
pub proof fn law_numeral_injective(a: int, b: int)
    requires
        signed_decimal(a) == signed_decimal(b),
    ensures
        a == b,
{
    let low = if a < b { a } else { b };
    let high = if a < b { b } else { a };
    let l = if low < 0 { low } else { 0 };
    law_numeral_round_trip(a, l, high);
    law_numeral_round_trip(b, l, high);
}

/// The decimal numeral of `n`.
pub fn u128_text(n: u128) -> (r: String)
    ensures
        r@ == decimal(n as nat),
    decreases n,
{
    let d: usize = (n % 10) as usize;
    proof {
        lemma_digit(d as nat);
    }
    let last = "0123456789".substring_char(d, d + 1);
    assert(last@ =~= seq![digit(d as nat)]);
    if n < 10 {
        return last.to_string();
    }
    let mut out = u128_text(n / 10);
    out.append(last);
    assert(out@ =~= decimal(n as nat));
    out
}

/// The decimal numeral of `n`.
pub fn u64_text(n: u64) -> (r: String)
    ensures
        r@ == decimal(n as nat),
{
    u128_text(n as u128)
}

/// The decimal numeral of `n`, signed where negative.
pub fn i64_text(n: i64) -> (r: String)
    ensures
        r@ == signed_decimal(n as int),
{
    if n >= 0 {
        return u64_text(n as u64);
    }
    let magnitude: u64 = (-(n as i128)) as u64;
    let mut out = "-".to_string();
    proof {
        reveal_strlit("-");
        assert("-"@ =~= seq!['-']);
    }
    out.append(u64_text(magnitude).as_str());
    out
}

/// The integer that a text denotes, if it denotes one between `low` and `high`.
pub fn parse_within(s: &str, low: i64, high: i64) -> (r: Option<i64>)
    requires
        low <= 0,
        0 <= high,
    ensures
        r == (match parsed_within(s@, low as int, high as int) {
            Some(n) => Some(n as i64),
            None => None,
        }),
{
    let chars = chars_of(s);
    let minus = low < 0 && chars.len() > 0 && chars[0] == '-';
    let start: usize = if minus || (chars.len() > 0 && chars[0] == '+') {
        1
    } else {
        0
    };
    let ghost digits = s@.skip(start as int);
    proof {
        if start == 1 {
            assert(digits =~= s@.drop_first());
        } else {
            assert(digits =~= s@);
        }
    }
    if start == chars.len() {
        return None;
    }
    // Twice the range on either side, so that the value kept never wraps.
    let limit: i128 = 0x1_0000_0000_0000_0000;
    let mut value: i128 = 0;
    let mut i: usize = start;
    while i < chars.len()
        invariant
            chars@ == s@,
            start <= i <= chars.len(),
            start <= 1,
            digits == s@.skip(start as int),
            minus == (low < 0 && s@.len() > 0 && s@[0] == '-'),
            digits == (if minus || (s@.len() > 0 && s@[0] == '+') {
                s@.drop_first()
            } else {
                s@
            }),
            limit == 0x1_0000_0000_0000_0000,
            0 <= value <= limit,
            all_digits(digits.take(i - start)),
            value < limit ==> value == numeral_value(digits.take(i - start)),
            value == limit ==> numeral_value(digits.take(i - start)) >= limit,
        decreases chars.len() - i,
    {
        let c = chars[i];
        let ghost seen = digits.take(i - start);
        let ghost next = digits.take(i - start + 1);
        assert(c == digits[i - start]);
        if c < '0' || '9' < c {
            assert(!is_digit(digits[i - start]));
            assert(!all_digits(digits));
            return None;
        }
        proof {
            assert(next.drop_last() =~= seen);
            assert(next =~= seen.push(c));
            assert(next.last() == c);
        }
        let d: i128 = (c as u32 - '0' as u32) as i128;
        if value * 10 + d < limit {
            value = value * 10 + d;
        } else {
            value = limit;
        }
        i = i + 1;
        assert(digits.take(i - start) == next);
    }
    assert(digits.take(digits.len() as int) =~= digits);
    let signed: i128 = if minus {
        -value
    } else {
        value
    };
    if (low as i128) <= signed && signed <= (high as i128) {
        Some(signed as i64)
    } else {
        None
    }
}

// ---- splitting and searching ------------------------------------------------

/// The pieces of a text between the occurrences of a separator: one piece more
/// than there are separators, none of which holds one.
pub open spec fn split(s: Seq<char>, sep: char) -> Seq<Seq<char>>
    decreases s.len(),
{
    if s.len() == 0 {
        seq![Seq::<char>::empty()]
    } else {
        let before = split(s.drop_last(), sep);
        if s.last() == sep {
            before.push(Seq::<char>::empty())
        } else {
            before.drop_last().push(before.last().push(s.last()))
        }
    }
}

/// Splitting yields at least one piece.
pub proof fn lemma_split_nonempty(s: Seq<char>, sep: char)
    ensures
        split(s, sep).len() > 0,
    decreases s.len(),
{
    if s.len() > 0 {
        lemma_split_nonempty(s.drop_last(), sep);
    }
}

/// A text without the separator is its own only piece.
pub proof fn lemma_split_whole(s: Seq<char>, sep: char)
    requires
        !s.contains(sep),
    ensures
        split(s, sep) == seq![s],
    decreases s.len(),
{
    if s.len() == 0 {
        assert(s =~= Seq::<char>::empty());
    } else {
        let front = s.drop_last();
        assert(!front.contains(sep)) by {
            if front.contains(sep) {
                let i = choose|i: int| 0 <= i < front.len() && front[i] == sep;
                assert(s[i] == sep);
            }
        }
        lemma_split_whole(front, sep);
        assert(s.last() != sep);
        assert(front.push(s.last()) =~= s);
        assert(split(s, sep) =~= seq![s]);
    }
}

/// The pieces of two texts with a separator between them are those of the one and then
/// those of the other.
pub proof fn lemma_split_both(front: Seq<char>, back: Seq<char>, sep: char)
    ensures
        split(front + seq![sep] + back, sep) == split(front, sep) + split(back, sep),
    decreases back.len(),
{
    let s = front + seq![sep] + back;
    let pieces = split(front, sep);
    if back.len() == 0 {
        assert(s.drop_last() =~= front);
        assert(s.last() == sep);
        assert(pieces + split(back, sep) =~= pieces.push(Seq::<char>::empty()));
    } else {
        let shorter = back.drop_last();
        let before = split(shorter, sep);
        lemma_split_both(front, shorter, sep);
        lemma_split_nonempty(shorter, sep);
        assert(s.drop_last() =~= front + seq![sep] + shorter);
        assert(s.last() == back.last());
        assert((pieces + before).drop_last() =~= pieces + before.drop_last());
        assert((pieces + before).last() == before.last());
        assert(split(s, sep) =~= pieces + split(back, sep));
    }
}

/// Pieces put together, with a separator between them.
pub open spec fn joined(pieces: Seq<Seq<char>>, sep: Seq<char>) -> Seq<char>
    decreases pieces.len(),
{
    if pieces.len() == 0 {
        Seq::empty()
    } else if pieces.len() == 1 {
        pieces[0]
    } else {
        joined(pieces.drop_last(), sep) + sep + pieces.last()
    }
}

/// The pieces of a text put together are the text.
pub proof fn lemma_split_joined(s: Seq<char>, sep: char)
    ensures
        joined(split(s, sep), seq![sep]) == s,
    decreases s.len(),
{
    if s.len() == 0 {
        assert(s =~= Seq::<char>::empty());
    } else {
        let front = s.drop_last();
        let before = split(front, sep);
        lemma_split_joined(front, sep);
        lemma_split_nonempty(front, sep);
        assert(s =~= front.push(s.last()));
        if s.last() == sep {
            assert(before.push(Seq::<char>::empty()).drop_last() =~= before);
            assert(front + seq![sep] + Seq::<char>::empty() =~= s);
        } else {
            let last = before.last().push(s.last());
            let pieces = before.drop_last().push(last);
            assert(split(s, sep) == pieces);
            assert(pieces.drop_last() =~= before.drop_last());
            assert(pieces.last() == last);
            if before.len() > 1 {
                let rest = joined(before.drop_last(), seq![sep]) + seq![sep];
                assert(rest + last =~= (rest + before.last()).push(s.last()));
            }
        }
    }
}

/// The pieces from one place up to another put together, with a separator between
/// them.
pub fn join_fields(pieces: &Vec<String>, from: usize, to: usize, sep: &str) -> (r: String)
    requires
        from <= to <= pieces.len(),
    ensures
        r@ == joined(pieces.deep_view().subrange(from as int, to as int), sep@),
{
    let ghost all = pieces.deep_view();
    let mut out = String::new();
    let mut i: usize = from;
    assert(out@ =~= joined(all.subrange(from as int, from as int), sep@));
    while i < to
        invariant
            from <= i <= to <= pieces.len(),
            all == pieces.deep_view(),
            out@ == joined(all.subrange(from as int, i as int), sep@),
        decreases to - i,
    {
        let ghost next = all.subrange(from as int, i + 1);
        assert(next.drop_last() =~= all.subrange(from as int, i as int));
        assert(next.last() == pieces@[i as int]@);
        if i > from {
            out.append(sep);
        }
        out.append(pieces[i].as_str());
        assert(i == from ==> out@ =~= pieces@[i as int]@);
        i = i + 1;
    }
    out
}

/// The pieces of a text between the occurrences of a separator.
pub fn split_fields(s: &str, sep: char) -> (r: Vec<String>)
    ensures
        r.deep_view() == split(s@, sep),
{
    let chars = chars_of(s);
    let mut out: Vec<String> = Vec::new();
    let mut start: usize = 0;
    let mut i: usize = 0;
    assert(s@.take(0) =~= Seq::<char>::empty());
    assert(s@.subrange(0, 0) =~= Seq::<char>::empty());
    assert(out.deep_view().push(s@.subrange(0, 0)) =~= split(s@.take(0), sep));
    while i < chars.len()
        invariant
            chars@ == s@,
            start <= i <= chars.len(),
            out.deep_view().push(s@.subrange(start as int, i as int)) == split(
                s@.take(i as int),
                sep,
            ),
        decreases chars.len() - i,
    {
        let ghost seen = s@.take(i as int);
        let ghost next = s@.take(i + 1);
        let ghost before = out.deep_view();
        proof {
            assert(next.drop_last() =~= seen);
            assert(next.last() == s@[i as int]);
            assert(before.push(s@.subrange(start as int, i as int)).drop_last() =~= before);
        }
        if chars[i] == sep {
            let piece = s.substring_char(start, i);
            out.push(piece.to_string());
            assert(out.deep_view() =~= before.push(s@.subrange(start as int, i as int)));
            start = i + 1;
            assert(s@.subrange(start as int, i + 1) =~= Seq::<char>::empty());
        } else {
            assert(s@.subrange(start as int, i + 1) =~= s@.subrange(start as int, i as int).push(
                s@[i as int],
            ));
        }
        i = i + 1;
    }
    assert(s@.take(s@.len() as int) =~= s@);
    let ghost before = out.deep_view();
    let piece = s.substring_char(start, chars.len());
    out.push(piece.to_string());
    assert(out.deep_view() =~= before.push(s@.subrange(start as int, s@.len() as int)));
    out
}

/// The place of the last occurrence of a character, if there is one.
pub open spec fn last_index(s: Seq<char>, c: char) -> Option<int>
    decreases s.len(),
{
    if s.len() == 0 {
        None
    } else if s.last() == c {
        Some(s.len() - 1)
    } else {
        last_index(s.drop_last(), c)
    }
}

/// A character that what follows does not hold stands last where it was put.
pub proof fn lemma_last_index(front: Seq<char>, rest: Seq<char>, c: char)
    requires
        !rest.contains(c),
    ensures
        last_index(front + seq![c] + rest, c) == Some(front.len() as int),
    decreases rest.len(),
{
    let s = front + seq![c] + rest;
    if rest.len() == 0 {
        assert(s.last() == c);
    } else {
        let shorter = rest.drop_last();
        assert(!shorter.contains(c)) by {
            if shorter.contains(c) {
                let i = choose|i: int| 0 <= i < shorter.len() && shorter[i] == c;
                assert(rest[i] == c);
            }
        }
        lemma_last_index(front, shorter, c);
        assert(s.drop_last() =~= front + seq![c] + shorter);
        assert(s.last() == rest[rest.len() - 1]);
    }
}

/// Where a last occurrence is found, that character stands there.
pub proof fn lemma_last_index_found(s: Seq<char>, c: char)
    ensures
        last_index(s, c) matches Some(i) ==> 0 <= i < s.len() && s[i] == c,
    decreases s.len(),
{
    if s.len() > 0 && s.last() != c {
        lemma_last_index_found(s.drop_last(), c);
    }
}

/// The place of the last occurrence of a character, if there is one.
pub fn last_index_of(s: &str, c: char) -> (r: Option<usize>)
    ensures
        match r {
            Some(i) => last_index(s@, c) == Some(i as int) && i < s@.len() && s@[i as int] == c,
            None => last_index(s@, c) is None,
        },
{
    let chars = chars_of(s);
    let mut i: usize = chars.len();
    assert(s@.take(s@.len() as int) =~= s@);
    while i > 0
        invariant
            chars@ == s@,
            i <= chars.len(),
            last_index(s@, c) == last_index(s@.take(i as int), c),
        decreases i,
    {
        i = i - 1;
        assert(s@.take(i + 1).drop_last() =~= s@.take(i as int));
        assert(s@.take(i + 1).last() == s@[i as int]);
        if chars[i] == c {
            return Some(i);
        }
    }
    None
}

/// What follows `prefix` in a text that begins with it.
pub open spec fn stripped(s: Seq<char>, prefix: Seq<char>) -> Option<Seq<char>> {
    if prefix.len() <= s.len() && s.take(prefix.len() as int) == prefix {
        Some(s.skip(prefix.len() as int))
    } else {
        None
    }
}

/// What follows `prefix` in `s`, if `s` begins with it.
pub fn strip<'a>(s: &'a str, prefix: &str) -> (r: Option<&'a str>)
    ensures
        match r {
            Some(rest) => stripped(s@, prefix@) == Some(rest@),
            None => stripped(s@, prefix@) is None,
        },
{
    let n: usize = prefix.unicode_len();
    let total: usize = s.unicode_len();
    if total < n {
        return None;
    }
    let head = s.substring_char(0, n);
    assert(s@.subrange(0, n as int) =~= s@.take(n as int));
    if !str_eq(head, prefix) {
        return None;
    }
    let rest = s.substring_char(n, total);
    assert(rest@ =~= s@.skip(n as int));
    Some(rest)
}

/// Whether `needle` stands in `s` at place `i`.
pub open spec fn occurs_at(s: Seq<char>, needle: Seq<char>, i: int) -> bool {
    0 <= i <= s.len() - needle.len() && s.subrange(i, i + needle.len()) == needle
}

/// Whether `needle` stands somewhere in `s`.
pub open spec fn occurs(s: Seq<char>, needle: Seq<char>) -> bool {
    exists|i: int| occurs_at(s, needle, i)
}

/// Whether `needle` stands somewhere in `s`.
pub fn occurs_in(s: &str, needle: &str) -> (r: bool)
    ensures
        r == occurs(s@, needle@),
{
    let n: usize = needle.unicode_len();
    let total: usize = s.unicode_len();
    if total < n {
        return false;
    }
    let mut i: usize = 0;
    while i <= total - n
        invariant
            n == needle@.len(),
            total == s@.len(),
            n <= total,
            i <= total - n + 1,
            forall|j: int| 0 <= j < i ==> !occurs_at(s@, needle@, j),
        decreases total - n + 1 - i,
    {
        if str_eq(s.substring_char(i, i + n), needle) {
            assert(occurs_at(s@, needle@, i as int));
            return true;
        }
        if i == total - n {
            return false;
        }
        i = i + 1;
    }
    false
}

// ---- counting bytes ---------------------------------------------------------

/// How many bytes UTF-8 takes for a character.
pub open spec fn byte_width(c: char) -> nat {
    if (c as u32) < 0x80 {
        1
    } else if (c as u32) < 0x800 {
        2
    } else if (c as u32) < 0x1_0000 {
        3
    } else {
        4
    }
}

/// The first `n` bytes of a text, or all of a shorter one, as a text; nothing where
/// they would end inside a character.
pub open spec fn text_within(s: Seq<char>, n: nat) -> Option<Seq<char>>
    decreases s.len(),
{
    if s.len() == 0 || n == 0 {
        Some(Seq::empty())
    } else if byte_width(s[0]) > n {
        None
    } else {
        match text_within(s.drop_first(), (n - byte_width(s[0])) as nat) {
            Some(rest) => Some(seq![s[0]] + rest),
            None => None,
        }
    }
}

/// The first `n` bytes of a text, or all of a shorter one.
pub fn leading_bytes(s: &str, n: usize) -> (r: Option<&str>)
    ensures
        match r {
            Some(t) => text_within(s@, n as nat) == Some(t@),
            None => text_within(s@, n as nat) is None,
        },
{
    let chars = chars_of(s);
    let mut i: usize = 0;
    let mut left: usize = n;
    assert(s@.skip(0) =~= s@);
    assert(forall|t: Seq<char>| s@.take(0) + t =~= t);
    while i < chars.len() && left > 0
        invariant
            chars@ == s@,
            i <= chars.len(),
            text_within(s@, n as nat) == (match text_within(s@.skip(i as int), left as nat) {
                Some(rest) => Some(s@.take(i as int) + rest),
                None => None,
            }),
        decreases chars.len() - i,
    {
        let c: u32 = chars[i] as u32;
        let width: usize = if c < 0x80 {
            1
        } else if c < 0x800 {
            2
        } else if c < 0x1_0000 {
            3
        } else {
            4
        };
        let ghost rest = s@.skip(i as int);
        assert(rest[0] == s@[i as int]);
        assert(rest.drop_first() =~= s@.skip(i + 1));
        if width > left {
            return None;
        }
        left = left - width;
        i = i + 1;
        proof {
            if let Some(t) = text_within(s@.skip(i as int), left as nat) {
                assert(s@.take(i - 1) + (seq![s@[i - 1]] + t) =~= s@.take(i as int) + t);
            }
        }
    }
    let r = s.substring_char(0, i);
    assert(r@ =~= s@.take(i as int) + Seq::<char>::empty());
    Some(r)
}

} // verus!
