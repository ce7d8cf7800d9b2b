//! Texts and numerals.
use crate::digest::{constant_eq, hex_text, hmac_sha256_code, hmac_sign, sha256_digest, sha256_hex};
use crate::laws::containers::lemma_text_within;
use crate::laws::receipts::{hex_value, lemma_hex_value};
use crate::text::{all_digits, bytes_eq, chars_of, digit, i64_text, is_digit, join_fields};
use crate::text::{last_index, last_index_of, leading_bytes, lemma_split_both, lemma_split_whole};
use crate::text::{numeral_value, occurs_at, occurs_in, parse_within, split_fields, str_eq, strip};
use crate::text::{u128_text, u64_text};
use vstd::prelude::*;
use vstd::utf8::*;

verus! {

/// Two texts are equal where they have the same characters, and two byte strings where
/// they have the same bytes, however they are compared.
pub proof fn law_equality_found(
    s: &str,
    t: &str,
    same: bool,
    chars: Vec<char>,
    a: &[u8],
    b: &[u8],
    alike: bool,
    constant: bool,
)
    requires
        call_ensures(str_eq, (s, t), same),
        call_ensures(chars_of, (s,), chars),
        call_ensures(bytes_eq, (a, b), alike),
        call_ensures(constant_eq, (a, b), constant),
    ensures
        same <==> s@ =~= t@,
        chars@ =~= s@,
        alike <==> a@ =~= b@,
        constant <==> a@ =~= b@,
{
}

proof fn lemma_digit_value(d: nat)
    requires
        d < 10,
    ensures
        digit(d) as int == '0' as int + d,
{
    reveal_strlit("0123456789");
    let s = "0123456789"@;
    assert(s[0] == '0' && s[1] == '1' && s[2] == '2' && s[3] == '3' && s[4] == '4');
    assert(s[5] == '5' && s[6] == '6' && s[7] == '7' && s[8] == '8' && s[9] == '9');
    assert(d == 0 || d == 1 || d == 2 || d == 3 || d == 4 || d == 5 || d == 6 || d == 7 || d == 8
        || d == 9);
}

/// A numeral is positional: that of a number below ten is its digit, and that of a
/// larger one is the numeral of its tens with the digit of its ones behind it.
pub proof fn law_numerals_positional(
    n: u64,
    numeral: String,
    tens: String,
    wide: u128,
    wide_numeral: String,
    wide_tens: String,
)
    requires
        call_ensures(u64_text, (n,), numeral),
        call_ensures(u64_text, ((n / 10) as u64,), tens),
        call_ensures(u128_text, (wide,), wide_numeral),
        call_ensures(u128_text, ((wide / 10) as u128,), wide_tens),
    ensures
        is_numeral_of(n as nat, numeral@, tens@),
        is_numeral_of(wide as nat, wide_numeral@, wide_tens@),
{
    lemma_digit_value((n % 10) as nat);
    lemma_digit_value((wide % 10) as nat);
}

/// Whether a text is the numeral of a number, given the numeral of its tens.
pub open spec fn is_numeral_of(n: nat, numeral: Seq<char>, tens: Seq<char>) -> bool {
    &&& numeral.len() > 0
    &&& numeral.last() as int == '0' as int + n % 10
    &&& n < 10 ==> numeral.len() == 1
    &&& n >= 10 ==> numeral.drop_last() =~= tens
}

/// The numeral of a negative number is that of its magnitude behind a minus sign.
pub proof fn law_negative_numerals(n: i64, r: String, magnitude: String)
    requires
        call_ensures(i64_text, (n,), r),
        n != i64::MIN,
        call_ensures(u64_text, ((if n < 0 { -n } else { n as int }) as u64,), magnitude),
    ensures
        n >= 0 ==> r@ == magnitude@,
        n < 0 ==> r@ =~= seq!['-'] + magnitude@,
{
}

/// A text is read digit by digit: a digit is its own number, another digit behind it
/// adds to ten times the number, and anything else is no number.
pub proof fn law_numerals_read(
    s: &str,
    longer: &str,
    c: char,
    low: i64,
    high: i64,
    r: Option<i64>,
    q: Option<i64>,
)
    requires
        call_ensures(parse_within, (s, low, high), r),
        call_ensures(parse_within, (longer, low, high), q),
        s@.len() > 0,
        '0' <= s@[0] <= '9',
        longer@ == s@.push(c),
        low <= 0 <= high,
    ensures
        s@.len() == 1 ==> r == (if s@[0] as int - '0' as int <= high {
            Some((s@[0] as int - '0' as int) as i64)
        } else {
            None
        }),
        match r {
            Some(n) => {
                let more = 10 * n + (c as int - '0' as int);
                if '0' <= c <= '9' && more <= high {
                    q == Some(more as i64)
                } else {
                    q is None
                }
            },
            None => q is None,
        },
{
    assert(longer@.drop_last() =~= s@);
    assert(longer@.last() == c);
    assert(longer@[0] == s@[0]);
    assert(all_digits(longer@) <==> all_digits(s@) && is_digit(c)) by {
        if all_digits(longer@) {
            assert forall|i: int| 0 <= i < s@.len() implies is_digit(#[trigger] s@[i]) by {
                assert(longer@[i] == s@[i]);
            }
            assert(is_digit(longer@[s@.len() as int]));
        }
    }
    if s@.len() == 1 {
        reveal_with_fuel(numeral_value, 2);
        assert(s@.drop_last() =~= Seq::<char>::empty());
        assert(s@.last() == s@[0]);
        assert(all_digits(s@));
    }
    if all_digits(s@) {
        lemma_numeral_not_negative(s@);
    }
}

proof fn lemma_numeral_not_negative(s: Seq<char>)
    requires
        all_digits(s),
    ensures
        numeral_value(s) >= 0,
    decreases s.len(),
{
    if s.len() > 0 {
        assert(is_digit(s.last()));
        assert(all_digits(s.drop_last())) by {
            assert forall|i: int| 0 <= i < s.len() - 1 implies is_digit(
                #[trigger] s.drop_last()[i],
            ) by {
                assert(s.drop_last()[i] == s[i]);
            }
        }
        lemma_numeral_not_negative(s.drop_last());
    }
}

/// A plus sign in front changes nothing; a minus sign turns the number round where
/// negative numbers are wanted, and is no number where they are not. A text that is
/// neither a digit nor a sign at its start is no number, nor is an empty one.
pub proof fn law_signs_read(
    s: &str,
    signed: &str,
    low: i64,
    high: i64,
    r: Option<i64>,
    q: Option<i64>,
)
    requires
        call_ensures(parse_within, (s, i64::MIN, i64::MAX), r),
        call_ensures(parse_within, (signed, low, high), q),
        low <= 0 <= high,
        signed@.len() > 0 ==> s@ == signed@.skip(1),
    ensures
        signed@.len() == 0 ==> q is None,
        signed@.len() > 0 && signed@[0] == '+' && s@.len() > 0 && '0' <= s@[0] <= '9' ==> q == (
        match r {
            Some(n) => if n <= high {
                Some(n)
            } else {
                None
            },
            None => None,
        }),
        signed@.len() > 0 && signed@[0] == '-' && low == 0 ==> q is None,
        signed@.len() > 0 && signed@[0] == '-' && low < 0 && s@.len() > 0 && '0' <= s@[0] <= '9' ==> (
        match r {
            Some(n) => q == (if low <= -n {
                Some((-n) as i64)
            } else {
                None
            }),
            None => true,
        }),
        signed@.len() > 0 && signed@[0] != '+' && signed@[0] != '-' && !('0' <= signed@[0] <= '9')
            ==> q is None,
{
    if signed@.len() > 0 {
        assert(signed@.drop_first() =~= s@);
        if all_digits(s@) {
            lemma_numeral_not_negative(s@);
        }
        if all_digits(signed@) {
            assert(is_digit(signed@[0]));
        }
    }
}

/// A text splits at its separators: one without any is its own only piece, and the
/// pieces of two texts with a separator between them are those of both.
pub proof fn law_texts_split(
    front: &str,
    back: &str,
    whole: &str,
    sep: char,
    fronts: Vec<String>,
    backs: Vec<String>,
    r: Vec<String>,
)
    requires
        call_ensures(split_fields, (front, sep), fronts),
        call_ensures(split_fields, (back, sep), backs),
        call_ensures(split_fields, (whole, sep), r),
        whole@ == front@ + seq![sep] + back@,
    ensures
        r.deep_view() == fronts.deep_view() + backs.deep_view(),
        !front@.contains(sep) ==> fronts.deep_view() == seq![front@],
        !back@.contains(sep) ==> backs.deep_view() == seq![back@],
{
    lemma_split_both(front@, back@, sep);
    if !front@.contains(sep) {
        lemma_split_whole(front@, sep);
    }
    if !back@.contains(sep) {
        lemma_split_whole(back@, sep);
    }
}

/// Pieces are put together one by one, with the separator between them.
pub proof fn law_pieces_joined(
    pieces: &Vec<String>,
    from: usize,
    to: usize,
    sep: &str,
    r: String,
    fewer: String,
)
    requires
        from < to <= pieces@.len(),
        call_ensures(join_fields, (pieces, from, to, sep), r),
        call_ensures(join_fields, (pieces, from, (to - 1) as usize, sep), fewer),
    ensures
        to == from + 1 ==> r@ == pieces@[from as int]@ && fewer@.len() == 0,
        to > from + 1 ==> r@ == fewer@ + sep@ + pieces@[to - 1]@,
{
    let all = pieces.deep_view();
    assert(all.len() == pieces@.len());
    let part = all.subrange(from as int, to as int);
    assert(part.drop_last() =~= all.subrange(from as int, to - 1));
    assert(part.last() == pieces@[to - 1]@);
    assert(part[0] == pieces@[from as int]@);
}

proof fn lemma_last(s: Seq<char>, c: char)
    ensures
        match last_index(s, c) {
            Some(i) => 0 <= i < s.len() && s[i] == c && forall|j: int|
                i < j < s.len() ==> #[trigger] s[j] != c,
            None => !s.contains(c),
        },
    decreases s.len(),
{
    if s.len() > 0 && s.last() != c {
        let rest = s.drop_last();
        lemma_last(rest, c);
        match last_index(rest, c) {
            Some(i) => {
                assert forall|j: int| i < j < s.len() implies #[trigger] s[j] != c by {
                    if j < rest.len() {
                        assert(rest[j] == s[j]);
                    }
                }
            },
            None => {
                if s.contains(c) {
                    let i = choose|i: int| 0 <= i < s.len() && s[i] == c;
                    assert(rest[i] == c);
                }
            },
        }
    }
}

/// The last place of a character is one where it stands and behind which it does not.
pub proof fn law_last_place_found(s: &str, c: char, r: Option<usize>)
    requires
        call_ensures(last_index_of, (s, c), r),
    ensures
        match r {
            Some(i) => i < s@.len() && s@[i as int] == c && forall|j: int|
                i < j < s@.len() ==> #[trigger] s@[j] != c,
            None => !s@.contains(c),
        },
{
    lemma_last(s@, c);
}

/// What is left of a text without its beginning, put behind that beginning, is the
/// text; there is nothing only where the text begins otherwise.
pub proof fn law_beginning_stripped(s: &str, prefix: &str, r: Option<&str>)
    requires
        call_ensures(strip, (s, prefix), r),
    ensures
        match r {
            Some(rest) => s@ =~= prefix@ + rest@,
            None => forall|rest: Seq<char>| s@ != #[trigger] (prefix@ + rest),
        },
{
    let n = prefix@.len() as int;
    if r is None {
        assert forall|rest: Seq<char>| s@ != #[trigger] (prefix@ + rest) by {
            if s@ == prefix@ + rest {
                assert(s@.take(n) =~= prefix@);
            }
        }
    }
}

/// A text holds another where it is that text with something before and something
/// behind it, or with nothing.
pub proof fn law_occurrence_found(s: &str, needle: &str, r: bool)
    requires
        call_ensures(occurs_in, (s, needle), r),
    ensures
        r <==> exists|front: Seq<char>, back: Seq<char>|
            s@ == #[trigger] (front + needle@ + back),
{
    if r {
        let i = choose|i: int| occurs_at(s@, needle@, i);
        let n = needle@.len();
        let (front, back) = (s@.take(i), s@.skip(i + n));
        assert(s@ =~= front + needle@ + back);
    }
    if exists|front: Seq<char>, back: Seq<char>| s@ == #[trigger] (front + needle@ + back) {
        let (front, back) = choose|front: Seq<char>, back: Seq<char>|
            s@ == #[trigger] (front + needle@ + back);
        let i = front.len() as int;
        assert(s@.subrange(i, i + needle@.len()) =~= needle@);
        assert(occurs_at(s@, needle@, i));
    }
}

/// The leading bytes of a text are its beginning that has exactly so many, or all of it
/// where it has no more; there is nothing only where no beginning has so many.
pub proof fn law_leading_bytes(s: &str, n: usize, r: Option<&str>)
    requires
        call_ensures(leading_bytes, (s, n), r),
    ensures
        match r {
            Some(t) => {
                &&& t@.len() <= s@.len() && t@ == s@.take(t@.len() as int)
                &&& encode_utf8(t@).len() == n || (t@ == s@ && encode_utf8(s@).len() <= n)
            },
            None => encode_utf8(s@).len() > n && forall|k: int|
                0 <= k <= s@.len() ==> encode_utf8(#[trigger] s@.take(k)).len() != n,
        },
{
    lemma_text_within(s@, n as nat);
}

/// Whether a text is the hexadecimal form of some bytes: two digits for each, the high
/// one first.
pub open spec fn is_hex_of(s: Seq<char>, data: Seq<u8>) -> bool {
    &&& s.len() == 2 * data.len()
    &&& forall|i: int|
        0 <= i < data.len() ==> hex_value(s[2 * i]) == #[trigger] data[i] / 16 && hex_value(
            s[2 * i + 1],
        ) == data[i] % 16
}

proof fn lemma_hex_of(data: Seq<u8>)
    ensures
        is_hex_of(hex_text(data), data),
{
    assert forall|i: int| 0 <= i < data.len() implies hex_value(hex_text(data)[2 * i])
        == #[trigger] data[i] / 16 && hex_value(hex_text(data)[2 * i + 1]) == data[i] % 16 by {
        lemma_hex_value((data[i] / 16) as nat);
        lemma_hex_value((data[i] % 16) as nat);
        assert((2 * i) / 2 == i && (2 * i + 1) / 2 == i);
        assert((2 * i) % 2 == 0 && (2 * i + 1) % 2 == 1);
    }
}

/// A digest is written in hexadecimal, and so is a signature, which is the code of the
/// message under the key.
pub proof fn law_digests_in_hexadecimal(
    data: &[u8],
    digest: String,
    key: &str,
    message: &str,
    signature: String,
)
    requires
        call_ensures(sha256_hex, (data,), digest),
        call_ensures(hmac_sign, (key, message), signature),
    ensures
        is_hex_of(digest@, sha256_digest(data@)),
        is_hex_of(signature@, hmac_sha256_code(encode_utf8(key@), encode_utf8(message@))),
        digest@.len() == 64 && signature@.len() == 64,
{
    lemma_hex_of(sha256_digest(data@));
    lemma_hex_of(hmac_sha256_code(encode_utf8(key@), encode_utf8(message@)));
}

} // verus!
