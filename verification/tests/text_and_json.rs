use ucx::float64::F64;
use ucx::json::{number, text, text_or_null, Fields, Json};
use ucx::text::{
    i64_text, join_fields, last_index_of, leading_bytes, occurs_in, parse_within, split_fields, str_eq, strip,
    u128_text, u64_text,
};

#[test]
fn numerals() {
    assert_eq!(u64_text(0), "0");
    assert_eq!(u64_text(u64::MAX), "18446744073709551615");
    assert_eq!(u128_text(u128::MAX), "340282366920938463463374607431768211455");
    assert_eq!(i64_text(i64::MIN), "-9223372036854775808");
    assert_eq!(i64_text(-10), "-10");
    assert_eq!(i64_text(1007), "1007");
}

#[test]
fn reading_numerals() {
    for s in [
        "0", "-0", "+7", "-7", "007", "9223372036854775807", "9223372036854775808",
        "-9223372036854775808", "-9223372036854775809", "", "+", "-", "1_0", " 1", "1 ", "--1",
        "٣", "99999999999999999999999999999999999999999999",
    ] {
        assert_eq!(parse_within(s, i64::MIN, i64::MAX), s.parse::<i64>().ok(), "{s}");
        assert_eq!(
            parse_within(s, 0, 65535),
            s.parse::<u16>().ok().map(|n| n as i64),
            "{s}"
        );
    }
}

#[test]
fn numerals_are_read_back() {
    for n in [0i64, 1, -1, 3600, i64::MIN, i64::MAX] {
        assert_eq!(parse_within(&i64_text(n), i64::MIN, i64::MAX), Some(n));
    }
}

#[test]
fn splitting() {
    for s in ["", ":", "a:b::c", "abc", "é:ß:", "::"] {
        let expected: Vec<String> = s.split(':').map(|p| p.to_string()).collect();
        assert_eq!(split_fields(s, ':'), expected, "{s}");
        assert_eq!(join_fields(&expected, 0, expected.len(), ":"), s);
    }
    let pieces = split_fields("a:b:c:d", ':');
    assert_eq!(join_fields(&pieces, 1, 3, ":"), "b:c");
    assert_eq!(join_fields(&pieces, 1, 2, ":"), "b");
    assert_eq!(join_fields(&pieces, 2, 2, ":"), "");
}

#[test]
fn searching() {
    assert_eq!(last_index_of("a.b.c", '.'), Some(3));
    assert_eq!(last_index_of("é.é", '.'), Some(1));
    assert_eq!(last_index_of("abc", '.'), None);
    assert_eq!(last_index_of("", '.'), None);
    assert_eq!(strip("Bearer x", "Bearer "), Some("x"));
    assert_eq!(strip("Bearer", "Bearer "), None);
    assert_eq!(strip("bearer x", "Bearer "), None);
    assert_eq!(strip("", ""), Some(""));
    assert!(occurs_in("NVIDIA H100 SXM5", "H100"));
    assert!(!occurs_in("NVIDIA H10", "H100"));
    assert!(occurs_in("", ""));
    assert!(str_eq("é", "é") && !str_eq("e", "é"));
}

#[test]
fn leading_bytes_end_between_characters() {
    assert_eq!(leading_bytes("abc", 200), Some("abc"));
    assert_eq!(leading_bytes("abc", 2), Some("ab"));
    assert_eq!(leading_bytes("abc", 0), Some(""));
    assert_eq!(leading_bytes("aé", 3), Some("aé"));
    assert_eq!(leading_bytes("aéb", 3), Some("aé"));
    assert_eq!(leading_bytes("aéb", 2), None);
    assert_eq!(leading_bytes("€uro", 3), Some("€"));
    assert_eq!(leading_bytes("€uro", 2), None);
    assert_eq!(leading_bytes("😀!", 4), Some("😀"));
    assert_eq!(leading_bytes("😀!", 3), None);
    assert_eq!(leading_bytes("", 0), Some(""));
}

fn sample() -> Json {
    Fields::new()
        .with("null", Json::Null)
        .with("yes", Json::Bool(true))
        .with("seven", Json::UInt(7))
        .with("minus", Json::NegInt(-7))
        .with("half", Json::Float(F64 { bits: 0.5f64.to_bits() }))
        .with("word", text("word"))
        .with("seven", Json::UInt(8))
        .object()
}

#[test]
fn members_of_objects() {
    let j = sample();
    assert_eq!(j.u64_at("seven"), Some(7));
    assert_eq!(j.u64_at("minus"), None);
    assert_eq!(j.u64_at("half"), None);
    assert_eq!(j.bool_at("yes"), Some(true));
    assert_eq!(j.bool_at("seven"), None);
    assert_eq!(j.str_at("word"), Some("word"));
    assert_eq!(j.str_at("null"), None);
    assert_eq!(j.str_at("missing"), None);
    assert_eq!(j.f64_at("half").map(|x| x.bits), Some(0.5f64.to_bits()));
    assert_eq!(j.f64_at("seven").map(|x| x.bits), Some(7.0f64.to_bits()));
    assert_eq!(j.f64_at("minus").map(|x| x.bits), Some((-7.0f64).to_bits()));
    assert!(j.f64_at("word").is_none());
    assert!(j.get("null").is_some());
    assert!(j.get("missing").is_none());
    assert!(Json::Null.get("x").is_none());
    assert!(Json::Array(vec![]).get("x").is_none());
}

#[test]
fn values_and_nulls() {
    assert_eq!(text_or_null(Some("a")).as_str(), Some("a"));
    assert!(matches!(text_or_null(None), Json::Null));
    assert!(matches!(number(F64 { bits: 1.5f64.to_bits() }), Json::Float(_)));
    assert!(matches!(number(F64 { bits: f64::NAN.to_bits() }), Json::Null));
    assert!(matches!(number(F64 { bits: f64::INFINITY.to_bits() }), Json::Null));
}

#[test]
fn duplicates_are_alike() {
    let j = Json::Array(vec![sample(), Json::Null, Json::Array(vec![text("x")])]);
    assert_eq!(format!("{:?}", j.duplicate()), format!("{j:?}"));
}
