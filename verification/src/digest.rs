//! Digests, message authentication codes and their hexadecimal texts.
use hmac::Mac;
use sha2::Digest;
use vstd::prelude::*;
use vstd::string::*;
use vstd::utf8::*;

verus! {

/// The lower-case hexadecimal digit of a number below sixteen.
pub open spec fn hex_digit(n: nat) -> char {
    "0123456789abcdef"@[n as int]
}

/// The lower-case hexadecimal text of a byte string: two digits for each byte, the
/// high one first.
pub open spec fn hex_text(data: Seq<u8>) -> Seq<char> {
    Seq::new(
        data.len() * 2,
        |i: int|
            if i % 2 == 0 {
                hex_digit((data[i / 2] / 16) as nat)
            } else {
                hex_digit((data[i / 2] % 16) as nat)
            },
    )
}

/// The SHA-256 digest that the crate `sha2` computes of a byte string.
pub uninterp spec fn sha256_digest(data: Seq<u8>) -> Seq<u8>;

/// The HMAC-SHA256 code that the crate `hmac` computes under a key of a message.
pub uninterp spec fn hmac_sha256_code(key: Seq<u8>, message: Seq<u8>) -> Seq<u8>;

/// Calls `sha2::Sha256::digest`. The digest is named, and has thirty-two bytes.
#[verifier::external_body]
pub(crate) fn sha256(data: &[u8]) -> (r: Vec<u8>)
    ensures
        r@ == sha256_digest(data@),
        r@.len() == 32,
{
    sha2::Sha256::digest(data).to_vec()
}

/// Calls `hmac::Hmac` with SHA-256, which takes a key of any length. The code is
/// named, and has thirty-two bytes.
#[verifier::external_body]
fn hmac_sha256(key: &[u8], message: &[u8]) -> (r: Vec<u8>)
    ensures
        r@ == hmac_sha256_code(key@, message@),
        r@.len() == 32,
{
    let mut mac = hmac::Hmac::<sha2::Sha256>::new_from_slice(key).unwrap();
    mac.update(message);
    mac.finalize().into_bytes().to_vec()
}

/// Calls `hex::encode`, which writes two lower-case hexadecimal digits for each byte.
#[verifier::external_body]
pub(crate) fn hex_encode(data: &[u8]) -> (r: String)
    ensures
        r@ == hex_text(data@),
{
    hex::encode(data)
}

/// The hexadecimal text of the SHA-256 digest of a byte string.
pub open spec fn sha256_hex_text(data: Seq<u8>) -> Seq<char> {
    hex_text(sha256_digest(data))
}

/// The hexadecimal text of the HMAC-SHA256 code of a message, with key and message
/// as UTF-8.
pub open spec fn signature_text(key: Seq<char>, message: Seq<char>) -> Seq<char> {
    hex_text(hmac_sha256_code(encode_utf8(key), encode_utf8(message)))
}

/// A hexadecimal text has digits only, so no full stop.
pub proof fn lemma_hex_text(data: Seq<u8>)
    ensures
        hex_text(data).len() == 2 * data.len(),
        !hex_text(data).contains('.'),
{
    reveal_strlit("0123456789abcdef");
    let s = hex_text(data);
    if s.contains('.') {
        let i = choose|i: int| 0 <= i < s.len() && s[i] == '.';
        let n = if i % 2 == 0 {
            (data[i / 2] / 16) as nat
        } else {
            (data[i / 2] % 16) as nat
        };
        assert(n < 16);
        assert(s[i] == hex_digit(n));
        lemma_hex_digit(n);
    }
}

/// A hexadecimal digit is no full stop, and tells which number it stands for.
pub proof fn lemma_hex_digit(n: nat)
    requires
        n < 16,
    ensures
        hex_digit(n) != '.',
        hex_digit(n) as int == (if n < 10 {
            '0' as int + n
        } else {
            'a' as int + n - 10
        }),
{
    reveal_strlit("0123456789abcdef");
    if n == 0 {
    } else if n == 1 {
    } else if n == 2 {
    } else if n == 3 {
    } else if n == 4 {
    } else if n == 5 {
    } else if n == 6 {
    } else if n == 7 {
    } else if n == 8 {
    } else if n == 9 {
    } else if n == 10 {
    } else if n == 11 {
    } else if n == 12 {
    } else if n == 13 {
    } else if n == 14 {
    }
}

/// The hexadecimal text of the SHA-256 digest of `data`: sixty-four digits.
pub fn sha256_hex(data: &[u8]) -> (r: String)
    ensures
        r@ == sha256_hex_text(data@),
        r@.len() == 64,
{
    let digest = sha256(data);
    proof {
        lemma_hex_text(digest@);
    }
    hex_encode(digest.as_slice())
}

/// The signature of `message` under `key`: sixty-four hexadecimal digits.
pub fn hmac_sign(key: &str, message: &str) -> (r: String)
    ensures
        r@ == signature_text(key@, message@),
        r@.len() == 64,
        !r@.contains('.'),
{
    let code = hmac_sha256(key.as_bytes(), message.as_bytes());
    proof {
        lemma_hex_text(code@);
    }
    hex_encode(code.as_slice())
}

/// Whether two byte strings are equal, found out by looking at every byte whatever
/// the earlier ones were.
pub fn constant_eq(a: &[u8], b: &[u8]) -> (r: bool)
    ensures
        r == (a@ == b@),
{
    if a.len() != b.len() {
        return false;
    }
    let mut diff: u8 = 0;
    let mut i: usize = 0;
    while i < a.len()
        invariant
            i <= a.len(),
            a.len() == b.len(),
            diff == 0 <==> (forall|j: int| 0 <= j < i ==> a@[j] == b@[j]),
        decreases a.len() - i,
    {
        let x: u8 = a[i];
        let y: u8 = b[i];
        let before: u8 = diff;
        diff = before | (x ^ y);
        assert(diff == 0 <==> (before == 0 && x == y)) by (bit_vector)
            requires
                diff == before | (x ^ y),
        ;
        i = i + 1;
    }
    proof {
        if diff == 0 {
            assert(a@ =~= b@);
        }
    }
    diff == 0
}

} // verus!
