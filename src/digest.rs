//! Content digests: SHA-256 of byte strings, and their hexadecimal text form.
use sha2::Digest;
use vstd::prelude::*;
use vstd::string::StringSliceAdditionalSpecFns;
use vstd::utf8::{encode_utf8, is_ascii_chars, is_ascii_chars_encode_utf8};

verus! {

/// A 32-byte SHA-256 digest.
pub type Hash32 = [u8; 32];

/// The SHA-256 digest of a byte string.
pub uninterp spec fn sha256_of(data: Seq<u8>) -> Seq<u8>;

/// The all-zero digest used to pad a leaf set.
pub open spec fn zero_digest() -> Seq<u8> {
    Seq::new(32, |_i: int| 0u8)
}

/// Lowercase hexadecimal character of a value below 16.
pub open spec fn hex_char(v: u8) -> char {
    if v < 10 {
        (v + 48) as char
    } else {
        (v + 87) as char
    }
}

/// Lowercase hexadecimal text of a byte string: two characters per byte,
/// high nibble first.
pub open spec fn hex_text(b: Seq<u8>) -> Seq<char> {
    Seq::new(
        2 * b.len(),
        |i: int|
            if i % 2 == 0 {
                hex_char(b[i / 2] / 16)
            } else {
                hex_char(b[i / 2] % 16)
            },
    )
}

/// Whether a byte is an ASCII hexadecimal digit of either case.
pub open spec fn is_hex_byte(c: u8) -> bool {
    (48 <= c <= 57) || (97 <= c <= 102) || (65 <= c <= 70)
}

/// The value of an ASCII hexadecimal digit.
pub open spec fn hex_value(c: u8) -> int {
    if 48 <= c <= 57 {
        c - 48
    } else if 97 <= c <= 102 {
        c - 87
    } else {
        c - 55
    }
}

/// Whether a byte string is hexadecimal text: an even number of hex digits.
pub open spec fn is_hex_bytes(s: Seq<u8>) -> bool {
    s.len() % 2 == 0 && forall|i: int| 0 <= i < s.len() ==> is_hex_byte(#[trigger] s[i])
}

/// The bytes that hexadecimal text stands for, two digits per byte.
pub open spec fn hex_decoded(s: Seq<u8>) -> Seq<u8> {
    Seq::new(s.len() / 2, |i: int| (hex_value(s[2 * i]) * 16 + hex_value(s[2 * i + 1])) as u8)
}

/// The text of a digest as stored: hexadecimal, optionally after a `0x` prefix.
pub open spec fn strip_hex_prefix(s: Seq<u8>) -> Seq<u8> {
    if s.len() >= 2 && s[0] == 48u8 && s[1] == 120u8 {
        s.subrange(2, s.len() as int)
    } else {
        s
    }
}

/// The digest written by a text, if it is one: 64 hex digits of either case,
/// optionally after `0x`.
pub open spec fn digest_of_text(s: Seq<u8>) -> Option<Seq<u8>> {
    let body = strip_hex_prefix(s);
    if is_hex_bytes(body) && body.len() == 64 {
        Some(hex_decoded(body))
    } else {
        None
    }
}

proof fn lemma_hex_char_bytes(v: u8)
    requires
        v < 16,
    ensures
        '\0' <= hex_char(v) <= '\u{7f}',
        is_hex_byte(hex_char(v) as u8),
        hex_value(hex_char(v) as u8) == v,
        hex_char(v) as u8 != 120u8,
{
}

/// Hexadecimal text of a 32-byte digest reads back as that digest.
pub proof fn lemma_hex_text_round_trip(d: Seq<u8>)
    requires
        d.len() == 32,
    ensures
        digest_of_text(encode_utf8(hex_text(d))) == Some(d),
{
    let chars = hex_text(d);
    assert forall|i: int| 0 <= i < chars.len() implies '\0' <= #[trigger] chars[i] <= '\u{7f}' by {
        lemma_hex_char_bytes(d[i / 2] / 16);
        lemma_hex_char_bytes(d[i / 2] % 16);
    }
    assert(is_ascii_chars(chars));
    is_ascii_chars_encode_utf8(chars);
    let bytes = encode_utf8(chars);
    assert(bytes.len() == 64);
    lemma_hex_char_bytes(d[0] / 16);
    assert(strip_hex_prefix(bytes) == bytes);
    assert forall|i: int| 0 <= i < bytes.len() implies is_hex_byte(#[trigger] bytes[i]) by {
        lemma_hex_char_bytes(d[i / 2] / 16);
        lemma_hex_char_bytes(d[i / 2] % 16);
        assert(chars[i] as u8 == bytes[i]);
    }
    assert forall|i: int| 0 <= i < 32 implies #[trigger] hex_decoded(bytes)[i] == d[i] by {
        lemma_hex_char_bytes(d[i] / 16);
        lemma_hex_char_bytes(d[i] % 16);
        assert(chars[2 * i] as u8 == bytes[2 * i]);
        assert(chars[2 * i + 1] as u8 == bytes[2 * i + 1]);
        assert((2 * i) / 2 == i);
        assert((2 * i + 1) / 2 == i);
        assert((2 * i) % 2 == 0);
        assert((2 * i + 1) % 2 == 1);
        assert((d[i] / 16) * 16 + d[i] % 16 == d[i]);
    }
    assert(hex_decoded(bytes) =~= d);
}

/// Relies on sha2's `Sha256::digest`: the SHA-256 digest of the bytes, which
/// depends on the bytes alone.
#[verifier::external_body]
pub fn hash_data(data: &[u8]) -> (r: Hash32)
    ensures
        r@ == sha256_of(data@),
{
    sha2::Sha256::digest(data).into()
}

/// Relies on hex's `encode`: lowercase digits, two per byte, high nibble first.
#[verifier::external_body]
fn hex_encode(data: &[u8]) -> (r: String)
    ensures
        r@ == hex_text(data@),
{
    hex::encode(data)
}

/// Relies on hex's `decode`: it succeeds exactly on an even number of hex
/// digits of either case, and yields one byte for each two digits.
#[verifier::external_body]
fn hex_decode(text: &[u8]) -> (r: Option<Vec<u8>>)
    ensures
        r is Some <==> is_hex_bytes(text@),
        r matches Some(v) ==> v@ == hex_decoded(text@),
{
    hex::decode(text).ok()
}

/// The digest of two digests joined left then right.
pub fn hash_pair(left: &Hash32, right: &Hash32) -> (r: Hash32)
    ensures
        r@ == sha256_of(left@ + right@),
{
    let mut buf: Vec<u8> = Vec::with_capacity(64);
    for i in 0..32
        invariant
            buf@ == left@.subrange(0, i as int),
    {
        buf.push(left[i]);
    }
    for i in 0..32
        invariant
            buf@ == left@ + right@.subrange(0, i as int),
    {
        buf.push(right[i]);
    }
    assert(buf@ =~= left@ + right@);
    hash_data(buf.as_slice())
}

/// Lowercase hexadecimal text of a digest, without prefix.
pub fn digest_to_hex(h: &Hash32) -> (r: String)
    ensures
        r@ == hex_text(h@),
{
    hex_encode(h)
}

/// Errors of reading a digest from hexadecimal text.
#[derive(Debug, Clone, PartialEq, Eq)]
pub enum DigestError {
    /// The text is not an even number of hexadecimal digits.
    InvalidHex,
    /// The text decodes to this many bytes rather than 32.
    WrongLength(usize),
}

/// Reads a digest from unprefixed hexadecimal text of either case.
pub fn hex_to_hash(hex_str: &str) -> (r: Result<Hash32, DigestError>)
    ensures
        !is_hex_bytes(hex_str.spec_bytes()) ==> r == Err::<Hash32, DigestError>(DigestError::InvalidHex),
        is_hex_bytes(hex_str.spec_bytes()) && hex_str.spec_bytes().len() != 64 ==> r == Err::<Hash32, DigestError>(
            DigestError::WrongLength((hex_str.spec_bytes().len() / 2) as usize),
        ),
        is_hex_bytes(hex_str.spec_bytes()) && hex_str.spec_bytes().len() == 64 ==> (r matches Ok(
            h,
        ) && h@ == hex_decoded(hex_str.spec_bytes())),
{
    bytes_to_hash(hex_str.as_bytes())
}

fn bytes_to_hash(text: &[u8]) -> (r: Result<Hash32, DigestError>)
    ensures
        !is_hex_bytes(text@) ==> r == Err::<Hash32, DigestError>(DigestError::InvalidHex),
        is_hex_bytes(text@) && text@.len() != 64 ==> r == Err::<Hash32, DigestError>(
            DigestError::WrongLength((text@.len() / 2) as usize),
        ),
        is_hex_bytes(text@) && text@.len() == 64 ==> (r matches Ok(h) && h@
            == hex_decoded(text@)),
{
    match hex_decode(text) {
        None => Err(DigestError::InvalidHex),
        Some(bytes) => {
            if bytes.len() != 32 {
                return Err(DigestError::WrongLength(bytes.len()));
            }
            let mut h: Hash32 = [0u8; 32];
            for i in 0..32
                invariant
                    bytes@.len() == 32,
                    forall|j: int| 0 <= j < i ==> h@[j] == bytes@[j],
            {
                h[i] = bytes[i];
            }
            assert(h@ =~= bytes@);
            Ok(h)
        },
    }
}

/// Reads a digest from its stored text: hexadecimal of either case, with or
/// without a `0x` prefix.
pub fn parse_digest_text(text: &str) -> (r: Option<Hash32>)
    ensures
        r matches Some(h) ==> digest_of_text(text.spec_bytes()) == Some(h@),
        r is None ==> digest_of_text(text.spec_bytes()) is None,
{
    let bytes = text.as_bytes();
    let n = bytes.len();
    let start: usize = if n >= 2 && bytes[0] == 48u8 && bytes[1] == 120u8 {
        2
    } else {
        0
    };
    let mut body: Vec<u8> = Vec::new();
    let mut i: usize = start;
    while i < n
        invariant
            start <= i <= n,
            n == bytes@.len(),
            body@ == bytes@.subrange(start as int, i as int),
        decreases n - i,
    {
        body.push(bytes[i]);
        i += 1;
    }
    assert(body@ =~= strip_hex_prefix(bytes@));
    match bytes_to_hash(body.as_slice()) {
        Ok(h) => Some(h),
        Err(_) => None,
    }
}

/// Whether a stored digest text names the given digest, whatever the case of
/// its letters and whether or not it carries a `0x` prefix.
pub fn digest_text_matches(text: &str, digest: &Hash32) -> (r: bool)
    ensures
        r == (digest_of_text(text.spec_bytes()) == Some(digest@)),
{
    match parse_digest_text(text) {
        Some(h) => {
            let eq = hashes_equal(&h, digest);
            eq
        },
        None => false,
    }
}

/// Byte-exact equality of two digests.
pub fn hashes_equal(a: &Hash32, b: &Hash32) -> (r: bool)
    ensures
        r == (a@ == b@),
{
    let mut i: usize = 0;
    while i < 32
        invariant
            i <= 32,
            forall|j: int| 0 <= j < i ==> a@[j] == b@[j],
        decreases 32 - i,
    {
        if a[i] != b[i] {
            return false;
        }
        i += 1;
    }
    assert(a@ =~= b@);
    true
}

} // verus!
