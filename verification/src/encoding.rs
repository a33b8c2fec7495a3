use vstd::prelude::*;
use base64::Engine;
use rand::RngCore;
use sha2::Digest;
use validator::ValidateEmail;

verus! {

/// The lowercase hexadecimal digit of a value below sixteen.
pub open spec fn hex_digit(n: u8) -> char {
    seq!['0', '1', '2', '3', '4', '5', '6', '7', '8', '9', 'a', 'b', 'c', 'd', 'e', 'f'][n as int]
}

/// Whether a character is a lowercase hexadecimal digit.
pub open spec fn is_lower_hex_char(c: char) -> bool {
    ('0' <= c && c <= '9') || ('a' <= c && c <= 'f')
}

/// Lowercase hexadecimal text of bytes: two digits per byte, high nibble
/// first.
pub open spec fn lower_hex(bytes: Seq<u8>) -> Seq<char>
    decreases bytes.len(),
{
    if bytes.len() == 0 {
        Seq::empty()
    } else {
        seq![hex_digit(bytes[0] / 16), hex_digit(bytes[0] % 16)] + lower_hex(bytes.drop_first())
    }
}

/// Hexadecimal text has two digits per byte, and only lowercase hex digits.
pub proof fn lemma_lower_hex(bytes: Seq<u8>)
    ensures
        lower_hex(bytes).len() == 2 * bytes.len(),
        forall|i: int| 0 <= i < lower_hex(bytes).len() ==> is_lower_hex_char(#[trigger] lower_hex(bytes)[i]),
    decreases bytes.len(),
{
    if bytes.len() > 0 {
        lemma_lower_hex(bytes.drop_first());
        let head = seq![hex_digit(bytes[0] / 16), hex_digit(bytes[0] % 16)];
        let rest = lower_hex(bytes.drop_first());
        assert(lower_hex(bytes) == head + rest);
        assert forall|i: int| 0 <= i < lower_hex(bytes).len() implies is_lower_hex_char(
            #[trigger] lower_hex(bytes)[i],
        ) by {
            if i < 2 {
                let d = if i == 0 { bytes[0] / 16 } else { bytes[0] % 16 };
                assert(0 <= d < 16);
                assert(lower_hex(bytes)[i] == hex_digit(d));
            } else {
                assert(lower_hex(bytes)[i] == rest[i - 2]);
            }
        }
    }
}

/// Encodes bytes with `hex::encode`, which writes two lowercase hexadecimal
/// digits per byte, high nibble first. Claimed: exactly that text.
#[verifier::external_body]
pub fn hex_encode(bytes: &[u8]) -> (text: String)
    ensures
        text@ == lower_hex(bytes@),
{
    hex::encode(bytes)
}

/// The digest that `sha2::Sha256::digest` computes of some bytes.
pub uninterp spec fn sha256_digest(data: Seq<u8>) -> Seq<u8>;

/// Hashes bytes with `sha2::Sha256::digest`. Claimed: the result is the
/// named digest, 32 bytes long.
#[verifier::external_body]
pub fn sha256(data: &[u8]) -> (digest: Vec<u8>)
    ensures
        digest@ == sha256_digest(data@),
        digest@.len() == 32,
{
    sha2::Sha256::digest(data).to_vec()
}

/// Fills 32 bytes from `rand::rng()`, the thread-local generator, with
/// `RngCore::fill_bytes`. Claimed: 32 bytes; nothing is said of their value.
#[verifier::external_body]
pub fn random_bytes_32() -> (bytes: Vec<u8>)
    ensures
        bytes@.len() == 32,
{
    let mut buf = [0u8; 32];
    rand::rng().fill_bytes(&mut buf);
    buf.to_vec()
}

/// The text that the `STANDARD` engine of `base64` writes for some bytes.
pub uninterp spec fn base64_standard_encoding(data: Seq<u8>) -> Seq<char>;

/// The bytes that the `STANDARD` engine of `base64` reads from a text, or
/// `None` where it reports an error.
pub uninterp spec fn base64_standard_decoding(text: Seq<char>) -> Option<Seq<u8>>;

/// Encodes bytes with `base64::engine::general_purpose::STANDARD.encode`.
/// Claimed: the result is the named text, and decoding it with the same
/// engine gives back the bytes (the engine pads canonically when it
/// encodes and requires canonical padding when it decodes); so no other
/// bytes encode to the same text.
#[verifier::external_body]
pub fn base64_encode(data: &[u8]) -> (text: String)
    ensures
        text@ == base64_standard_encoding(data@),
        base64_standard_decoding(text@) == Some(data@),
        forall|d: Seq<u8>| #[trigger] base64_standard_encoding(d) == text@ ==> d == data@,
{
    base64::engine::general_purpose::STANDARD.encode(data)
}

/// Decodes a text with `base64::engine::general_purpose::STANDARD.decode`.
/// Claimed: the result is the named decoding.
#[verifier::external_body]
pub fn base64_decode(text: &str) -> (data: Option<Vec<u8>>)
    ensures
        data is Some <==> base64_standard_decoding(text@) is Some,
        data matches Some(d) ==> Some(d@) == base64_standard_decoding(text@),
{
    base64::engine::general_purpose::STANDARD.decode(text).ok()
}

/// Reads bytes as UTF-8 text with `String::from_utf8`, which fails exactly
/// on bytes that are not valid UTF-8. Claimed: that, and the characters the
/// bytes encode.
#[verifier::external_body]
pub fn utf8_text(data: Vec<u8>) -> (text: Option<String>)
    ensures
        text is Some <==> vstd::utf8::valid_utf8(data@),
        text matches Some(t) ==> t@ == vstd::utf8::decode_utf8(data@),
{
    String::from_utf8(data).ok()
}

/// Lowercase hexadecimal digits of the sixteen big-endian bytes of an
/// identifier.
pub open spec fn id_hex(id: u128) -> Seq<char> {
    lower_hex(
        Seq::new(
            16,
            |i: int| ((id as int / vstd::arithmetic::power::pow(256, (15 - i) as nat)) % 256) as u8,
        ),
    )
}

/// The hyphenated text of a UUID: 8, 4, 4, 4 and 12 lowercase hexadecimal
/// digits joined by hyphens.
pub open spec fn uuid_hyphenated(id: u128) -> Seq<char> {
    let h = id_hex(id);
    h.subrange(0, 8) + seq!['-'] + h.subrange(8, 12) + seq!['-'] + h.subrange(12, 16) + seq!['-']
        + h.subrange(16, 20) + seq!['-'] + h.subrange(20, 32)
}

/// Writes an identifier with the `Display` of `uuid::Uuid`, whose text is the
/// hyphenated lowercase form. Claimed: exactly that text.
#[verifier::external_body]
pub fn uuid_text(id: u128) -> (text: String)
    ensures
        text@ == uuid_hyphenated(id),
{
    uuid::Uuid::from_u128(id).to_string()
}

/// Whether `validator` accepts a text as an email address.
pub uninterp spec fn valid_email(text: Seq<char>) -> bool;

/// Checks a text with `validator::ValidateEmail::validate_email`. Claimed: the
/// result is the named verdict, and a text without `@` is refused (the
/// function starts with that check).
#[verifier::external_body]
pub fn email_is_valid(text: &str) -> (ok: bool)
    ensures
        ok == valid_email(text@),
        !text@.contains('@') ==> !ok,
{
    text.validate_email()
}

/// The text that `str::to_lowercase` gives.
pub uninterp spec fn unicode_lowercase(text: Seq<char>) -> Seq<char>;

/// Lowercases a text with `str::to_lowercase`. Claimed: the named text.
#[verifier::external_body]
pub fn to_lowercase(text: &str) -> (lower: String)
    ensures
        lower@ == unicode_lowercase(text@),
{
    text.to_lowercase()
}

} // verus!
