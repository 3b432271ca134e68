//! Encodings: Base64 images, legacy Chinese text and random hexadecimal names.

use base64::Engine;
use vstd::prelude::*;
use vstd::string::*;

use crate::status::QrSessionId;

verus! {

/// The Base64 text of `bytes`, in the standard alphabet with padding.
pub uninterp spec fn base64_of(bytes: Seq<u8>) -> Seq<char>;

/// `bytes` in Base64, in the standard alphabet with padding.
///
/// Calls `base64::Engine::encode` of `base64::engine::general_purpose::STANDARD`, whose text is
/// called `base64_of` here: four characters for every three bytes, the last group padded. The
/// length of that text must be one that a string can have.
#[verifier::external_body]
fn base64_encode(bytes: &[u8]) -> (text: String)
    requires
        (bytes@.len() + 2) / 3 * 4 <= isize::MAX,
    ensures
        text@ == base64_of(bytes@),
        text@.len() == (bytes@.len() + 2) / 3 * 4,
{
    base64::engine::general_purpose::STANDARD.encode(bytes)
}

/// The `data:` address of content of the type `media` whose Base64 text is `encoded`.
pub open spec fn data_address(media: Seq<char>, encoded: Seq<char>) -> Seq<char> {
    "data:"@ + media + ";base64,"@ + encoded
}

/// The `data:` address of content of the type `media` whose Base64 text is `encoded`.
pub fn data_url_of(media: &str, encoded: &str) -> (url: String)
    ensures
        url@ == data_address(media@, encoded@),
{
    let mut url = "data:".to_owned();
    url.append(media);
    url.append(";base64,");
    url.append(encoded);
    url
}

/// The `data:` address of the content `bytes` of the type `media`.
pub fn data_url(media: &str, bytes: &[u8]) -> (url: String)
    requires
        (bytes@.len() + 2) / 3 * 4 <= isize::MAX,
    ensures
        url@ == data_address(media@, base64_of(bytes@)),
{
    data_url_of(media, base64_encode(bytes).as_str())
}

/// `bytes` as UTF-8 text, where they are that.
///
/// Calls `std::str::from_utf8`, which succeeds on well-formed UTF-8 alone and gives the text that
/// it encodes.
#[verifier::external_body]
fn utf8_text(bytes: &[u8]) -> (text: Option<&str>)
    ensures
        match text {
            Some(s) => vstd::utf8::valid_utf8(bytes@) && s@ == vstd::utf8::decode_utf8(bytes@),
            None => !vstd::utf8::valid_utf8(bytes@),
        },
{
    std::str::from_utf8(bytes).ok()
}

/// The text that `bytes` stand for in GB18030, or in the encoding that a byte order mark at their
/// start names, with the replacement character for what is malformed.
pub uninterp spec fn gb18030_of(bytes: Seq<u8>) -> Seq<char>;

/// `bytes` decoded as GB18030.
///
/// Calls `encoding_rs::Encoding::decode` of `encoding_rs::GB18030`, whose text is called
/// `gb18030_of` here. Its buffer may take three bytes for each byte of input and double when it
/// grows; the bound keeps that within what can be allocated.
#[verifier::external_body]
fn gb18030_text(bytes: &[u8]) -> (text: String)
    requires
        bytes@.len() <= usize::MAX / 16,
    ensures
        text@ == gb18030_of(bytes@),
{
    encoding_rs::GB18030.decode(bytes).0.into_owned()
}

/// The text of a response body: UTF-8 where it is well-formed, GB18030 otherwise.
pub fn decode_legacy_text(bytes: &[u8]) -> (text: String)
    requires
        bytes@.len() <= usize::MAX / 16,
    ensures
        text@ == if vstd::utf8::valid_utf8(bytes@) {
            vstd::utf8::decode_utf8(bytes@)
        } else {
            gb18030_of(bytes@)
        },
{
    match utf8_text(bytes) {
        Some(text) => text.to_owned(),
        None => gb18030_text(bytes),
    }
}

/// A lower case hexadecimal digit.
pub open spec fn hex_digit(c: char) -> bool {
    '0' <= c <= '9' || 'a' <= c <= 'f'
}

/// All characters of `s` are lower case hexadecimal digits.
pub open spec fn hex_text(s: Seq<char>) -> bool {
    forall|i: int| 0 <= i < s.len() ==> hex_digit(#[trigger] s[i])
}

/// A fresh random UUID, as 32 hexadecimal digits without hyphens.
///
/// Calls `uuid::Uuid::new_v4` and formats the result as `uuid::fmt::Simple`. The version digit is
/// 4 and the variant digit one of 8, 9, a and b; the other digits are random and left open.
#[verifier::external_body]
fn random_uuid() -> (text: String)
    ensures
        text@.len() == 32,
        hex_text(text@),
        text@[12] == '4',
        text@[16] == '8' || text@[16] == '9' || text@[16] == 'a' || text@[16] == 'b',
{
    uuid::Uuid::new_v4().simple().to_string()
}

impl QrSessionId {
    /// A fresh random name.
    pub fn generate() -> (id: Self)
        ensures
            id@.len() == 32,
            hex_text(id@),
            id@[12] == '4',
            id@[16] == '8' || id@[16] == '9' || id@[16] == 'a' || id@[16] == 'b',
    {
        QrSessionId(random_uuid())
    }
}

/// `len` random hexadecimal digits.
pub fn random_hex(len: usize) -> (text: String)
    requires
        len <= usize::MAX - 32,
    ensures
        text@.len() == len,
        hex_text(text@),
{
    let mut text = String::new();
    let mut have: usize = 0;
    while have < len
        invariant
            len <= usize::MAX - 32,
            have == text@.len(),
            have < len + 32,
            hex_text(text@),
        decreases len + 32 - have,
    {
        let more = random_uuid();
        let ghost before = text@;
        text.append(more.as_str());
        have += 32;
        assert forall|i: int| 0 <= i < text@.len() implies hex_digit(#[trigger] text@[i]) by {
            if i < before.len() {
                assert(hex_digit(before[i]));
            } else {
                assert(hex_digit(more@[i - before.len()]));
            }
        }
    }
    text.as_str().substring_char(0, len).to_owned()
}

} // verus!
