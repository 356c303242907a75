//! What is derived from the bytes of a document: its content hash and, for
//! text, the extract that searches run over.

use crate::documents::{CreateDocumentInput, CreateDocumentInputView};
use crate::strings::{starts_with, texts};
use vstd::prelude::*;
use vstd::string::*;
use vstd::utf8::{decode_utf8, valid_utf8};

verus! {

/// The SHA-256 digest of bytes: 32 bytes.
pub uninterp spec fn sha256_digest(bytes: Seq<u8>) -> Seq<u8>;

/// Calls `sha2::Sha256::digest`. Believed: the result is the digest named
/// by [`sha256_digest`].
#[verifier::external_body]
pub(crate) fn sha256(bytes: &[u8]) -> (r: [u8; 32])
    ensures
        r@ == sha256_digest(bytes@),
{
    <sha2::Sha256 as sha2::Digest>::digest(bytes).into()
}

/// Calls `core::str::from_utf8`. Believed, as its documentation says: the
/// bytes are accepted exactly when they are valid UTF-8, and the text is
/// then what they decode to.
#[verifier::external_body]
pub(crate) fn utf8_text(bytes: &[u8]) -> (r: Option<String>)
    ensures
        r is Some == valid_utf8(bytes@),
        r is Some ==> r->0@ == decode_utf8(bytes@),
{
    match core::str::from_utf8(bytes) {
        Ok(s) => Some(s.to_owned()),
        Err(_) => None,
    }
}

/// The sixteen digits of lower-case hexadecimal.
pub open spec fn hex_digits() -> Seq<char> {
    "0123456789abcdef"@
}

/// The lower-case hexadecimal spelling of bytes, two digits for each.
pub open spec fn hex_text(bytes: Seq<u8>) -> Seq<char>
    decreases bytes.len(),
{
    if bytes.len() == 0 {
        Seq::empty()
    } else {
        hex_text(bytes.drop_last()) + seq![
            hex_digits()[bytes.last() as int / 16],
            hex_digits()[bytes.last() as int % 16],
        ]
    }
}

fn hex_digit(v: usize) -> (r: &'static str)
    requires
        v < 16,
    ensures
        r@ == seq![hex_digits()[v as int]],
{
    let digits = "0123456789abcdef";
    proof {
        reveal_strlit("0123456789abcdef");
        assert(digits@.len() == 16);
        assert(is_ascii(digits));
    }
    let r = digits.substring_ascii(v, v + 1);
    assert(r@ =~= seq![hex_digits()[v as int]]);
    r
}

/// Spells bytes in lower-case hexadecimal.
pub fn to_hex(bytes: &[u8]) -> (out: String)
    ensures
        out@ == hex_text(bytes@),
{
    let mut out = String::new();
    let mut i: usize = 0;
    assert(bytes@.take(0) =~= Seq::<u8>::empty());
    while i < bytes.len()
        invariant
            i <= bytes.len(),
            out@ == hex_text(bytes@.take(i as int)),
        decreases bytes.len() - i,
    {
        let ghost before = out@;
        let b = bytes[i] as usize;
        out.append(hex_digit(b / 16));
        out.append(hex_digit(b % 16));
        proof {
            let next = bytes@.take(i + 1);
            assert(next.drop_last() =~= bytes@.take(i as int));
            assert(next.last() == bytes@[i as int]);
            assert(out@ =~= before + seq![hex_digits()[b as int / 16], hex_digits()[b as int % 16]]);
        }
        i = i + 1;
    }
    assert(bytes@.take(bytes.len() as int) =~= bytes@);
    out
}

/// The content hash of a document: its SHA-256 digest in lower-case
/// hexadecimal.
pub fn calculate_content_hash(content: &[u8]) -> (r: String)
    ensures
        r@ == hex_text(sha256_digest(content@)),
{
    let digest = sha256(content);
    to_hex(digest.as_slice())
}

/// The searchable text of a document, given what decoding its bytes gave:
/// there is one only for content of a `text/` type that is valid UTF-8.
pub fn text_content_from(decoded: Option<String>, content_type: &str) -> (r: Option<String>)
    ensures
        r == if "text/"@.is_prefix_of(content_type@) {
            decoded
        } else {
            None
        },
{
    if starts_with(content_type, "text/") {
        decoded
    } else {
        None
    }
}

/// The searchable text of a document: its content as text where the
/// content type starts with `text/` and the bytes are valid UTF-8.
pub fn extract_text_content(content: &[u8], content_type: &str) -> (r: Option<String>)
    ensures
        r is Some == ("text/"@.is_prefix_of(content_type@) && valid_utf8(content@)),
        r is Some ==> r->0@ == decode_utf8(content@),
{
    if starts_with(content_type, "text/") {
        utf8_text(content)
    } else {
        None
    }
}

/// A new document as the browser hands it over: its name, its bytes and
/// what the user said about it.
#[derive(Debug, PartialEq, Eq)]
pub struct DocumentInput {
    pub filename: String,
    pub content: Vec<u8>,
    pub content_type: String,
    /// The metadata map, as JSON text.
    pub metadata: String,
    pub tags: Vec<String>,
}

/// The size recorded for content: its length, held at the largest number
/// that the record can keep.
pub open spec fn size_of(content: Seq<u8>) -> i64 {
    if content.len() <= i64::MAX {
        content.len() as i64
    } else {
        i64::MAX
    }
}

/// The searchable text of content of the given type.
pub open spec fn text_in(content: Seq<u8>, content_type: Seq<char>) -> Option<Seq<char>> {
    if "text/"@.is_prefix_of(content_type) && valid_utf8(content) {
        Some(decode_utf8(content))
    } else {
        None
    }
}

/// What the store is told of a new document, once its content has been
/// stored under `local_path`: size, hash and text extract are derived from
/// the bytes.
pub fn describe_content(input: DocumentInput, local_path: String) -> (r: CreateDocumentInput)
    ensures
        r@ == (CreateDocumentInputView {
            filename: input.filename@,
            content_type: input.content_type@,
            local_path: local_path@,
            file_size: size_of(input.content@),
            content_hash: hex_text(sha256_digest(input.content@)),
            text_content: text_in(input.content@, input.content_type@),
            metadata: Some(input.metadata@),
            tags: Some(texts(input.tags@)),
        }),
{
    let length = input.content.len() as u64;
    let file_size = if length > 0x7fff_ffff_ffff_ffffu64 {
        i64::MAX
    } else {
        length as i64
    };
    let content_hash = calculate_content_hash(input.content.as_slice());
    let text_content = extract_text_content(input.content.as_slice(), input.content_type.as_str());
    CreateDocumentInput {
        filename: input.filename,
        content_type: input.content_type,
        local_path,
        file_size,
        content_hash,
        text_content,
        metadata: Some(input.metadata),
        tags: Some(input.tags),
    }
}

/// Whether a credential has run out. Credentials carry no expiry that this
/// client reads, so none ever has.
pub fn is_token_expired(token: &str) -> (r: bool)
    ensures
        !r,
{
    false
}

} // verus!
