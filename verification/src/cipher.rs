//! The payload transform: a byte-wise exclusive-or under a shared key.
//!
//! The transform is a placeholder for a real cipher. It hides nothing from an
//! attacker; what matters here is that it is total and that applying it twice
//! under one key gives the input back.

use vstd::prelude::*;
use vstd::utf8::*;
use crate::model::{annotations_of, Annotation, RenderString};

verus! {

/// The key that requests are obscured under unless a configuration says otherwise.
pub const KEY: u8 = 123;

/// Every byte of `bytes` combined with `key` by exclusive-or.
pub open spec fn xor_bytes(bytes: Seq<u8>, key: u8) -> Seq<u8> {
    Seq::new(bytes.len(), |i: int| bytes[i] ^ key)
}

/// Obscures `bytes` under `key`.
pub fn encode(bytes: &[u8], key: u8) -> (out: Vec<u8>)
    ensures
        out@ == xor_bytes(bytes@, key),
        out@.len() == bytes@.len(),
{
    let mut out: Vec<u8> = Vec::new();
    let mut i: usize = 0;
    while i < bytes.len()
        invariant
            i <= bytes.len(),
            out@ == xor_bytes(bytes@.take(i as int), key),
        decreases bytes.len() - i,
    {
        out.push(bytes[i] ^ key);
        i += 1;
    }
    assert(bytes@.take(i as int) == bytes@);
    out
}

/// Recovers the bytes that [`encode`] obscured under `key`: the result is
/// what `encode` takes to `bytes`.
///
/// The transform is its own inverse, so this is the same walk over the bytes.
pub fn decode(bytes: &[u8], key: u8) -> (out: Vec<u8>)
    ensures
        out@ == xor_bytes(bytes@, key),
        out@.len() == bytes@.len(),
        xor_bytes(out@, key) == bytes@,
{
    proof {
        lemma_decode_inverts_encode(bytes@, key);
    }
    encode(bytes, key)
}

/// Decoding what was encoded under the same key gives the bytes back.
pub proof fn lemma_decode_inverts_encode(bytes: Seq<u8>, key: u8)
    ensures
        xor_bytes(xor_bytes(bytes, key), key) == bytes,
{
    assert forall|i: int| 0 <= i < bytes.len() implies #[trigger] xor_bytes(
        xor_bytes(bytes, key),
        key,
    )[i] == bytes[i] by {
        let b = bytes[i];
        assert((b ^ key) ^ key == b) by (bit_vector);
    }
    assert(xor_bytes(xor_bytes(bytes, key), key) =~= bytes);
}

/// What `String::from_utf8_lossy` makes of bytes that are not well-formed
/// UTF-8: the text in which each malformed run is replaced by U+FFFD.
pub uninterp spec fn lossy_text(bytes: Seq<u8>) -> Seq<char>;

/// The text that a byte sequence is read as: the text it encodes where it is
/// well-formed UTF-8, and the lossy reading otherwise.
pub open spec fn text_of(bytes: Seq<u8>) -> Seq<char> {
    if valid_utf8(bytes) {
        decode_utf8(bytes)
    } else {
        lossy_text(bytes)
    }
}

/// The text that `text` turns into under `key`: its UTF-8 bytes are combined
/// with the key and read back as text.
pub open spec fn obscured(text: Seq<char>, key: u8) -> Seq<char> {
    text_of(xor_bytes(encode_utf8(text), key))
}

/// Calls `String::from_utf8_lossy` and takes ownership of what it returns.
///
/// Trusted: well-formed UTF-8 is returned as the text it encodes, unchanged;
/// for other input the result depends on the bytes alone.
#[verifier::external_body]
fn utf8_lossy(bytes: &Vec<u8>) -> (text: String)
    ensures
        valid_utf8(bytes@) ==> text@ == decode_utf8(bytes@),
        !valid_utf8(bytes@) ==> text@ == lossy_text(bytes@),
{
    String::from_utf8_lossy(bytes).into_owned()
}

/// Obscures `text` under `key`.
pub fn encrypt_with(text: &String, key: u8) -> (out: String)
    ensures
        out@ == obscured(text@, key),
{
    let bytes = encode(text.as_str().as_bytes(), key);
    utf8_lossy(&bytes)
}

/// Recovers the text that [`encrypt_with`] obscured under `key`.
pub fn decrypt_with(text: &String, key: u8) -> (out: String)
    ensures
        out@ == obscured(text@, key),
{
    let bytes = decode(text.as_str().as_bytes(), key);
    utf8_lossy(&bytes)
}

/// Obscures `str` under [`KEY`].
pub fn encrypt(str: &String) -> (out: String)
    ensures
        out@ == obscured(str@, KEY),
{
    encrypt_with(str, KEY)
}

/// Recovers the text that [`encrypt`] obscured.
pub fn decrypt(str: &String) -> (out: String)
    ensures
        out@ == obscured(str@, KEY),
{
    decrypt_with(str, KEY)
}

/// Bytes below 128 are well-formed UTF-8, and the text they encode is ASCII
/// with one character per byte.
pub proof fn lemma_ascii_bytes_are_text(bytes: Seq<u8>)
    requires
        forall|i: int| 0 <= i < bytes.len() ==> bytes[i] < 128,
    ensures
        valid_utf8(bytes),
        is_ascii_chars(decode_utf8(bytes)),
        decode_utf8(bytes).len() == bytes.len(),
{
    let chars = Seq::new(bytes.len(), |i: int| bytes[i] as char);
    assert(is_ascii_chars(chars));
    is_ascii_chars_encode_utf8(chars);
    assert(encode_utf8(chars) =~= bytes);
    encode_utf8_valid_utf8(chars);
    encode_utf8_decode_utf8(chars);
}

/// Under a key below 128 ASCII text stays ASCII: its obscured form is
/// well-formed UTF-8, so nothing is lost when it is read back as text.
pub proof fn lemma_ascii_stays_text(text: Seq<char>, key: u8)
    requires
        is_ascii_chars(text),
        key < 128,
    ensures
        valid_utf8(xor_bytes(encode_utf8(text), key)),
        is_ascii_chars(obscured(text, key)),
        obscured(text, key).len() == text.len(),
{
    let plain = encode_utf8(text);
    let mixed = xor_bytes(plain, key);
    is_ascii_chars_encode_utf8(text);
    assert forall|i: int| 0 <= i < mixed.len() implies mixed[i] < 128 by {
        let b = plain[i];
        assert(text[i] as u8 == b);
        assert(b < 128 && key < 128 ==> (b ^ key) < 128) by (bit_vector);
    }
    lemma_ascii_bytes_are_text(mixed);
}

/// Wherever the obscured form of `text` is well-formed UTF-8, recovering it
/// under the same key gives `text` back.
pub proof fn lemma_decrypt_inverts_encrypt(text: Seq<char>, key: u8)
    requires
        valid_utf8(xor_bytes(encode_utf8(text), key)),
    ensures
        obscured(obscured(text, key), key) == text,
{
    let plain = encode_utf8(text);
    let mixed = xor_bytes(plain, key);
    decode_utf8_encode_utf8(mixed);
    lemma_decode_inverts_encode(plain, key);
    encode_utf8_valid_utf8(text);
    encode_utf8_decode_utf8(text);
}

/// ASCII text obscured under a key below 128 (as [`KEY`] is) is recovered
/// exactly.
pub proof fn lemma_ascii_round_trip(text: Seq<char>, key: u8)
    requires
        is_ascii_chars(text),
        key < 128,
    ensures
        obscured(obscured(text, key), key) == text,
{
    lemma_ascii_stays_text(text, key);
    lemma_decrypt_inverts_encrypt(text, key);
}

/// An annotation with its text recovered under `key`; place and size stay.
pub open spec fn decoded(annotation: Annotation, key: u8) -> Annotation {
    Annotation { text: obscured(annotation.text, key), ..annotation }
}

/// Every annotation of a request decoded under `key`, in the same order.
pub open spec fn decoded_all(annotations: Seq<Annotation>, key: u8) -> Seq<Annotation> {
    Seq::new(annotations.len(), |i: int| decoded(annotations[i], key))
}

/// The annotation with its text recovered under `key`, at the same place and
/// of the same size.
pub fn decrypt_item(item: &RenderString, key: u8) -> (plain: RenderString)
    ensures
        plain@ == decoded(item@, key),
{
    RenderString {
        cipher: decrypt_with(&item.cipher, key),
        position: item.position,
        font_style: item.font_style,
    }
}

/// Replaces the obscured text of every annotation by the text recovered
/// under `key`.
pub fn decrypt_info_with(info: &mut Vec<RenderString>, key: u8)
    ensures
        annotations_of(final(info)@) == decoded_all(annotations_of(old(info)@), key),
{
    let mut plain: Vec<RenderString> = Vec::new();
    let mut i: usize = 0;
    while i < info.len()
        invariant
            i <= info@.len(),
            plain@.len() == i,
            forall|j: int| 0 <= j < i ==> (#[trigger] plain@[j])@ == decoded(info@[j]@, key),
        decreases info@.len() - i,
    {
        plain.push(decrypt_item(&info[i], key));
        i += 1;
    }
    assert(annotations_of(plain@) =~= decoded_all(annotations_of(info@), key));
    *info = plain;
}

/// Replaces the obscured text of every annotation by the text recovered
/// under [`KEY`].
pub fn decrypt_info(info: &mut Vec<RenderString>)
    ensures
        annotations_of(final(info)@) == decoded_all(annotations_of(old(info)@), KEY),
{
    decrypt_info_with(info, KEY)
}

} // verus!
