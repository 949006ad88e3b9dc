//! Calls into the hashing, cipher and encoding crates that payload decoding
//! relies on. Each item here is trusted: its contract restates what the
//! called function documents, over a name for its result.

use vstd::prelude::*;

use aes::cipher::{KeyIvInit, StreamCipher};
use base64::Engine;
use sha2::Digest;

verus! {

/// What `base64::prelude::BASE64_STANDARD.decode` returns for the UTF-8 bytes
/// of the given text: the decoded bytes, or the text of the decode error.
pub uninterp spec fn base64_standard_decode(text: Seq<char>) -> Result<Seq<u8>, Seq<char>>;

/// The SHA-256 digest of the UTF-8 bytes of the given text.
pub uninterp spec fn sha256_of_text(text: Seq<char>) -> Seq<u8>;

/// The bytes that AES-256 in 128-bit big-endian counter mode (`ctr::Ctr128BE<aes::Aes256>`)
/// yields when its keystream, started from the given key and counter block, is
/// XORed onto the given data.
pub uninterp spec fn aes256_ctr_apply(key: Seq<u8>, counter: Seq<u8>, data: Seq<u8>) -> Seq<u8>;

/// What `String::from_utf8_lossy` makes of the given bytes.
pub uninterp spec fn utf8_lossy(bytes: Seq<u8>) -> Seq<char>;

/// The view of a byte buffer or an error message.
pub open spec fn bytes_or_message(r: Result<Vec<u8>, String>) -> Result<Seq<u8>, Seq<char>> {
    match r {
        Ok(v) => Ok(v@),
        Err(e) => Err(e@),
    }
}

/// Standard-alphabet, padded base64 decoding of `text` through
/// `BASE64_STANDARD.decode`. Claimed: the result is the named decoding of the
/// text, and an error carries the error's display text.
#[verifier::external_body]
pub(crate) fn base64_decode(text: &str) -> (r: Result<Vec<u8>, String>)
    ensures
        bytes_or_message(r) == base64_standard_decode(text@),
{
    base64::prelude::BASE64_STANDARD.decode(text).map_err(|e| e.to_string())
}

/// `sha2::Sha256` over the UTF-8 bytes of `text`. Claimed: the named digest,
/// which SHA-256 makes 32 bytes long.
#[verifier::external_body]
pub(crate) fn sha256_text(text: &str) -> (r: Vec<u8>)
    ensures
        r@ == sha256_of_text(text@),
        r@.len() == 32,
{
    let mut hasher = sha2::Sha256::new();
    hasher.update(text.as_bytes());
    hasher.finalize().to_vec()
}

/// Applies the AES-256-CTR keystream (`ctr::Ctr128BE<aes::Aes256>`, built with
/// `new_from_slices`) to `ciphertext`. Claimed: setup fails, with the message
/// `AES setup failed: Invalid Length`, exactly when the key is not 32 bytes
/// or the counter block not 16; otherwise the result is the
/// named keystream application, as long as the input.
#[verifier::external_body]
pub(crate) fn aes_256_ctr_decrypt(key: &[u8], ctr: &[u8], ciphertext: &[u8]) -> (r: Result<Vec<u8>, String>)
    ensures
        r.is_ok() == (key@.len() == 32 && ctr@.len() == 16),
        r matches Ok(v) ==> v@ == aes256_ctr_apply(key@, ctr@, ciphertext@) && v@.len() == ciphertext@.len(),
        r matches Err(e) ==> e@ == "AES setup failed: Invalid Length"@,
{
    let mut cipher = ctr::Ctr128BE::<aes::Aes256>::new_from_slices(key, ctr).map_err(|e| format!("AES setup failed: {e}"))?;
    let mut plain = ciphertext.to_vec();
    cipher.apply_keystream(&mut plain);
    Ok(plain)
}

/// `String::from_utf8_lossy` of the bytes, as an owned string. Claimed: the
/// named conversion.
#[verifier::external_body]
pub(crate) fn utf8_lossy_string(bytes: &[u8]) -> (r: String)
    ensures
        r@ == utf8_lossy(bytes@),
{
    String::from_utf8_lossy(bytes).into_owned()
}

} // verus!
