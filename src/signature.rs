//! Authentication of inbound deliveries by the platform's HMAC-SHA256
//! signature, carried Base64-encoded in a request header.
use vstd::prelude::*;
use vstd::string::*;
use base64::engine::general_purpose;
use base64::Engine;
use hmac::{Hmac, Mac};
use sha2::Sha256;

verus! {

/// The HMAC-SHA256 tag of `message` under `key`.
pub uninterp spec fn hmac_sha256_of(key: Seq<u8>, message: Seq<u8>) -> Seq<u8>;

/// Standard (padded) Base64 decoding of `text`; `None` where it is not valid Base64.
pub uninterp spec fn base64_decoded(text: Seq<char>) -> Option<Seq<u8>>;

/// Standard (padded) Base64 encoding of `bytes`.
pub uninterp spec fn base64_encoded(bytes: Seq<u8>) -> Seq<char>;

/// Relies on hmac's `Mac::new_from_slice`, `update` and `finalize` over sha2's
/// `Sha256`: HMAC takes a key of any length, so the key setup never fails, and
/// the tag is one SHA-256 digest long.
#[verifier::external_body]
fn hmac_sha256(key: &[u8], message: &[u8]) -> (r: Option<Vec<u8>>)
    ensures
        r is Some,
        r matches Some(tag) ==> tag@ == hmac_sha256_of(key@, message@) && tag@.len() == 32,
{
    let mut mac = match <Hmac<Sha256> as Mac>::new_from_slice(key) {
        Ok(m) => m,
        Err(_) => return None,
    };
    mac.update(message);
    Some(mac.finalize().into_bytes().to_vec())
}

/// Relies on base64's `STANDARD.decode`: the decoded bytes, or an error where
/// the text is not valid padded Base64.
#[verifier::external_body]
fn decode_base64(text: &str) -> (r: Option<Vec<u8>>)
    ensures
        match r {
            Some(bytes) => base64_decoded(text@) == Some(bytes@),
            None => base64_decoded(text@) is None,
        },
{
    general_purpose::STANDARD.decode(text).ok()
}

/// Relies on base64's `STANDARD.encode`: the padded encoding, which
/// `STANDARD.decode` turns back into the same bytes.
#[verifier::external_body]
fn encode_base64(bytes: &[u8]) -> (r: String)
    ensures
        r@ == base64_encoded(bytes@),
        base64_decoded(r@) == Some(bytes@),
{
    general_purpose::STANDARD.encode(bytes)
}

/// A delivery is authentic when the header decodes to the HMAC-SHA256 tag of
/// the raw body under the channel secret.
pub open spec fn signature_valid(secret: Seq<u8>, body: Seq<u8>, header: Seq<char>) -> bool {
    base64_decoded(header) == Some(hmac_sha256_of(secret, body))
}

/// Byte-wise equality of two slices.
fn bytes_equal(a: &[u8], b: &[u8]) -> (r: bool)
    ensures
        r == (a@ == b@),
{
    if a.len() != b.len() {
        return false;
    }
    let mut i: usize = 0;
    while i < a.len()
        invariant
            a@.len() == b@.len(),
            i <= a@.len(),
            forall|j: int| 0 <= j < i ==> a@[j] == b@[j],
        decreases a@.len() - i,
    {
        if a[i] != b[i] {
            return false;
        }
        i = i + 1;
    }
    assert(a@ =~= b@);
    true
}

/// Checks a signature header against the raw request body. Fails closed:
/// a header that is not Base64, or decodes to anything but the expected tag,
/// is rejected.
pub fn verify_signature(channel_secret: &str, body: &[u8], signature_header: &str) -> (r: bool)
    ensures
        r == signature_valid(channel_secret.spec_bytes(), body@, signature_header@),
{
    let expected = match hmac_sha256(channel_secret.as_bytes(), body) {
        Some(tag) => tag,
        None => return false,
    };
    match decode_base64(signature_header) {
        Some(decoded) => bytes_equal(expected.as_slice(), decoded.as_slice()),
        None => false,
    }
}

/// Checks an optional signature header; a missing (or unreadable) header is
/// rejected.
pub fn verify_header(channel_secret: &str, body: &[u8], signature_header: Option<&str>) -> (r: bool)
    ensures
        r == match signature_header {
            Some(h) => signature_valid(channel_secret.spec_bytes(), body@, h@),
            None => false,
        },
{
    match signature_header {
        Some(h) => verify_signature(channel_secret, body, h),
        None => false,
    }
}

/// The header value that signs `body` under `channel_secret`. Every body
/// signed this way passes `verify_signature` under the same secret.
pub fn signature_for(channel_secret: &str, body: &[u8]) -> (r: String)
    ensures
        r@ == base64_encoded(hmac_sha256_of(channel_secret.spec_bytes(), body@)),
        signature_valid(channel_secret.spec_bytes(), body@, r@),
{
    let tag = match hmac_sha256(channel_secret.as_bytes(), body) {
        Some(tag) => tag,
        None => return String::new(),
    };
    encode_base64(tag.as_slice())
}

} // verus!
