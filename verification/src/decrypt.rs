use vstd::prelude::*;
use vstd::string::*;
use vstd::utf8::{valid_utf8, decode_utf8, encode_utf8};
use aes_gcm::aead::Aead;
use aes_gcm::{Aes256Gcm, KeyInit};
use crate::error::ExporterError;

verus! {

/// What AES-256-GCM decryption yields for a key, a nonce and a ciphertext
/// (the ciphertext carries its trailing authentication tag): the plaintext,
/// or `None` on authentication failure. Left uninterpreted; the cipher's
/// definition is the aes_gcm crate's.
pub uninterp spec fn aead_open(key: Seq<u8>, nonce: Seq<u8>, ct: Seq<u8>) -> Option<Seq<u8>>;

/// Relies on aes_gcm's `Aes256Gcm` (`KeyInit::new_from_slice`,
/// `Aead::decrypt`): the plaintext, or the failure, depends on key, nonce
/// and ciphertext alone.
#[verifier::external_body]
fn aes256_gcm_open(key: &[u8], nonce: &[u8], ct: &[u8]) -> (r: Option<Vec<u8>>)
    requires
        key@.len() == 32,
        nonce@.len() == 12,
    ensures
        r matches Some(p) ==> aead_open(key@, nonce@, ct@) == Some(p@),
        r is None ==> aead_open(key@, nonce@, ct@) is None,
{
    let cipher = Aes256Gcm::new_from_slice(key).expect("key length is checked");
    let n = aes_gcm::aead::Nonce::<Aes256Gcm>::try_from(nonce).expect("nonce length is checked");
    cipher.decrypt(&n, ct).ok()
}

/// Relies on aes_gcm's `Aead::encrypt`: the ciphertext it returns carries a
/// 16-byte trailing tag and opens back to the plaintext under the same key
/// and nonce.
#[verifier::external_body]
fn aes256_gcm_seal(key: &[u8], nonce: &[u8], pt: &[u8]) -> (r: Vec<u8>)
    requires
        key@.len() == 32,
        nonce@.len() == 12,
        pt@.len() < 0x1000_0000,
    ensures
        r@.len() == pt@.len() + 16,
        aead_open(key@, nonce@, r@) == Some(pt@),
{
    let cipher = Aes256Gcm::new_from_slice(key).expect("key length is checked");
    let n = aes_gcm::aead::Nonce::<Aes256Gcm>::try_from(nonce).expect("nonce length is checked");
    cipher.encrypt(&n, pt).expect("plaintext length is checked")
}

/// Relies on std's `String::from_utf8`; vstd's UTF-8 model says what it
/// returns.
#[verifier::external_body]
fn string_from_utf8(b: Vec<u8>) -> (r: Option<String>)
    ensures
        r matches Some(s) ==> valid_utf8(b@) && s@ == decode_utf8(b@),
        r is None ==> !valid_utf8(b@),
{
    String::from_utf8(b).ok()
}

/// The fixed placeholder a failed decryption yields in place of text.
pub open spec fn placeholder_text() -> Seq<char> {
    "FAILED_TO_DECRYPT"@
}

/// The fixed placeholder a failed decryption yields in place of text.
pub fn decrypt_placeholder() -> (s: String)
    ensures
        s@ == placeholder_text(),
{
    "FAILED_TO_DECRYPT".to_owned()
}

/// The text the master-key scheme yields for a protected value: bytes
/// [3, 15) are the nonce, bytes [15, ..) the ciphertext and tag; the AEAD
/// plaintext read as UTF-8 when the buffer is well formed and authentic,
/// the placeholder on any failure.
pub open spec fn aead_value_text(key: Seq<u8>, value: Seq<u8>) -> Seq<char> {
    if key.len() != 32 || value.len() < 15 {
        placeholder_text()
    } else {
        match aead_open(key, value.subrange(3, 15), value.subrange(15, value.len() as int)) {
            Some(pt) => if valid_utf8(pt) {
                decode_utf8(pt)
            } else {
                placeholder_text()
            },
            None => placeholder_text(),
        }
    }
}

/// Decrypts one protected value with the AES-256-GCM master-key scheme.
/// The three leading version-tag bytes are not inspected; only the AEAD
/// authentication decides.
pub fn aes_gcm_256(key_buf: &[u8], pwd_buf: Vec<u8>) -> (r: Result<String, ExporterError>)
    requires
        key_buf@.len() == 32,
        pwd_buf@.len() >= 15,
    ensures
        ({
            let opened = aead_open(
                key_buf@,
                pwd_buf@.subrange(3, 15),
                pwd_buf@.subrange(15, pwd_buf@.len() as int),
            );
            match r {
                Ok(s) => opened matches Some(pt) && valid_utf8(pt) && s@ == decode_utf8(pt),
                Err(_) => opened is None || (opened matches Some(pt) && !valid_utf8(pt)),
            }
        }),
{
    let s = pwd_buf.as_slice();
    let nonce = vstd::slice::slice_subrange(s, 3, 15);
    let ct = vstd::slice::slice_subrange(s, 15, pwd_buf.len());
    match aes256_gcm_open(key_buf, nonce, ct) {
        Some(pt) => match string_from_utf8(pt) {
            Some(txt) => Ok(txt),
            None => Err(ExporterError::IO("Failed to decode plaintext as UTF-8".to_owned())),
        },
        None => Err(ExporterError::IO("Failed to decrypt AES256".to_owned())),
    }
}

/// The outcome of `decrypt_value`: decrypted text, or the raw bytes that
/// only the host-bound unwrap primitive can decrypt (the legacy per-value
/// scheme, performed outside this library).
#[derive(Debug, Clone)]
pub enum DecryptedValue {
    Text(String),
    NeedsOsUnwrap(Vec<u8>),
}

/// The single decrypt entry point. With a master key the value is opened
/// under the AES-256-GCM scheme, and any failure — a malformed buffer, an
/// inauthentic ciphertext, a plaintext that is not UTF-8 — yields the fixed
/// placeholder, never an error. With no master key the value is handed back
/// untouched for the caller to submit to the host-bound unwrap primitive;
/// `finish_os_unwrap` turns the primitive's answer into text.
pub fn decrypt_value(master_key: Option<Vec<u8>>, value: Vec<u8>) -> (r: DecryptedValue)
    ensures
        match master_key {
            Some(k) => r matches DecryptedValue::Text(s) && s@ == aead_value_text(k@, value@),
            None => r matches DecryptedValue::NeedsOsUnwrap(b) && b@ == value@,
        },
{
    match master_key {
        None => DecryptedValue::NeedsOsUnwrap(value),
        Some(mk) => {
            if mk.len() != 32 || value.len() < 15 {
                DecryptedValue::Text(decrypt_placeholder())
            } else {
                match aes_gcm_256(mk.as_slice(), value) {
                    Ok(s) => DecryptedValue::Text(s),
                    Err(_) => DecryptedValue::Text(decrypt_placeholder()),
                }
            }
        },
    }
}

/// The text of the legacy scheme once the host-bound unwrap primitive has
/// answered: its output read as UTF-8, the fixed placeholder when the
/// primitive declined or its output is not UTF-8.
pub fn finish_os_unwrap(unwrapped: Option<Vec<u8>>) -> (r: String)
    ensures
        match unwrapped {
            Some(b) => r@ == if valid_utf8(b@) {
                decode_utf8(b@)
            } else {
                placeholder_text()
            },
            None => r@ == placeholder_text(),
        },
{
    match unwrapped {
        Some(b) => match string_from_utf8(b) {
            Some(txt) => txt,
            None => decrypt_placeholder(),
        },
        None => decrypt_placeholder(),
    }
}

/// Builds a protected value of the master-key scheme — a 3-byte version
/// tag, a 12-byte nonce, then the sealed plaintext — and promises the round
/// trip: decrypting the result with the same key yields the plaintext.
pub fn seal_protected(key: &[u8], tag: &[u8], nonce: &[u8], plaintext: &str) -> (r: Vec<u8>)
    requires
        key@.len() == 32,
        tag@.len() == 3,
        nonce@.len() == 12,
        encode_utf8(plaintext@).len() < 0x1000_0000,
    ensures
        r@.len() == encode_utf8(plaintext@).len() + 31,
        aead_value_text(key@, r@) == plaintext@,
{
    broadcast use vstd::utf8::encode_utf8_valid_utf8, vstd::utf8::encode_utf8_decode_utf8;

    let bytes = plaintext.as_bytes();
    let ct = aes256_gcm_seal(key, nonce, bytes);
    let mut r: Vec<u8> = Vec::new();
    let mut i: usize = 0;
    while i < tag.len()
        invariant
            i <= tag@.len(),
            r@ == tag@.subrange(0, i as int),
        decreases tag@.len() - i,
    {
        r.push(tag[i]);
        assert(r@ =~= tag@.subrange(0, i + 1));
        i = i + 1;
    }
    assert(r@ =~= tag@);
    let mut j: usize = 0;
    while j < nonce.len()
        invariant
            j <= nonce@.len(),
            r@ == tag@ + nonce@.subrange(0, j as int),
        decreases nonce@.len() - j,
    {
        r.push(nonce[j]);
        assert(r@ =~= tag@ + nonce@.subrange(0, j + 1));
        j = j + 1;
    }
    assert(r@ =~= tag@ + nonce@);
    let mut k: usize = 0;
    while k < ct.len()
        invariant
            k <= ct@.len(),
            r@ == tag@ + nonce@ + ct@.subrange(0, k as int),
        decreases ct@.len() - k,
    {
        r.push(ct[k]);
        assert(r@ =~= tag@ + nonce@ + ct@.subrange(0, k + 1));
        k = k + 1;
    }
    assert(r@ =~= tag@ + nonce@ + ct@);
    proof {
        lemma_decrypt_round_trip(key@, tag@, nonce@, ct@, plaintext@);
    }
    r
}

/// Round trip of the master-key scheme: a protected buffer assembled from
/// any 3-byte version tag, a 12-byte nonce and an authentic ciphertext of a
/// UTF-8 plaintext decrypts to exactly that plaintext.
pub proof fn lemma_decrypt_round_trip(
    key: Seq<u8>,
    tag: Seq<u8>,
    nonce: Seq<u8>,
    ct: Seq<u8>,
    pt: Seq<char>,
)
    requires
        key.len() == 32,
        tag.len() == 3,
        nonce.len() == 12,
        aead_open(key, nonce, ct) == Some(encode_utf8(pt)),
    ensures
        aead_value_text(key, tag + nonce + ct) == pt,
{
    broadcast use vstd::utf8::encode_utf8_valid_utf8, vstd::utf8::encode_utf8_decode_utf8;

    let buf = tag + nonce + ct;
    assert(buf.subrange(3, 15) =~= nonce);
    assert(buf.subrange(15, buf.len() as int) =~= ct);
}

/// Totality of the rejection path: a buffer shorter than 15 bytes, or one
/// whose ciphertext fails authentication under the key, yields the fixed
/// placeholder — decryption never fails outward.
pub proof fn lemma_decrypt_rejects(key: Seq<u8>, value: Seq<u8>)
    requires
        value.len() < 15 || aead_open(
            key,
            value.subrange(3, 15),
            value.subrange(15, value.len() as int),
        ) is None,
    ensures
        aead_value_text(key, value) == placeholder_text(),
{
}

} // verus!
