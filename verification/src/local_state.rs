use vstd::prelude::*;
use vstd::string::*;
use base64::Engine;
use base64::engine::general_purpose;

verus! {

/// The string at `os_crypt.encrypted_key` of a JSON document, when the
/// document parses and that path holds a string. Left uninterpreted; what a
/// document means is serde_json's definition.
pub uninterp spec fn local_state_encrypted_key(doc: Seq<char>) -> Option<Seq<char>>;

/// Relies on serde_json's `from_str`, `Value::get` and `Value::as_str`: the
/// string at `os_crypt.encrypted_key` depends on the document alone.
#[verifier::external_body]
fn json_encrypted_key(doc: &str) -> (r: Option<String>)
    ensures
        r matches Some(s) ==> local_state_encrypted_key(doc@) == Some(s@),
        r is None ==> local_state_encrypted_key(doc@) is None,
{
    let v: serde_json::Value = serde_json::from_str(doc).ok()?;
    Some(v.get("os_crypt")?.get("encrypted_key")?.as_str()?.to_owned())
}

/// What base64's standard-alphabet decode yields for a string: the decoded
/// bytes, or `None` on malformed input. Left uninterpreted; the encoding's
/// definition is the base64 crate's.
pub uninterp spec fn base64_decoded(s: Seq<char>) -> Option<Seq<u8>>;

/// Relies on base64's `Engine::decode` with the `STANDARD` engine: the
/// decoded bytes depend on the input characters alone.
#[verifier::external_body]
fn b64_decode(s: &str) -> (r: Option<Vec<u8>>)
    ensures
        r matches Some(b) ==> base64_decoded(s@) == Some(b@),
        r is None ==> base64_decoded(s@) is None,
{
    general_purpose::STANDARD.decode(s).ok()
}

/// The wrapped master key carried by a state-file document: the base64
/// decode of the string at `os_crypt.encrypted_key`, without its five
/// vendor-prefix bytes; `None` when the document, the path, the encoding or
/// the decoded length is wrong.
pub open spec fn wrapped_key_of(doc: Seq<char>) -> Option<Seq<u8>> {
    match local_state_encrypted_key(doc) {
        None => None,
        Some(k) => match base64_decoded(k) {
            None => None,
            Some(b) => if b.len() >= 5 {
                Some(b.subrange(5, b.len() as int))
            } else {
                None
            },
        },
    }
}

/// Extracts the still-wrapped master key from the text of an installation's
/// state file: the base64 string at `os_crypt.encrypted_key`, decoded, with
/// the 5-byte vendor prefix stripped. The host-bound unwrap primitive must
/// then turn the result into the raw master key; that call happens outside
/// this library.
pub fn parse_local_state(doc: &str) -> (r: Result<Vec<u8>, String>)
    ensures
        match r {
            Ok(b) => wrapped_key_of(doc@) == Some(b@),
            Err(_) => wrapped_key_of(doc@) is None,
        },
{
    let encoded = match json_encrypted_key(doc) {
        Some(s) => s,
        None => {
            return Err("Failed to get encoded key from Local State.".to_owned());
        },
    };
    let decoded = match b64_decode(encoded.as_str()) {
        Some(b) => b,
        None => {
            return Err("Failed to decode the encoded key as base64.".to_owned());
        },
    };
    if decoded.len() < 5 {
        return Err("The decoded key is too short.".to_owned());
    }
    let mut out: Vec<u8> = Vec::new();
    let mut i: usize = 5;
    while i < decoded.len()
        invariant
            5 <= i <= decoded@.len(),
            out@ == decoded@.subrange(5, i as int),
        decreases decoded@.len() - i,
    {
        out.push(decoded[i]);
        assert(out@ =~= decoded@.subrange(5, i + 1));
        i = i + 1;
    }
    assert(out@ =~= decoded@.subrange(5, decoded@.len() as int));
    Ok(out)
}

} // verus!
