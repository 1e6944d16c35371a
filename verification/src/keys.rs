//! Classification of operator-entered private keys.
//!
//! A private key is accepted in two written forms: a JSON array of bytes, or
//! a base58 string. Which form was entered decides how the signer is built;
//! the decision is made here, the cryptography stays outside the library.

use vstd::prelude::*;

verus! {

/// What `serde_json` decodes the given text to, when read as a JSON array
/// of bytes: a function of the text alone.
pub uninterp spec fn json_byte_vec(s: Seq<char>) -> Option<Seq<u8>>;

/// Relies on `serde_json::from_str::<Vec<u8>>`: decoding is a deterministic
/// function of the input text; a failed decode is reported, not a panic.
#[verifier::external_body]
fn parse_json_bytes(s: &str) -> (r: Option<Vec<u8>>)
    ensures
        r.deep_view() == json_byte_vec(s@),
{
    serde_json::from_str::<Vec<u8>>(s).ok()
}

/// A private key as the operator wrote it, classified by form.
#[derive(Clone, PartialEq, Eq, Debug)]
pub enum PrivateKey {
    /// The key was a JSON array of bytes.
    JsonBytes(Vec<u8>),
    /// Any other text is taken as a base58 encoding.
    Base58(String),
}

/// What the login and signup screens carry: the key material the signer is
/// built from.
#[derive(Clone, PartialEq, Eq, Debug)]
pub struct Credentials {
    pub private_key: String,
}

/// Decides which written form the entered key takes: the byte form exactly
/// when the text decodes as a JSON array of bytes, the base58 form with the
/// text kept as it is otherwise.
pub fn classify_private_key(s: &str) -> (r: PrivateKey)
    ensures
        match json_byte_vec(s@) {
            Some(bs) => r matches PrivateKey::JsonBytes(v) && v.deep_view() == bs,
            None => r matches PrivateKey::Base58(t) && t@ == s@,
        },
{
    match parse_json_bytes(s) {
        Some(bytes) => PrivateKey::JsonBytes(bytes),
        None => PrivateKey::Base58(s.to_string()),
    }
}

} // verus!
