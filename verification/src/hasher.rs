//! The credential hasher: SHA-256 over password and salt, written in
//! lowercase hexadecimal.

use crate::token::{is_uuid_text, random_uuid};
use vstd::prelude::*;
use vstd::string::*;
use vstd::utf8::*;

verus! {

/// The SHA-256 digest of a byte string.
pub uninterp spec fn sha256(data: Seq<u8>) -> Seq<u8>;

/// The sixteen lowercase hexadecimal digits, in order.
pub open spec fn hex_digits() -> Seq<char> {
    seq!['0', '1', '2', '3', '4', '5', '6', '7', '8', '9', 'a', 'b', 'c', 'd', 'e', 'f']
}

/// The character at place `i` of the hexadecimal text of `bytes`: the high
/// half of a byte comes first, then its low half.
pub open spec fn hex_char_at(bytes: Seq<u8>, i: int) -> char {
    if i % 2 == 0 {
        hex_digits()[bytes[i / 2] as int / 16]
    } else {
        hex_digits()[bytes[i / 2] as int % 16]
    }
}

/// The lowercase hexadecimal text of `bytes`, two characters for each byte.
pub open spec fn hex_string(bytes: Seq<u8>) -> Seq<char> {
    Seq::new(2 * bytes.len(), |i: int| hex_char_at(bytes, i))
}

/// What is stored for a password: the hexadecimal text of the SHA-256 digest
/// of the UTF-8 bytes of the password followed by the salt.
pub open spec fn password_hash(password: Seq<char>, salt: Seq<char>) -> Seq<char> {
    hex_string(sha256(encode_utf8(password + salt)))
}

/// Runs the `sha2` crate's `Sha256` hasher over `data` (`new`, one `update`,
/// `finalize`).  The digest itself is not spelled out here: the contract
/// gives it the name `sha256` and states only that it is 32 bytes long,
/// which is the hasher's fixed output size.
#[verifier::external_body]
fn sha256_digest(data: &[u8]) -> (digest: Vec<u8>)
    ensures
        digest@ == sha256(data@),
        digest@.len() == 32,
{
    let mut hasher = <sha2::Sha256 as sha2::Digest>::new();
    sha2::Digest::update(&mut hasher, data);
    sha2::Digest::finalize(hasher).to_vec()
}

/// Calls `hex::encode`.  The crate documents it as the lowercase
/// hexadecimal text of its argument, two characters per byte with the high
/// half first; the contract states exactly that.
#[verifier::external_body]
fn hex_encode(data: &[u8]) -> (text: String)
    ensures
        text@ == hex_string(data@),
{
    hex::encode(data)
}

/// The lowercase hexadecimal text of a digest.
pub fn encode_digest(digest: &[u8]) -> (text: String)
    ensures
        text@ == hex_string(digest@),
        text@.len() == 2 * digest@.len(),
{
    hex_encode(digest)
}

/// A fresh random salt.
pub fn new_salt() -> (salt: String)
    ensures
        is_uuid_text(salt@),
{
    random_uuid()
}

/// Hashes `password` with `salt`.  Defined for all inputs, the empty
/// password included, and sensitive to the order of its arguments only
/// through the concatenation `password + salt`.
pub fn hash_password(password: &str, salt: &str) -> (hashed: String)
    ensures
        hashed@ == password_hash(password@, salt@),
        hashed@.len() == 64,
{
    let mut salted = String::from_str(password);
    salted.append(salt);
    let digest = sha256_digest(salted.as_str().as_bytes());
    encode_digest(digest.as_slice())
}

} // verus!
