use vstd::prelude::*;

verus! {

use vstd::string::{is_ascii, StringSliceAdditionalSpecFns};
use vstd::utf8::is_ascii_chars;

/// The lowercase hexadecimal rendering of the BLAKE3 digest of `data`:
/// named, not stated, since the digest is a function of the input alone.
pub uninterp spec fn blake3_hex(data: Seq<u8>) -> Seq<char>;

/// The lowercase hexadecimal rendering of the keyed BLAKE3 digest of `data`
/// under the 32-byte key `key`.
pub uninterp spec fn blake3_keyed_hex(key: Seq<u8>, data: Seq<u8>) -> Seq<char>;

/// A lowercase hexadecimal digit.
pub open spec fn is_hex_char(c: char) -> bool {
    ('0' <= c && c <= '9') || ('a' <= c && c <= 'f')
}

/// Every character of `s` is a lowercase hexadecimal digit.
pub open spec fn all_hex(s: Seq<char>) -> bool {
    forall|i: int| 0 <= i < s.len() ==> is_hex_char(#[trigger] s[i])
}

/// The UTF-8 bytes of an ASCII character sequence, character for character.
pub open spec fn ascii_bytes(s: Seq<char>) -> Seq<u8> {
    Seq::new(s.len(), |i: int| s[i] as u8)
}

/// Relies on blake3::hash and blake3::Hash::to_hex: the 32-byte digest of
/// the input, rendered as 64 lowercase hexadecimal characters; a function
/// of the input bytes alone.
#[verifier::external_body]
pub(crate) fn blake3_hash_hex(data: &[u8]) -> (r: String)
    ensures
        r@ == blake3_hex(data@),
        r@.len() == 64,
        all_hex(r@),
{
    blake3::hash(data).to_hex().as_str().to_string()
}

/// Relies on blake3::keyed_hash and blake3::Hash::to_hex: the 32-byte keyed
/// digest of the input under the given 32-byte key, rendered as 64 lowercase
/// hexadecimal characters; a function of key and input alone.
#[verifier::external_body]
fn blake3_keyed_hash_hex(key: &[u8; 32], data: &[u8]) -> (r: String)
    ensures
        r@ == blake3_keyed_hex(key@, data@),
        r@.len() == 64,
        all_hex(r@),
{
    blake3::keyed_hash(key, data).to_hex().as_str().to_string()
}

/// The full environment hash: 64 lowercase hex characters.
pub open spec fn env_hash_hex(env: &str) -> Seq<char> {
    blake3_hex(env.spec_bytes())
}

/// The derived database (and role) name: the first 63 characters of the
/// environment hash, the longest prefix a database identifier can hold.
pub open spec fn spec_db_name(env: &str) -> Seq<char> {
    env_hash_hex(env).take(63)
}

/// The derived role password: the keyed hash of the hex rendering of the
/// environment hash.
pub open spec fn spec_db_password(env: &str, key: Seq<u8>) -> Seq<char> {
    blake3_keyed_hex(key, ascii_bytes(env_hash_hex(env)))
}

/// The identity an environment maps to: a database/role name of 63 hex
/// characters and a password of 64 hex characters. Derived on each request,
/// never stored.
pub struct EnvironmentIdentity {
    pub db_name: String,
    pub db_password: String,
}

/// Derives the per-environment database identity from the environment text
/// and the process-wide 32-byte password-hash key.
pub fn derive_identity(environment: &str, key: &[u8; 32]) -> (r: EnvironmentIdentity)
    ensures
        r.db_name@ == spec_db_name(environment),
        r.db_password@ == spec_db_password(environment, key@),
        r.db_name@.len() == 63,
        r.db_password@.len() == 64,
        all_hex(r.db_name@),
        all_hex(r.db_password@),
{
    let h = blake3_hash_hex(environment.as_bytes());
    let hs = h.as_str();
    let db_name = hs.substring_char(0, 63).to_owned();
    proof {
        assert(db_name@ =~= spec_db_name(environment));
        assert(is_ascii_chars(hs@)) by {
            assert(forall|i: int| 0 <= i < hs@.len() ==> is_hex_char(#[trigger] hs@[i]));
        }
        broadcast use vstd::string::is_ascii_spec_bytes;

        assert(is_ascii(hs));
        assert(hs.spec_bytes() =~= ascii_bytes(env_hash_hex(environment)));
    }
    let hash_bytes = hs.as_bytes();
    let db_password = blake3_keyed_hash_hex(key, hash_bytes);
    EnvironmentIdentity { db_name, db_password }
}

/// Identity derivation is a pure function of the environment text: two
/// textually equal environments derive the same database name and password.
pub proof fn lemma_identity_deterministic(e1: &str, e2: &str, key: Seq<u8>)
    requires
        e1@ == e2@,
    ensures
        spec_db_name(e1) == spec_db_name(e2),
        spec_db_password(e1, key) == spec_db_password(e2, key),
{
    assert(e1.spec_bytes() == e2.spec_bytes());
}

} // verus!
