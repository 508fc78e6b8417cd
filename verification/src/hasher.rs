//! The path hash of a broadcast.

use vstd::prelude::*;
use vstd::string::*;
use crypto::digest::Digest;
use crypto::sha1::Sha1;
use crate::text::{decimal, push_decimal};

verus! {

/// How many hex characters of the digest a storage path holds.
pub const HASH_LEN: usize = 20;

/// The SHA-1 digest of the UTF-8 bytes of a text, as forty lower-case hex
/// characters.
pub uninterp spec fn sha1_hex(input: Seq<char>) -> Seq<char>;

/// The text that is digested for a broadcast: `{username}_{id}_{timestamp}`.
pub open spec fn identity_key_spec(username: Seq<char>, broadcast_id: int, timestamp: int) -> Seq<
    char,
> {
    username + seq!['_'] + decimal(broadcast_id) + seq!['_'] + decimal(timestamp)
}

/// The first `HASH_LEN` characters of a digest, or all of it where it is
/// shorter.
pub open spec fn truncate_spec(hex: Seq<char>) -> Seq<char> {
    if hex.len() <= 20 {
        hex
    } else {
        hex.subrange(0, 20)
    }
}

/// The path hash of a broadcast.
pub open spec fn hash_spec(username: Seq<char>, broadcast_id: int, timestamp: int) -> Seq<char> {
    truncate_spec(sha1_hex(identity_key_spec(username, broadcast_id, timestamp)))
}

/// Feeds `input` to a fresh `crypto::sha1::Sha1` through `Digest::input_str`
/// and reads the digest back with `Digest::result_str`. Trusted: the result is
/// the digest of the text, a function of the text alone, and it is forty
/// characters long (twenty bytes, two hex characters each).
#[verifier::external_body]
fn sha1_hex_digest(input: &str) -> (r: String)
    ensures
        r@ == sha1_hex(input@),
        r@.len() == 40,
{
    let mut hasher = Sha1::new();
    hasher.input_str(input);
    hasher.result_str()
}

/// Builds the text that is digested for a broadcast.
pub fn identity_key(username: &str, broadcast_id: i64, timestamp: i64) -> (r: String)
    ensures
        r@ == identity_key_spec(username@, broadcast_id as int, timestamp as int),
{
    proof {
        reveal_strlit("_");
    }
    let mut key = String::from_str(username);
    key.append("_");
    push_decimal(&mut key, broadcast_id);
    key.append("_");
    push_decimal(&mut key, timestamp);
    assert(key@ =~= identity_key_spec(username@, broadcast_id as int, timestamp as int));
    key
}

/// Cuts a digest down to the part that a storage path holds.
pub fn truncate_hash(hex: &str) -> (r: String)
    ensures
        r@ == truncate_spec(hex@),
{
    let n: usize = hex.unicode_len();
    if n <= HASH_LEN {
        String::from_str(hex)
    } else {
        String::from_str(hex.substring_char(0, HASH_LEN))
    }
}

/// Computes the path hash of a broadcast: the first twenty hex characters of
/// the SHA-1 digest of `{username}_{broadcast_id}_{timestamp}`.
pub fn hash(username: &str, broadcast_id: i64, timestamp: i64) -> (r: String)
    ensures
        r@ == hash_spec(username@, broadcast_id as int, timestamp as int),
        r@.len() == 20,
{
    let key = identity_key(username, broadcast_id, timestamp);
    let hex = sha1_hex_digest(key.as_str());
    truncate_hash(hex.as_str())
}

} // verus!
