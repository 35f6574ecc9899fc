//! The identity hasher: a stable content fingerprint for a canonical item,
//! computed from the item's display name alone. An empty name yields a
//! sentinel string instead of a hash.
use vstd::prelude::*;
use vstd::string::StringExecFns;

verus! {

/// What `sha2::Sha256::digest` returns for the UTF-8 bytes of a string:
/// a function of the characters alone, stable across runs and platforms.
pub uninterp spec fn sha256_of(s: Seq<char>) -> Seq<u8>;

/// The lowercase hexadecimal digit for a nibble value.
pub open spec fn hex_digit(n: u8) -> char
    recommends
        n < 16,
{
    if n == 0 {
        '0'
    } else if n == 1 {
        '1'
    } else if n == 2 {
        '2'
    } else if n == 3 {
        '3'
    } else if n == 4 {
        '4'
    } else if n == 5 {
        '5'
    } else if n == 6 {
        '6'
    } else if n == 7 {
        '7'
    } else if n == 8 {
        '8'
    } else if n == 9 {
        '9'
    } else if n == 10 {
        'a'
    } else if n == 11 {
        'b'
    } else if n == 12 {
        'c'
    } else if n == 13 {
        'd'
    } else if n == 14 {
        'e'
    } else {
        'f'
    }
}

/// Lowercase hex encoding of a byte sequence: two digits per byte, high
/// nibble first, no separators.
pub open spec fn hex_of(b: Seq<u8>) -> Seq<char>
    decreases b.len(),
{
    if b.len() == 0 {
        Seq::empty()
    } else {
        hex_of(b.drop_last()) + seq![
            hex_digit((b.last() / 16) as u8),
            hex_digit((b.last() % 16) as u8),
        ]
    }
}

/// A hex encoding is exactly twice as long as its input.
pub proof fn lemma_hex_of_len(b: Seq<u8>)
    ensures
        hex_of(b).len() == 2 * b.len(),
    decreases b.len(),
{
    if b.len() > 0 {
        lemma_hex_of_len(b.drop_last());
    }
}

/// The sentinel identity of an item whose display name is empty.
pub open spec fn sentinel_identity() -> Seq<char> {
    "NO TITLE, NO HASH ID"@
}

/// The identity of an item as a function of its display name alone: the
/// sentinel for the empty name, otherwise the lowercase hex encoding of
/// the name's SHA-256 digest.
pub open spec fn spec_identity(name: Seq<char>) -> Seq<char> {
    if name.len() == 0 {
        sentinel_identity()
    } else {
        hex_of(sha256_of(name))
    }
}

/// Relies on `sha2::Sha256::digest`: the SHA-256 digest of the argument's
/// UTF-8 bytes, 32 bytes long, determined by the characters alone.
#[verifier::external_body]
fn sha256_digest(s: &str) -> (r: Vec<u8>)
    ensures
        r@ == sha256_of(s@),
        r@.len() == 32,
{
    <sha2::Sha256 as sha2::Digest>::digest(s.as_bytes()).to_vec()
}

/// Relies on `hex::encode`: encodes bytes as a lowercase hex string, two
/// digits per byte, high nibble first.
#[verifier::external_body]
fn hex_lower(bytes: &Vec<u8>) -> (r: String)
    ensures
        r@ == hex_of(bytes@),
{
    hex::encode(bytes)
}

/// The identity is deterministic: equal names always carry equal
/// identities, across items, adapters and runs. This is what makes the
/// identity usable as the cross-system join key.
pub proof fn lemma_identity_deterministic(name1: Seq<char>, name2: Seq<char>)
    requires
        name1 == name2,
    ensures
        spec_identity(name1) == spec_identity(name2),
{
}

/// Computes the identity fingerprint of a display name. Deterministic:
/// the result is a pure function of `name`, so any two calls on equal
/// names return equal strings. A non-empty name always yields the
/// fixed-length 64-digit hex form, which is never the (shorter)
/// sentinel: the sentinel marks "unhashable" and is not a real hash.
pub fn hash_name(name: &str) -> (r: String)
    ensures
        r@ == spec_identity(name@),
        name@.len() > 0 ==> r@.len() == 64 && r@ != sentinel_identity(),
{
    if name.is_empty() {
        String::from_str("NO TITLE, NO HASH ID")
    } else {
        let digest = sha256_digest(name);
        proof {
            lemma_hex_of_len(digest@);
            reveal_strlit("NO TITLE, NO HASH ID");
        }
        hex_lower(&digest)
    }
}

} // verus!
