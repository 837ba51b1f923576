//! Commitment digests: the one-way binding of a `(move, salt)` pair.
//!
//! A commitment is the SHA-256 digest of a single move byte followed by the
//! raw salt bytes, with no delimiter. Both the digest algorithm and this byte
//! layout are fixed ahead of time; any mismatch breaks verification.

use vstd::prelude::*;
use vstd::string::StrSliceExecFns;

verus! {

/// The SHA-256 digest of a byte sequence, named abstractly. The digest is a
/// pure function of the input bytes alone, so the name is well defined; its
/// value on given bytes is only ever learned by running the hash.
pub uninterp spec fn sha256_of(bytes: Seq<u8>) -> Seq<u8>;

/// The exact preimage a commitment binds: one move byte, then the salt's
/// UTF-8 bytes, no delimiter.
pub open spec fn commit_preimage(mv: u8, salt: Seq<char>) -> Seq<u8> {
    seq![mv] + vstd::utf8::encode_utf8(salt)
}

/// Whether a stored commitment matches a revealed `(move, salt)` pair.
pub open spec fn commitment_matches(commitment: Seq<u8>, mv: u8, salt: Seq<char>) -> bool {
    commitment == sha256_of(commit_preimage(mv, salt))
}

/// Relies on sha2::Sha256 (via the Digest trait): the digest depends on the
/// input bytes alone, and Sha256's output size is 32 bytes.
#[verifier::external_body]
fn sha256(bytes: &Vec<u8>) -> (r: Vec<u8>)
    ensures
        r@ == sha256_of(bytes@),
        r@.len() == 32,
{
    let mut hasher = <sha2::Sha256 as sha2::Digest>::new();
    sha2::Digest::update(&mut hasher, bytes.as_slice());
    let digest = sha2::Digest::finalize(hasher);
    digest.to_vec()
}

/// Recompute the commitment digest for a revealed `(move, salt)` pair.
pub fn commitment_digest(mv: u8, salt: &str) -> (r: Vec<u8>)
    ensures
        r@ == sha256_of(commit_preimage(mv, salt@)),
        r@.len() == 32,
{
    let mut buf: Vec<u8> = Vec::new();
    buf.push(mv);
    let mut salt_bytes: Vec<u8> = salt.as_bytes_vec();
    buf.append(&mut salt_bytes);
    sha256(&buf)
}

/// Byte-for-byte equality of two byte vectors.
pub fn bytes_eq(a: &Vec<u8>, b: &Vec<u8>) -> (r: bool)
    ensures
        r == (a@ == b@),
{
    let r = a == b;
    proof {
        if r {
            assert(a@ =~= b@);
        }
    }
    r
}

} // verus!
