//! Content identity of a file: the pair (BLAKE2b-512 digest of the contents,
//! byte size). The digest is rendered as 128 lowercase hex characters and the
//! size as its decimal string; the pair is the key under which passwords are
//! stored and looked up, so it depends on the bytes alone, never on the path.

use blake2::Digest;
use vstd::prelude::*;

use crate::encoding::dec_of;
use crate::encoding::hex_of;
use crate::encoding::lemma_hex_of_len;
use crate::encoding::to_hex_lower;
use crate::encoding::u64_to_decimal;

verus! {

/// The BLAKE2b-512 digest of a byte string: a function of the bytes alone.
pub uninterp spec fn blake2b_of(bytes: Seq<u8>) -> Seq<u8>;

/// Relies on blake2::Blake2b512 (through digest::Digest::digest): the digest
/// is 64 bytes wide and depends only on the input bytes.
#[verifier::external_body]
fn blake2b512(bytes: &Vec<u8>) -> (r: Vec<u8>)
    ensures
        r@ == blake2b_of(bytes@),
        r@.len() == 64,
{
    blake2::Blake2b512::digest(bytes).to_vec()
}

/// The digest half of a file's identity: the BLAKE2b-512 digest of the
/// contents, as lowercase hex.
pub open spec fn digest_of(contents: Seq<u8>) -> Seq<char> {
    hex_of(blake2b_of(contents))
}

/// The size half of a file's identity: the byte count as a decimal string.
pub open spec fn size_str_of(size: nat) -> Seq<char> {
    dec_of(size)
}

/// The content identity of a file: digest and size, both as the strings the
/// store records.
pub struct Fingerprint {
    pub digest: String,
    pub size: String,
}

impl Fingerprint {
    /// The fingerprint is exactly what `fingerprint_of` computes from some
    /// contents and size.
    pub open spec fn matches(self, contents: Seq<u8>, size: nat) -> bool {
        &&& self.digest@ == digest_of(contents)
        &&& self.size@ == size_str_of(size)
    }
}

/// Computes the content identity of a file from its bytes and its metadata
/// byte count. The digest is 128 lowercase hex characters of the BLAKE2b-512
/// digest; the size is the count's decimal string.
pub fn fingerprint_of(contents: &Vec<u8>, size: u64) -> (r: Fingerprint)
    ensures
        r.matches(contents@, size as nat),
        r.digest@.len() == 128,
{
    let digest_bytes = blake2b512(contents);
    let digest = to_hex_lower(&digest_bytes);
    proof {
        lemma_hex_of_len(blake2b_of(contents@));
    }
    let size_text = u64_to_decimal(size);
    Fingerprint { digest, size: size_text }
}

/// Fingerprinting is deterministic: two fingerprints taken from the same
/// bytes and the same byte count are identical, whether in one run or across
/// runs.
pub proof fn lemma_fingerprint_deterministic(a: Seq<u8>, b: Seq<u8>, na: nat, nb: nat)
    requires
        a == b,
        na == nb,
    ensures
        digest_of(a) == digest_of(b),
        size_str_of(na) == size_str_of(nb),
{
}

/// A file's identity is independent of its path: the digest and size are
/// functions of the contents and byte count alone, so a byte-for-byte copy
/// under any other name has the same identity.
pub proof fn lemma_identity_independent_of_path(fp: Fingerprint, contents: Seq<u8>, size: nat, copy: Seq<u8>)
    requires
        fp.matches(contents, size),
        copy == contents,
    ensures
        fp.matches(copy, size),
{
}

} // verus!
