use blake2::Digest;
use vstd::prelude::*;

verus! {

/// The BLAKE2b-512 digest of a byte sequence.
pub uninterp spec fn blake2b512_of(bytes: Seq<u8>) -> Seq<u8>;

/// The number of bytes in a digest.
pub const DIGEST_LEN: usize = 64;

/// Relies on blake2::Blake2b512 through digest::Digest::digest: the 64-byte
/// BLAKE2b-512 hash of the whole input.
#[verifier::external_body]
fn blake2b512(bytes: &[u8]) -> (r: Vec<u8>)
    ensures
        r@ == blake2b512_of(bytes@),
        r@.len() == DIGEST_LEN,
{
    blake2::Blake2b512::digest(bytes).to_vec()
}

/// The digest of a file's complete content.
pub fn content_digest(bytes: &[u8]) -> (r: Vec<u8>)
    ensures
        r@ == blake2b512_of(bytes@),
        r@.len() == DIGEST_LEN,
{
    blake2b512(bytes)
}

/// Byte-for-byte equality of two digests.
pub fn digests_equal(a: &[u8], b: &[u8]) -> (r: bool)
    ensures
        r == (a@ == b@),
{
    if a.len() != b.len() {
        return false;
    }
    let mut i: usize = 0;
    while i < a.len()
        invariant
            a@.len() == b@.len(),
            i <= a@.len(),
            forall|j: int| 0 <= j < i ==> a@[j] == b@[j],
        decreases a@.len() - i,
    {
        if a[i] != b[i] {
            return false;
        }
        i = i + 1;
    }
    assert(a@ =~= b@);
    true
}

/// A byte-correct copy has the same digest as its source: the digest
/// depends on the content alone, not on where the content is stored.
pub proof fn lemma_copy_digest_equal(source: Seq<u8>, copy: Seq<u8>)
    requires
        copy == source,
    ensures
        blake2b512_of(copy) == blake2b512_of(source),
{
}

} // verus!
