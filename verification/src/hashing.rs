//! Cryptographic digests and the hash function used for content addressing.

use vstd::prelude::*;

verus! {

/// The 32 zero bytes: the all-zero digest's contents.
pub open spec fn zero_digest_bytes() -> Seq<u8> {
    Seq::new(32, |i: int| 0u8)
}

/// A 256-bit cryptographic digest.
#[derive(Clone, Copy, Debug)]
pub struct Digest(pub [u8; 32]);

impl View for Digest {
    type V = Seq<u8>;

    open spec fn view(&self) -> Seq<u8> {
        self.0@
    }
}

impl Digest {
    /// The all-zero digest, used as the parent hash of the first block of the
    /// chain.
    pub fn zero() -> (r: Digest)
        ensures
            r@ == zero_digest_bytes(),
    {
        let d = Digest([0u8; 32]);
        proof {
            assert(d@ =~= zero_digest_bytes());
        }
        d
    }

    /// Byte-wise equality of two digests.
    pub fn equals(&self, other: &Digest) -> (r: bool)
        ensures
            r == (self@ == other@),
    {
        let mut i: usize = 0;
        while i < 32
            invariant
                i <= 32,
                forall|j: int| 0 <= j < i ==> self.0@[j] == other.0@[j],
            decreases 32 - i,
        {
            if self.0[i] != other.0[i] {
                assert(self@ != other@);
                return false;
            }
            i += 1;
        }
        proof {
            assert(self@ =~= other@);
        }
        true
    }
}

impl PartialEq for Digest {
    fn eq(&self, other: &Digest) -> (r: bool) {
        self.equals(other)
    }
}

impl Eq for Digest {}

impl vstd::std_specs::cmp::PartialEqSpecImpl for Digest {
    open spec fn obeys_eq_spec() -> bool {
        true
    }

    open spec fn eq_spec(&self, other: &Digest) -> bool {
        self@ == other@
    }
}

/// The digest that BLAKE2b with a 32-byte output assigns to a byte string.
/// The digest itself is far too involved to state here; all that the library
/// relies on is that it is a function of the input bytes alone.
pub uninterp spec fn blake2b256_of(bytes: Seq<u8>) -> Seq<u8>;

/// Relies on blake2::Blake2b256 (BLAKE2b with a 32-byte output): the digest
/// is determined by the input bytes alone and is exactly 32 bytes long.
#[verifier::external_body]
pub fn hash_bytes(data: &[u8]) -> (r: Digest)
    ensures
        r@ == blake2b256_of(data@),
        r@.len() == 32,
{
    let out: [u8; 32] = <blake2::Blake2b256 as blake2::Digest>::digest(data).into();
    Digest(out)
}

} // verus!
