//! Identities and signatures: validator public keys, this node's secret
//! signing key, and signatures over block hashes.
//!
//! The supervisor never signs anything itself; it only decides *what* must be
//! signed and holds the key material. The byte contents of keys and
//! signatures are opaque to the chain logic.

use vstd::prelude::*;

verus! {

/// A validator's public key.
#[derive(Clone, Copy, Debug, Hash)]
pub struct PublicKey(pub [u8; 32]);

impl View for PublicKey {
    type V = Seq<u8>;

    open spec fn view(&self) -> Seq<u8> {
        self.0@
    }
}

impl PublicKey {
    /// Byte-wise equality of two public keys.
    pub fn equals(&self, other: &PublicKey) -> (r: bool)
        ensures
            r == (self@ == other@),
    {
        let mut i: usize = 0;
        while i < 32
            invariant
                i <= 32,
                forall|j: int| 0 <= j < i ==> self.0@[j] == other.0@[j],
            decreases 32 - i,
        {
            if self.0[i] != other.0[i] {
                assert(self@ != other@);
                return false;
            }
            i += 1;
        }
        proof {
            assert(self@ =~= other@);
        }
        true
    }
}

impl PartialEq for PublicKey {
    fn eq(&self, other: &PublicKey) -> (r: bool) {
        self.equals(other)
    }
}

impl Eq for PublicKey {}

impl vstd::std_specs::cmp::PartialEqSpecImpl for PublicKey {
    open spec fn obeys_eq_spec() -> bool {
        true
    }

    open spec fn eq_spec(&self, other: &PublicKey) -> bool {
        self@ == other@
    }
}

/// This node's secret signing key. Held by the supervisor and handed to the
/// signing boundary by reference; never cloned into long-lived era state.
pub struct SecretKey(pub [u8; 32]);

/// A signature over a block hash. Produced outside the chain logic; carried
/// through unchanged.
#[derive(Clone, Copy, Debug)]
pub struct Signature(pub [u8; 64]);

impl View for Signature {
    type V = Seq<u8>;

    open spec fn view(&self) -> Seq<u8> {
        self.0@
    }
}

/// An identifier for a peer on the network. Opaque to the chain logic: it is
/// only ever carried from an incoming message to an outgoing effect.
#[derive(Clone, Copy, Debug, PartialEq, Eq, Structural, Hash)]
pub struct NodeId(pub u64);

} // verus!
