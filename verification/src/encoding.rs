//! Deterministic byte framing used for content addressing.
//!
//! Proto blocks and block headers are identified by the hash of their framed
//! contents; the framing below fixes those contents exactly: little-endian
//! integers, length-prefixed lists, one byte per boolean or option tag.

use vstd::prelude::*;

use crate::hashing::Digest;
use crate::keys::PublicKey;

verus! {

/// The byte that stands for a boolean in the framing.
pub open spec fn bool_byte(b: bool) -> u8 {
    if b {
        1u8
    } else {
        0u8
    }
}

/// Appends the eight little-endian bytes of `x`.
pub fn push_u64_le(out: &mut Vec<u8>, x: u64)
    ensures
        final(out)@ == old(out)@ + vstd::bytes::spec_u64_to_le_bytes(x),
{
    let mut bytes = vstd::bytes::u64_to_le_bytes(x);
    out.append(&mut bytes);
}

/// Appends one byte standing for `b`.
pub fn push_bool(out: &mut Vec<u8>, b: bool)
    ensures
        final(out)@ == old(out)@ + seq![bool_byte(b)],
{
    out.push(if b {
        1u8
    } else {
        0u8
    });
    proof {
        assert(final(out)@ =~= old(out)@ + seq![bool_byte(b)]);
    }
}

/// Appends the 32 bytes of a digest.
pub fn push_digest(out: &mut Vec<u8>, d: &Digest)
    ensures
        final(out)@ == old(out)@ + d@,
{
    let ghost start = out@;
    let mut i: usize = 0;
    while i < 32
        invariant
            i <= 32,
            out@ == start + d@.take(i as int),
        decreases 32 - i,
    {
        out.push(d.0[i]);
        proof {
            assert(start + d@.take(i + 1 as int) =~= (start + d@.take(i as int)).push(
                d@[i as int],
            ));
        }
        i += 1;
    }
    proof {
        assert(d@.take(32) =~= d@);
    }
}

/// Appends the 32 bytes of a public key.
pub fn push_public_key(out: &mut Vec<u8>, key: &PublicKey)
    ensures
        final(out)@ == old(out)@ + key@,
{
    let ghost start = out@;
    let mut i: usize = 0;
    while i < 32
        invariant
            i <= 32,
            out@ == start + key@.take(i as int),
        decreases 32 - i,
    {
        out.push(key.0[i]);
        proof {
            assert(start + key@.take(i + 1 as int) =~= (start + key@.take(i as int)).push(
                key@[i as int],
            ));
        }
        i += 1;
    }
    proof {
        assert(key@.take(32) =~= key@);
    }
}

} // verus!
