//! Hiding, binding commitments to ship positions.
//!
//! A ship at `(x, y)` is published as a 32-byte digest of `(x, y, salt)`
//! under the Poseidon algebraic hash, with a fresh random salt per ship.
//! The digest reveals nothing about the position (hiding) and cannot be
//! opened to a different position (binding). Poseidon is circuit-friendly,
//! so the very same digest can be recomputed inside the hit-verification
//! circuit from the private witness.

use vstd::prelude::*;
use rand::RngCore;
use halo2_gadgets::poseidon::primitives::{ConstantLength, P128Pow5T3};
use halo2_proofs::pasta::Fp;
use halo2_proofs::pasta::group::ff::PrimeField;

verus! {

/// The Poseidon digest of a ship position `(x, y)` salted with `salt`,
/// serialized to bytes. Deterministic in its three arguments.
pub uninterp spec fn poseidon_commitment(x: u8, y: u8, salt: u64) -> Seq<u8>;

/// Relies on `halo2_gadgets::poseidon::primitives::Hash`: the Poseidon
/// hash over the Pallas base field with the `P128Pow5T3` parameters,
/// applied to the constant-length message `[x, y, salt]`; and on
/// `Fp::to_repr`, which serializes a field element to exactly 32 bytes.
/// The digest is a function of `(x, y, salt)` alone.
#[verifier::external_body]
fn poseidon_commit_bytes(x: u8, y: u8, salt: u64) -> (r: Vec<u8>)
    ensures
        r@ == poseidon_commitment(x, y, salt),
        r@.len() == 32,
{
    let message = [Fp::from(x as u64), Fp::from(y as u64), Fp::from(salt)];
    let digest = halo2_gadgets::poseidon::primitives::Hash::<
        Fp,
        P128Pow5T3,
        ConstantLength<3>,
        3,
        2,
    >::init().hash(message);
    digest.to_repr().to_vec()
}

/// Relies on rand's `OsRng`, the operating system's randomness source,
/// for the blinding salt. Nothing is assumed of the returned value; a
/// failing source panics, which the protocol treats as fatal, since a
/// weak or absent source of salts would break hiding.
#[verifier::external_body]
fn fresh_salt() -> (salt: u64) {
    rand::rngs::OsRng.next_u64()
}

/// A published commitment to a ship position. The digest is public; the
/// salt stays on the owning side until a proof needs the witness.
#[derive(Clone, Debug)]
pub struct ShipCommitment {
    /// Public 32-byte Poseidon digest of `(x, y, salt)`.
    pub digest: Vec<u8>,
    /// Secret blinding salt, drawn fresh at placement time.
    pub salt: u64,
}

/// A digest opens under the witness `(x, y, salt)`: it is exactly the
/// Poseidon digest of that triple.
pub open spec fn spec_opens(x: u8, y: u8, salt: u64, digest: Seq<u8>) -> bool {
    digest == poseidon_commitment(x, y, salt)
}

/// Commit to a ship position: draw a fresh random salt and bind
/// `(x, y, salt)` into a public 32-byte digest.
pub fn commit(x: u8, y: u8) -> (c: ShipCommitment)
    ensures
        spec_opens(x, y, c.salt, c.digest@),
        c.digest@.len() == 32,
{
    let salt = fresh_salt();
    let digest = poseidon_commit_bytes(x, y, salt);
    ShipCommitment { digest, salt }
}

/// The commitment digest of `(x, y)` under a given salt. This is the
/// deterministic core of `commit`, evaluable by anyone who holds the
/// witness; the hit-verification circuit recomputes the same mapping.
pub fn compute_commitment(x: u8, y: u8, salt: u64) -> (r: Vec<u8>)
    ensures
        r@ == poseidon_commitment(x, y, salt),
        r@.len() == 32,
{
    poseidon_commit_bytes(x, y, salt)
}

/// Check a commitment opening: recompute the digest of `(x, y, salt)` and
/// compare it with the published digest. Used only by a party who already
/// possesses the witness.
pub fn verify(x: u8, y: u8, salt: u64, digest: &Vec<u8>) -> (ok: bool)
    ensures
        ok == spec_opens(x, y, salt, digest@),
{
    let computed = poseidon_commit_bytes(x, y, salt);
    bytes_equal(&computed, digest)
}

/// Commit-then-verify round trip: a commitment as `commit` publishes it
/// for `(x, y)` — its digest is the Poseidon digest of `(x, y)` and its
/// own salt — opens under exactly that witness, which is what `verify`
/// answers true on. The converse, that no other witness opens it, is the
/// binding of the hash and is not a provable fact here.
pub proof fn lemma_commit_opens(x: u8, y: u8, c: ShipCommitment)
    requires
        c.digest@ == poseidon_commitment(x, y, c.salt),
    ensures
        spec_opens(x, y, c.salt, c.digest@),
{
}

/// Byte-for-byte equality of two byte vectors.
fn bytes_equal(a: &Vec<u8>, b: &Vec<u8>) -> (r: bool)
    ensures
        r == (a@ == b@),
{
    if a.len() != b.len() {
        return false;
    }
    let n = a.len();
    for i in 0..n
        invariant
            n == a@.len(),
            n == b@.len(),
            forall|j: int| 0 <= j < i ==> a@[j] == b@[j],
    {
        if a[i] != b[i] {
            return false;
        }
    }
    proof {
        assert(a@ =~= b@);
    }
    true
}

} // verus!
