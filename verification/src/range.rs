//! Zero-knowledge range proofs for board coordinates.
//!
//! A player certifies that a coordinate lies on the board without revealing
//! it: the coordinate is bound by a Pedersen commitment and a Bulletproofs
//! inner-product range proof shows that the committed value lies in
//! `[0, 2^bits)`, where `bits` is derived from the board size.

use vstd::prelude::*;
use vstd::arithmetic::power2::{pow2, lemma2_to64, lemma2_to64_rest};
use bulletproofs::{BulletproofGens, PedersenGens, RangeProof};
use curve25519_dalek::ristretto::CompressedRistretto;
use curve25519_dalek::scalar::Scalar;
use merlin::Transcript;
use crate::errors::RangeError;

verus! {

/// Bit width used for range proofs on a board of the given size: the
/// smallest multiple of 8 whose power of two reaches `grid_size`.
/// Widths below 8 round up to 8, because the range-proof protocol works
/// on byte-aligned ranges.
pub open spec fn spec_bits_for_bound(grid_size: nat) -> nat {
    if grid_size <= 0x100 {
        8
    } else if grid_size <= 0x1_0000 {
        16
    } else if grid_size <= 0x100_0000 {
        24
    } else if grid_size <= 0x1_0000_0000 {
        32
    } else if grid_size <= 0x100_0000_0000 {
        40
    } else if grid_size <= 0x1_0000_0000_0000 {
        48
    } else if grid_size <= 0x100_0000_0000_0000 {
        56
    } else {
        64
    }
}

/// `spec_bits_for_bound` is what it claims to be: a multiple of 8, at
/// least 8, whose power of two covers `grid_size`, and minimal with that
/// property among multiples of 8.
pub proof fn lemma_bits_for_bound_props(grid_size: nat)
    requires
        grid_size <= u64::MAX,
    ensures
        spec_bits_for_bound(grid_size) % 8 == 0,
        8 <= spec_bits_for_bound(grid_size) <= 64,
        grid_size <= pow2(spec_bits_for_bound(grid_size)),
        spec_bits_for_bound(grid_size) == 8
            || pow2((spec_bits_for_bound(grid_size) - 8) as nat) < grid_size,
{
    lemma2_to64();
    lemma2_to64_rest();
}

/// Bit width for range proofs on a board of the given size.
pub fn bits_for_bound(grid_size: usize) -> (bits: usize)
    ensures
        bits == spec_bits_for_bound(grid_size as nat),
{
    let g: u64 = grid_size as u64;
    if g <= 0x100 {
        8
    } else if g <= 0x1_0000 {
        16
    } else if g <= 0x100_0000 {
        24
    } else if g <= 0x1_0000_0000 {
        32
    } else if g <= 0x100_0000_0000 {
        40
    } else if g <= 0x1_0000_0000_0000 {
        48
    } else if g <= 0x100_0000_0000_0000 {
        56
    } else {
        64
    }
}

/// The bit sizes the range-proof protocol supports: proving any other
/// width is refused by the underlying routine.
pub open spec fn valid_bitsize(bits: nat) -> bool {
    bits == 8 || bits == 16 || bits == 32 || bits == 64
}

/// The deterministic verification equations of the range-proof protocol
/// hold for the serialized proof against the serialized Pedersen
/// commitment for the range `[0, 2^bits)`, under this library's fixed
/// generators and transcript label. Bytes that satisfy them are always
/// accepted by the verifier; bytes that do not are rejected except with
/// negligible probability, which no contract here states.
pub uninterp spec fn range_accepts(proof: Seq<u8>, commitment: Seq<u8>, bits: nat) -> bool;

#[verifier::external_type_specification]
#[verifier::external_body]
pub struct ExProofError(bulletproofs::ProofError);

/// Relies on bulletproofs' `RangeProof::prove_single`, called with the
/// default Pedersen generators, Bulletproofs generators sized for `bits`
/// and one party, a fresh Merlin transcript with this library's label, and
/// a random blinding scalar from `OsRng`; the proof and the commitment are
/// returned serialized (`RangeProof::to_bytes`, 32-byte
/// `CompressedRistretto::to_bytes`). `prove_single` refuses an
/// unsupported bit size outright; it may also fail on a degenerate
/// transcript challenge, whatever the inputs. A proof it produces for a
/// value below `2^bits` is accepted by `verify_single` under the same
/// generators and label.
#[verifier::external_body]
fn bp_prove_range(value: u64, bits: usize) -> (r: Result<(Vec<u8>, Vec<u8>), bulletproofs::ProofError>)
    ensures
        !valid_bitsize(bits as nat) ==> r is Err,
        r is Ok ==> valid_bitsize(bits as nat),
        r matches Ok(pc) ==> pc.1@.len() == 32,
        r matches Ok(pc) ==> ((value as nat) < pow2(bits as nat) ==> range_accepts(
            pc.0@,
            pc.1@,
            bits as nat,
        )),
{
    let pc_gens = PedersenGens::default();
    let bp_gens = BulletproofGens::new(bits, 1);
    let blinding = Scalar::random(&mut rand::rngs::OsRng);
    let mut transcript = Transcript::new(b"battleship_range_proof");
    match RangeProof::prove_single(&bp_gens, &pc_gens, &mut transcript, value, &blinding, bits) {
        Ok((proof, commitment)) => Ok((proof.to_bytes(), commitment.to_bytes().to_vec())),
        Err(e) => Err(e),
    }
}

/// Relies on bulletproofs' `RangeProof::verify_single`, called on the
/// deserialized proof (`RangeProof::from_bytes`) and commitment
/// (`CompressedRistretto::from_slice`) with the same generators and
/// transcript label that `bp_prove_range` uses. The verifier replays the
/// transcript deterministically but combines its two final checks with a
/// random batching scalar, so only one direction is absolute: bytes that
/// satisfy the verification equations are always accepted. Bytes that do
/// not parse, or fail the equations, are rejected except with negligible
/// probability over that scalar — a fact no contract states.
#[verifier::external_body]
fn bp_verify_range(proof: &Vec<u8>, commitment: &Vec<u8>, bits: usize) -> (ok: bool)
    ensures
        range_accepts(proof@, commitment@, bits as nat) ==> ok,
{
    let parsed = match RangeProof::from_bytes(proof.as_slice()) {
        Ok(p) => p,
        Err(_) => return false,
    };
    let point = match CompressedRistretto::from_slice(commitment.as_slice()) {
        Ok(v) => v,
        Err(_) => return false,
    };
    let pc_gens = PedersenGens::default();
    let bp_gens = BulletproofGens::new(bits, 1);
    let mut transcript = Transcript::new(b"battleship_range_proof");
    parsed.verify_single(&bp_gens, &pc_gens, &mut transcript, &point, bits).is_ok()
}

/// A non-interactive zero-knowledge proof that the committed coordinate
/// lies in `[0, 2^bits)`. Publicly verifiable without the witness;
/// immutable once produced. Both parts are plain byte encodings, so the
/// proof can cross a transport boundary as it stands.
#[derive(Clone, Debug)]
pub struct CoordinateRangeProof {
    /// Serialized Pedersen commitment to the coordinate (32 bytes).
    pub pedersen_commitment: Vec<u8>,
    /// Serialized range proof for the committed value.
    pub proof_bytes: Vec<u8>,
}

/// The verification equations hold for this proof for the range
/// `[0, 2^bits)`; such a proof is always accepted by the verifier.
pub open spec fn spec_proof_accepted(p: CoordinateRangeProof, bits: nat) -> bool {
    range_accepts(p.proof_bytes@, p.pedersen_commitment@, bits)
}

/// Prove that `coord` lies on a board of size `grid_size` without
/// revealing it. Rejects a coordinate off the board with `OutOfBounds`;
/// fails with `ProofGenerationFailed` whenever the bit width derived from
/// `grid_size` is not one the proving routine supports, and, for any
/// input, when the proving routine itself errors. Every proof returned is
/// accepted by `verify_range` for that bit width.
pub fn prove_range(coord: u8, grid_size: usize) -> (r: Result<CoordinateRangeProof, RangeError>)
    ensures
        (coord as nat) >= (grid_size as nat) <==> r == Err::<
            CoordinateRangeProof,
            RangeError,
        >(RangeError::OutOfBounds),
        r == Err::<CoordinateRangeProof, RangeError>(RangeError::ProofGenerationFailed) ==> (
        coord as nat) < (grid_size as nat),
        ((coord as nat) < (grid_size as nat) && !valid_bitsize(
            spec_bits_for_bound(grid_size as nat),
        )) ==> r == Err::<CoordinateRangeProof, RangeError>(RangeError::ProofGenerationFailed),
        r != Err::<CoordinateRangeProof, RangeError>(RangeError::WrongPhase),
        r is Ok ==> ((coord as nat) < (grid_size as nat) && valid_bitsize(
            spec_bits_for_bound(grid_size as nat),
        )),
        r matches Ok(p) ==> spec_proof_accepted(p, spec_bits_for_bound(grid_size as nat))
            && p.pedersen_commitment@.len() == 32,
{
    if (coord as usize) >= grid_size {
        return Err(RangeError::OutOfBounds);
    }
    let bits = bits_for_bound(grid_size);
    proof {
        lemma_bits_for_bound_props(grid_size as nat);
        lemma2_to64();
        if spec_bits_for_bound(grid_size as nat) > 8 {
            vstd::arithmetic::power2::lemma_pow2_strictly_increases(
                8,
                spec_bits_for_bound(grid_size as nat),
            );
        }
    }
    match bp_prove_range(coord as u64, bits) {
        Ok((proof_bytes, commitment)) => Ok(
            CoordinateRangeProof { pedersen_commitment: commitment, proof_bytes },
        ),
        Err(_) => Err(RangeError::ProofGenerationFailed),
    }
}

/// Prove-then-verify round trip: every proof that `prove_range` returns
/// for a coordinate on a board of size `grid_size` is accepted — that is
/// its contract — and acceptance for the bit width derived from
/// `grid_size` is exactly what `verify_range` answers at that width.
pub proof fn lemma_prove_then_verify(p: CoordinateRangeProof, grid_size: usize)
    requires
        range_accepts(p.proof_bytes@, p.pedersen_commitment@, spec_bits_for_bound(grid_size as nat)),
    ensures
        spec_proof_accepted(p, spec_bits_for_bound(grid_size as nat)),
{
}

/// Check a coordinate range proof against public parameters sized for
/// `bits`. Returns false, not an error, on a malformed or forged proof:
/// rejection is the expected outcome for a cheating prover. Only the
/// acceptance direction is absolute: a proof satisfying the verification
/// equations always passes, so everything `prove_range` returns does; of
/// other bytes the contract claims nothing, their rejection being only
/// overwhelmingly probable.
pub fn verify_range(proof: &CoordinateRangeProof, bits: usize) -> (ok: bool)
    ensures
        spec_proof_accepted(*proof, bits as nat) ==> ok,
{
    bp_verify_range(&proof.proof_bytes, &proof.pedersen_commitment, bits)
}

} // verus!
