use zk_battleship::errors::RangeError;
use zk_battleship::range::{bits_for_bound, prove_range, verify_range};

#[test]
fn bits_for_bound_rounds_to_bytes() {
    assert_eq!(bits_for_bound(0), 8);
    assert_eq!(bits_for_bound(1), 8);
    assert_eq!(bits_for_bound(10), 8);
    assert_eq!(bits_for_bound(256), 8);
    assert_eq!(bits_for_bound(257), 16);
    assert_eq!(bits_for_bound(65536), 16);
    assert_eq!(bits_for_bound(65537), 24);
}

#[test]
fn prove_then_verify_all_coords_on_board() {
    let grid_size = 10usize;
    let bits = bits_for_bound(grid_size);
    for coord in 0..grid_size as u8 {
        let proof = prove_range(coord, grid_size).expect("in-range coordinate must prove");
        assert!(verify_range(&proof, bits), "proof for {} must verify", coord);
    }
}

#[test]
fn prove_out_of_bounds_fails() {
    assert_eq!(prove_range(10, 10).unwrap_err(), RangeError::OutOfBounds);
    assert_eq!(prove_range(11, 10).unwrap_err(), RangeError::OutOfBounds);
    assert_eq!(prove_range(255, 10).unwrap_err(), RangeError::OutOfBounds);
    assert_eq!(prove_range(0, 0).unwrap_err(), RangeError::OutOfBounds);
}

#[test]
fn corrupted_proof_is_rejected() {
    let grid_size = 10usize;
    let bits = bits_for_bound(grid_size);
    let mut proof = prove_range(7, grid_size).expect("in-range coordinate must prove");
    assert!(verify_range(&proof, bits));
    proof.proof_bytes[40] ^= 0x01;
    assert!(!verify_range(&proof, bits), "a tampered proof must be rejected");
}

#[test]
fn commitment_of_wrong_proof_is_rejected() {
    let grid_size = 10usize;
    let bits = bits_for_bound(grid_size);
    let a = prove_range(3, grid_size).expect("must prove");
    let b = prove_range(4, grid_size).expect("must prove");
    let mixed = zk_battleship::range::CoordinateRangeProof {
        pedersen_commitment: a.pedersen_commitment.clone(),
        proof_bytes: b.proof_bytes.clone(),
    };
    assert!(!verify_range(&mixed, bits), "a proof must not verify against another commitment");
}

#[test]
fn proof_has_serialized_parts() {
    let proof = prove_range(2, 10).expect("must prove");
    assert_eq!(proof.pedersen_commitment.len(), 32);
    assert!(proof.proof_bytes.len() >= 7 * 32);
    assert_eq!(proof.proof_bytes.len() % 32, 0);
}
