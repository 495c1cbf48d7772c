use std::collections::HashSet;
use zk_battleship::commit::{commit, compute_commitment, verify};

#[test]
fn commit_produces_fixed_width_digest() {
    let c = commit(3, 7);
    assert_eq!(c.digest.len(), 32);
}

#[test]
fn verify_accepts_the_exact_witness() {
    for (x, y) in [(0u8, 0u8), (2, 3), (9, 9), (5, 0)] {
        let c = commit(x, y);
        assert!(verify(x, y, c.salt, &c.digest));
    }
}

#[test]
fn verify_rejects_any_mutated_witness() {
    for (x, y) in [(0u8, 0u8), (2, 3), (9, 9), (5, 1)] {
        let c = commit(x, y);
        assert!(!verify(x.wrapping_add(1), y, c.salt, &c.digest));
        assert!(!verify(x, y.wrapping_add(1), c.salt, &c.digest));
        assert!(!verify(x, y, c.salt.wrapping_add(1), &c.digest));
        assert!(!verify(x, y, c.salt ^ 0x8000_0000_0000_0000, &c.digest));
    }
}

#[test]
fn verify_rejects_a_mutated_digest() {
    let c = commit(4, 4);
    let mut digest = c.digest.clone();
    digest[0] ^= 0x01;
    assert!(!verify(4, 4, c.salt, &digest));
}

#[test]
fn digests_are_deterministic_in_the_witness() {
    let a = compute_commitment(2, 3, 12345);
    let b = compute_commitment(2, 3, 12345);
    assert_eq!(a, b);
}

#[test]
fn hiding_distinct_salts_give_distinct_digests() {
    let mut seen: HashSet<Vec<u8>> = HashSet::new();
    let trials = 10_000u64;
    for salt in 0..trials {
        let digest = compute_commitment(4, 5, salt);
        assert!(seen.insert(digest), "digest collision at salt {}", salt);
    }
    assert_eq!(seen.len() as u64, trials);
}

#[test]
fn fresh_commitments_to_the_same_position_differ() {
    let a = commit(6, 6);
    let b = commit(6, 6);
    assert_ne!(a.salt, b.salt, "salts must be fresh per commitment");
    assert_ne!(a.digest, b.digest);
}
