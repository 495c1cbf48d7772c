use zk_battleship::board::{BattleshipGame, Cell, GamePhase};
use zk_battleship::errors::{PlacementError, RangeError};
use zk_battleship::hit::{compute_hit, make_attack_claim};

#[test]
fn new_board_starts_placing() {
    let game = BattleshipGame::new(10, 2);
    assert_eq!(game.phase, GamePhase::Placing);
    assert_eq!(game.grid_size, 10);
    assert_eq!(game.ship_count, 2);
    assert_eq!(game.ships_remaining(), 0);
    assert!(game.all_sunk());
    assert_eq!(game.grid[0][0], Cell::Empty);
}

#[test]
fn placement_fills_the_board_and_readies_it() {
    let mut game = BattleshipGame::new(10, 2);
    assert_eq!(game.place_ship(1, 1), Ok(()));
    assert_eq!(game.phase, GamePhase::Placing);
    assert_eq!(game.place_ship(8, 8), Ok(()));
    assert_eq!(game.phase, GamePhase::Ready);
    assert_eq!(game.ships_remaining(), 2);
    assert_eq!(game.grid[1][1], Cell::Ship);
    assert_eq!(game.grid[8][8], Cell::Ship);
    assert_eq!(game.ship_positions, vec![(1, 1), (8, 8)]);
    assert_eq!(game.ship_commitments.len(), 2);
    assert_eq!(game.ship_range_proofs.len(), 2);
}

#[test]
fn placement_out_of_bounds_is_rejected() {
    let mut game = BattleshipGame::new(10, 2);
    assert_eq!(game.place_ship(10, 0), Err(PlacementError::OutOfBounds));
    assert_eq!(game.place_ship(0, 200), Err(PlacementError::OutOfBounds));
    assert_eq!(game.ship_positions.len(), 0);
    assert_eq!(game.phase, GamePhase::Placing);
}

#[test]
fn placement_after_ready_is_rejected() {
    let mut game = BattleshipGame::new(5, 1);
    assert_eq!(game.place_ship(2, 2), Ok(()));
    assert_eq!(game.phase, GamePhase::Ready);
    assert_eq!(game.place_ship(3, 3), Err(PlacementError::WrongPhase));
}

#[test]
fn attack_before_battle_is_rejected() {
    let mut game = BattleshipGame::new(10, 1);
    assert_eq!(game.attack(0, 0), Err(RangeError::WrongPhase));
    assert_eq!(game.place_ship(4, 4), Ok(()));
    assert_eq!(game.attack(0, 0), Err(RangeError::WrongPhase));
}

#[test]
fn attack_out_of_bounds_is_rejected() {
    let mut game = BattleshipGame::new(10, 1);
    assert_eq!(game.place_ship(4, 4), Ok(()));
    game.begin_battle();
    assert_eq!(game.attack(10, 0), Err(RangeError::OutOfBounds));
    assert_eq!(game.attack(0, 10), Err(RangeError::OutOfBounds));
}

#[test]
fn attack_reports_hits_and_misses() {
    let mut game = BattleshipGame::new(10, 2);
    assert_eq!(game.place_ship(2, 3), Ok(()));
    assert_eq!(game.place_ship(5, 5), Ok(()));
    game.begin_battle();
    assert_eq!(game.attack(2, 3), Ok(true));
    assert_eq!(game.attack(0, 0), Ok(false));
    assert_eq!(game.attack(3, 2), Ok(false));
    assert_eq!(game.attack(5, 5), Ok(true));
}

#[test]
fn end_to_end_two_ships_sunk_finishes_the_game() {
    let mut game = BattleshipGame::new(10, 2);
    assert_eq!(game.place_ship(1, 1), Ok(()));
    assert_eq!(game.place_ship(8, 8), Ok(()));
    assert!(game.verify_published_proofs());
    game.begin_battle();
    assert_eq!(game.phase, GamePhase::Battling);

    assert_eq!(game.attack(1, 1), Ok(true));
    game.record_hit(1, 1);
    assert_eq!(game.phase, GamePhase::Battling);
    assert!(!game.all_sunk());
    assert_eq!(game.ships_remaining(), 1);
    assert_eq!(game.grid[1][1], Cell::Hit);

    assert_eq!(game.attack(8, 8), Ok(true));
    game.record_hit(8, 8);
    assert_eq!(game.phase, GamePhase::Finished);
    assert!(game.all_sunk());
    assert_eq!(game.ships_remaining(), 0);

    // Policy: a further attack on a finished board is rejected.
    assert_eq!(game.attack(3, 3), Err(RangeError::WrongPhase));
}

#[test]
fn audit_is_idempotent() {
    let mut game = BattleshipGame::new(10, 2);
    assert_eq!(game.place_ship(1, 1), Ok(()));
    assert_eq!(game.place_ship(8, 8), Ok(()));
    let first = game.verify_published_proofs();
    let second = game.verify_published_proofs();
    assert_eq!(first, second);
    assert!(first);
}

#[test]
fn audit_detects_a_tampered_proof() {
    let mut game = BattleshipGame::new(10, 1);
    assert_eq!(game.place_ship(4, 4), Ok(()));
    assert!(game.verify_published_proofs());
    game.ship_range_proofs[0].x.proof_bytes[40] ^= 0x01;
    assert!(!game.verify_published_proofs());
}

#[test]
fn compute_hit_matches_the_fleet() {
    let ships: Vec<(u8, u8)> = vec![(2, 3), (5, 5)];
    assert!(compute_hit(&ships, 2, 3));
    assert!(compute_hit(&ships, 5, 5));
    assert!(!compute_hit(&ships, 0, 0));
    assert!(!compute_hit(&ships, 3, 2));
    let empty: Vec<(u8, u8)> = Vec::new();
    assert!(!compute_hit(&empty, 0, 0));
}

#[test]
fn hit_witness_carries_the_fleet() {
    let mut game = BattleshipGame::new(10, 2);
    assert_eq!(game.place_ship(2, 3), Ok(()));
    assert_eq!(game.place_ship(5, 5), Ok(()));
    let w = game.hit_witness(2, 3, true);
    assert_eq!(w.attack_x, 2);
    assert_eq!(w.attack_y, 3);
    assert!(w.hit);
    assert_eq!(w.ships.len(), 2);
    assert_eq!(w.ships[0].x, 2);
    assert_eq!(w.ships[0].y, 3);
    assert_eq!(w.ships[0].salt, game.ship_commitments[0].salt);
    assert_eq!(w.ships[0].digest, game.ship_commitments[0].digest);
    assert_eq!(w.ships[1].x, 5);
    assert_eq!(w.ships[1].y, 5);
}

#[test]
fn attack_claim_binds_the_attack_and_the_hit_bit() {
    let hit_claim = make_attack_claim(2, 3, true, vec![0xaa, 0xbb]);
    assert_eq!(hit_claim.public_inputs, vec![2u64, 3, 1]);
    assert_eq!(hit_claim.snark_proof, vec![0xaa, 0xbb]);
    let miss_claim = make_attack_claim(7, 0, false, Vec::new());
    assert_eq!(miss_claim.public_inputs, vec![7u64, 0, 0]);
}

#[test]
fn zero_ship_board_is_ready_and_finishes_at_once() {
    let mut game = BattleshipGame::new(4, 0);
    assert_eq!(game.phase, GamePhase::Ready);
    game.begin_battle();
    assert_eq!(game.phase, GamePhase::Finished);
    assert!(game.all_sunk());
}
