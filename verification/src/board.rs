//! Per-player authoritative board state.
//!
//! A board owns its grid of cells, the ordered list of published ship
//! commitments, the secret ship positions, and the published range proofs,
//! and walks the phases `Placing -> Ready -> Battling -> Finished` with
//! guarded transitions: a call a phase does not allow is rejected, never
//! silently tolerated. In particular, an attack against a board that is
//! already `Finished` is rejected with a `WrongPhase` error; that is this
//! library's explicit policy for moves after the game has been decided.

use vstd::prelude::*;
use crate::commit;
use crate::commit::{ShipCommitment, spec_opens};
use crate::errors::{PlacementError, RangeError};
use crate::hit::{HitWitness, ShipWitness};
use crate::range::{
    CoordinateRangeProof, bits_for_bound, prove_range, spec_bits_for_bound, spec_proof_accepted,
    valid_bitsize, verify_range,
};

verus! {

/// Translate a range-proof failure into the matching placement failure.
fn placement_error_of(e: RangeError) -> (p: PlacementError)
    ensures
        p == (match e {
            RangeError::OutOfBounds => PlacementError::OutOfBounds,
            RangeError::ProofGenerationFailed => PlacementError::ProofGenerationFailed,
            RangeError::WrongPhase => PlacementError::WrongPhase,
        }),
{
    match e {
        RangeError::OutOfBounds => PlacementError::OutOfBounds,
        RangeError::ProofGenerationFailed => PlacementError::ProofGenerationFailed,
        RangeError::WrongPhase => PlacementError::WrongPhase,
    }
}

/// One cell of the public grid.
#[derive(Clone, Copy, Debug, PartialEq, Eq, Structural)]
pub enum Cell {
    /// No ship was ever placed here.
    Empty,
    /// A ship stands here and has not been hit.
    Ship,
    /// A ship stood here and has been hit.
    Hit,
}

/// The phases of a board's life. A fresh board is `Placing` (or already
/// `Ready` when no ships are required); it becomes `Ready` when the
/// required number of ships is placed, `Battling` once both sides are
/// ready, and `Finished` the instant no un-hit ship cell remains.
#[derive(Clone, Copy, Debug, PartialEq, Eq, Structural)]
pub enum GamePhase {
    /// Accepting ship placements.
    Placing,
    /// All ships placed; waiting for the opponent.
    Ready,
    /// Exchanging attacks.
    Battling,
    /// Every ship cell has been hit.
    Finished,
}

/// The two per-axis range proofs published with one ship placement.
#[derive(Clone, Debug)]
pub struct ShipPlacementProof {
    /// Range proof for the ship's x-coordinate.
    pub x: CoordinateRangeProof,
    /// Range proof for the ship's y-coordinate.
    pub y: CoordinateRangeProof,
}

/// One player's board: the authoritative grid, the published commitments
/// and range proofs (immutable once stored, readable by anyone), and the
/// secret ship positions (kept only on the owning side).
pub struct BattleshipGame {
    /// Side length of the square grid; coordinates run in `[0, grid_size)`.
    pub grid_size: usize,
    /// How many ships must be placed before the board is `Ready`.
    pub ship_count: usize,
    /// Current phase of the guarded state machine.
    pub phase: GamePhase,
    /// Cell states, indexed `grid[y][x]`.
    pub grid: Vec<Vec<Cell>>,
    /// Published commitments, in placement order.
    pub ship_commitments: Vec<ShipCommitment>,
    /// Secret ship positions, in placement order.
    pub ship_positions: Vec<(u8, u8)>,
    /// Published placement range proofs, in placement order.
    pub ship_range_proofs: Vec<ShipPlacementProof>,
}

/// The cell of a grid at `(x, y)`, indexed `grid[y][x]`.
pub open spec fn cell_of(grid: Seq<Vec<Cell>>, x: int, y: int) -> Cell {
    grid[y]@[x]
}

/// No un-hit ship cell remains on a grid of side length `gs`.
pub open spec fn spec_all_sunk_of(grid: Seq<Vec<Cell>>, gs: nat) -> bool {
    forall|x: int, y: int|
        0 <= x < gs && 0 <= y < gs ==> (#[trigger] cell_of(grid, x, y)) != Cell::Ship
}

/// A cell of the grid is non-empty exactly when some listed position
/// stands on it.
pub open spec fn cells_match_of(grid: Seq<Vec<Cell>>, gs: nat, positions: Seq<(u8, u8)>) -> bool {
    forall|x: int, y: int|
        0 <= x < gs && 0 <= y < gs ==> ((#[trigger] cell_of(grid, x, y)) != Cell::Empty
            <==> exists|i: int|
            0 <= i < positions.len() && (#[trigger] positions[i]).0 == x && positions[i].1 == y)
}

impl BattleshipGame {
    /// The cell at `(x, y)`.
    pub open spec fn spec_cell(self, x: int, y: int) -> Cell {
        cell_of(self.grid@, x, y)
    }

    /// The grid is a `grid_size` by `grid_size` matrix of cells, and the
    /// number of its cells fits the machine's word.
    pub open spec fn grid_wf(self) -> bool {
        &&& self.grid_size * self.grid_size <= usize::MAX
        &&& self.grid@.len() == self.grid_size
        &&& forall|y: int| 0 <= y < self.grid_size ==> (#[trigger] self.grid@[y])@.len()
            == self.grid_size
    }

    /// Some placed ship stands at `(x, y)`.
    pub open spec fn spec_has_ship(self, x: u8, y: u8) -> bool {
        exists|i: int|
            0 <= i < self.ship_positions@.len() && #[trigger] self.ship_positions@[i] == (x, y)
    }

    /// Every stored position lies on the board.
    pub open spec fn positions_wf(self) -> bool {
        forall|i: int|
            0 <= i < self.ship_positions@.len() ==> ((#[trigger] self.ship_positions@[i]).0 as nat)
                < self.grid_size && (self.ship_positions@[i].1 as nat) < self.grid_size
    }

    /// There is one commitment per position, and each commitment opens
    /// under exactly the position it was published for.
    pub open spec fn commitments_wf(self) -> bool {
        &&& self.ship_commitments@.len() == self.ship_positions@.len()
        &&& forall|i: int|
            0 <= i < self.ship_positions@.len() ==> spec_opens(
                self.ship_positions@[i].0,
                self.ship_positions@[i].1,
                (#[trigger] self.ship_commitments@[i]).salt,
                self.ship_commitments@[i].digest@,
            ) && self.ship_commitments@[i].digest@.len() == 32
    }

    /// There is one placement proof per position, and every stored proof
    /// is accepted for the bit width derived from the board size.
    pub open spec fn proofs_wf(self) -> bool {
        &&& self.ship_range_proofs@.len() == self.ship_positions@.len()
        &&& self.spec_proofs_accepted()
    }

    /// Every published placement proof verifies, on both axes, against the
    /// bit width derived from the board size.
    pub open spec fn spec_proofs_accepted(self) -> bool {
        forall|i: int|
            0 <= i < self.ship_range_proofs@.len() ==> spec_proof_accepted(
                (#[trigger] self.ship_range_proofs@[i]).x,
                spec_bits_for_bound(self.grid_size as nat),
            ) && spec_proof_accepted(
                self.ship_range_proofs@[i].y,
                spec_bits_for_bound(self.grid_size as nat),
            )
    }

    /// A cell is non-empty exactly when a placed ship stands on it.
    pub open spec fn cells_match_positions(self) -> bool {
        cells_match_of(self.grid@, self.grid_size as nat, self.ship_positions@)
    }

    /// No un-hit ship cell remains.
    pub open spec fn spec_all_sunk(self) -> bool {
        spec_all_sunk_of(self.grid@, self.grid_size as nat)
    }

    /// The phase agrees with the data: placements are complete outside
    /// `Placing`, a battling board still has an un-hit ship cell, and a
    /// finished board has none.
    pub open spec fn phase_wf(self) -> bool {
        match self.phase {
            GamePhase::Placing => self.ship_positions@.len() < self.ship_count,
            GamePhase::Ready => self.ship_positions@.len() == self.ship_count,
            GamePhase::Battling => self.ship_positions@.len() == self.ship_count
                && !self.spec_all_sunk(),
            GamePhase::Finished => self.ship_positions@.len() == self.ship_count
                && self.spec_all_sunk(),
        }
    }

    /// Well-formedness of a board. Established by `new` and preserved by
    /// every mutating operation.
    pub open spec fn wf(self) -> bool {
        &&& self.grid_wf()
        &&& self.positions_wf()
        &&& self.commitments_wf()
        &&& self.proofs_wf()
        &&& self.cells_match_positions()
        &&& self.phase_wf()
    }

    /// A fresh board: an all-empty grid, no ships, in `Placing` (or
    /// already `Ready` when no ships are required).
    pub fn new(grid_size: usize, ship_count: usize) -> (b: Self)
        requires
            grid_size * grid_size <= usize::MAX,
        ensures
            b.wf(),
            b.grid_size == grid_size,
            b.ship_count == ship_count,
            b.ship_positions@.len() == 0,
            b.ship_commitments@.len() == 0,
            b.ship_range_proofs@.len() == 0,
            b.phase == (if ship_count == 0 {
                GamePhase::Ready
            } else {
                GamePhase::Placing
            }),
            forall|x: int, y: int|
                0 <= x < grid_size && 0 <= y < grid_size ==> b.spec_cell(x, y) == Cell::Empty,
    {
        let mut grid: Vec<Vec<Cell>> = Vec::new();
        for y in 0..grid_size
            invariant
                grid@.len() == y,
                forall|r: int| 0 <= r < y ==> (#[trigger] grid@[r])@.len() == grid_size,
                forall|r: int, c: int|
                    0 <= r < y && 0 <= c < grid_size ==> grid@[r]@[c] == Cell::Empty,
        {
            let mut row: Vec<Cell> = Vec::new();
            for x in 0..grid_size
                invariant
                    row@.len() == x,
                    forall|c: int| 0 <= c < x ==> row@[c] == Cell::Empty,
            {
                row.push(Cell::Empty);
            }
            grid.push(row);
        }
        let phase = if ship_count == 0 {
            GamePhase::Ready
        } else {
            GamePhase::Placing
        };
        BattleshipGame {
            grid_size,
            ship_count,
            phase,
            grid,
            ship_commitments: Vec::new(),
            ship_positions: Vec::new(),
            ship_range_proofs: Vec::new(),
        }
    }

    /// What a successful placement does: it appends the position, a
    /// commitment that opens under it, and an accepted placement proof,
    /// marks the cell as a ship, leaves every other cell alone, and moves
    /// the board to `Ready` exactly when the fleet is complete.
    pub open spec fn spec_place_ok(pre: Self, post: Self, x: u8, y: u8) -> bool {
        &&& post.grid_size == pre.grid_size
        &&& post.ship_count == pre.ship_count
        &&& post.ship_positions@ == pre.ship_positions@.push((x, y))
        &&& post.ship_commitments@.len() == pre.ship_commitments@.len() + 1
        &&& post.ship_commitments@.drop_last() == pre.ship_commitments@
        &&& spec_opens(
            x,
            y,
            post.ship_commitments@.last().salt,
            post.ship_commitments@.last().digest@,
        )
        &&& post.ship_range_proofs@.len() == pre.ship_range_proofs@.len() + 1
        &&& post.ship_range_proofs@.drop_last() == pre.ship_range_proofs@
        &&& spec_proof_accepted(
            post.ship_range_proofs@.last().x,
            spec_bits_for_bound(pre.grid_size as nat),
        )
        &&& spec_proof_accepted(
            post.ship_range_proofs@.last().y,
            spec_bits_for_bound(pre.grid_size as nat),
        )
        &&& post.spec_cell(x as int, y as int) == Cell::Ship
        &&& forall|x2: int, y2: int|
            0 <= x2 < pre.grid_size && 0 <= y2 < pre.grid_size && !(x2 == x as int && y2
                == y as int) ==> post.spec_cell(x2, y2) == pre.spec_cell(x2, y2)
        &&& post.phase == (if post.ship_positions@.len() == post.ship_count {
            GamePhase::Ready
        } else {
            GamePhase::Placing
        })
    }

    /// Place a ship at `(x, y)`: prove both coordinates lie on the board,
    /// publish a fresh commitment and the two range proofs, and mark the
    /// cell. Rejected outside the placement phase, for a coordinate off
    /// the board (checked before any proving), and when proof generation
    /// fails; a rejected call leaves the board unchanged.
    pub fn place_ship(&mut self, x: u8, y: u8) -> (r: Result<(), PlacementError>)
        requires
            old(self).wf(),
        ensures
            final(self).wf(),
            r is Ok ==> (old(self).phase == GamePhase::Placing && (x as nat) < old(self).grid_size
                && (y as nat) < old(self).grid_size && valid_bitsize(
                spec_bits_for_bound(old(self).grid_size as nat),
            )),
            r == Err::<(), PlacementError>(PlacementError::WrongPhase) <==> old(self).phase
                != GamePhase::Placing,
            r == Err::<(), PlacementError>(PlacementError::OutOfBounds) ==> (old(self).phase
                == GamePhase::Placing && ((x as nat) >= old(self).grid_size || (y as nat) >= old(
                self,
            ).grid_size)),
            (old(self).phase == GamePhase::Placing && (x as nat) >= old(self).grid_size) ==> r
                == Err::<(), PlacementError>(PlacementError::OutOfBounds),
            r == Err::<(), PlacementError>(PlacementError::ProofGenerationFailed) ==> (old(
                self,
            ).phase == GamePhase::Placing && (x as nat) < old(self).grid_size),
            (old(self).phase == GamePhase::Placing && (x as nat) < old(self).grid_size && (y as nat)
                < old(self).grid_size && !valid_bitsize(
                spec_bits_for_bound(old(self).grid_size as nat),
            )) ==> r == Err::<(), PlacementError>(PlacementError::ProofGenerationFailed),
            r is Err ==> *final(self) == *old(self),
            r is Ok ==> Self::spec_place_ok(*old(self), *final(self), x, y),
    {
        if self.phase != GamePhase::Placing {
            return Err(PlacementError::WrongPhase);
        }
        let x_proof = match prove_range(x, self.grid_size) {
            Ok(p) => p,
            Err(e) => {
                return Err(placement_error_of(e));
            },
        };
        let y_proof = match prove_range(y, self.grid_size) {
            Ok(p) => p,
            Err(e) => {
                return Err(placement_error_of(e));
            },
        };
        let ghost pre = *self;
        let c = commit::commit(x, y);
        self.ship_commitments.push(c);
        self.ship_positions.push((x, y));
        self.grid[y as usize][x as usize] = Cell::Ship;
        self.ship_range_proofs.push(ShipPlacementProof { x: x_proof, y: y_proof });
        if self.ship_positions.len() == self.ship_count {
            self.phase = GamePhase::Ready;
        }
        proof {
            assert(self.ship_commitments@.drop_last() =~= pre.ship_commitments@);
            assert(self.ship_range_proofs@.drop_last() =~= pre.ship_range_proofs@);
            assert(self.spec_cell(x as int, y as int) == Cell::Ship);
            assert forall|x2: int, y2: int|
                0 <= x2 < pre.grid_size && 0 <= y2 < pre.grid_size && !(x2 == x as int && y2
                    == y as int) implies self.spec_cell(x2, y2) == pre.spec_cell(x2, y2) by {
                assert(pre.grid@[y2]@.len() == pre.grid_size);
            }
            assert(self.cells_match_positions()) by {
                assert forall|x2: int, y2: int|
                    0 <= x2 < self.grid_size && 0 <= y2 < self.grid_size implies ((
                #[trigger] cell_of(self.grid@, x2, y2)) != Cell::Empty <==> exists|i: int|
                    0 <= i < self.ship_positions@.len() && (#[trigger] self.ship_positions@[i]).0
                        == x2 && self.ship_positions@[i].1 == y2) by {
                    if x2 == x as int && y2 == y as int {
                        assert(self.spec_cell(x2, y2) == Cell::Ship);
                        assert(self.ship_positions@[self.ship_positions@.len() - 1] == (x, y));
                    } else {
                        assert(self.spec_cell(x2, y2) == pre.spec_cell(x2, y2));
                        if self.spec_cell(x2, y2) != Cell::Empty {
                            let i = choose|i: int|
                                0 <= i < pre.ship_positions@.len() && (
                                #[trigger] pre.ship_positions@[i]).0 == x2
                                    && pre.ship_positions@[i].1 == y2;
                            assert(self.ship_positions@[i] == pre.ship_positions@[i]);
                        } else {
                            if exists|i: int|
                                0 <= i < self.ship_positions@.len() && (
                                #[trigger] self.ship_positions@[i]).0 == x2
                                    && self.ship_positions@[i].1 == y2 {
                                let i = choose|i: int|
                                    0 <= i < self.ship_positions@.len() && (
                                    #[trigger] self.ship_positions@[i]).0 == x2
                                        && self.ship_positions@[i].1 == y2;
                                assert(i < pre.ship_positions@.len());
                                assert(pre.ship_positions@[i] == self.ship_positions@[i]);
                            }
                        }
                    }
                }
            }
        }
        Ok(())
    }

    /// Whether every ship cell has been hit. A pure query, allowed in any
    /// phase.
    pub fn all_sunk(&self) -> (sunk: bool)
        requires
            self.grid_wf(),
        ensures
            sunk == self.spec_all_sunk(),
    {
        let n = self.grid.len();
        for y in 0..n
            invariant
                n == self.grid@.len(),
                self.grid_wf(),
                forall|r: int, c: int|
                    0 <= r < y && 0 <= c < self.grid_size ==> #[trigger] cell_of(self.grid@, c, r)
                        != Cell::Ship,
        {
            let m = self.grid[y].len();
            for x in 0..m
                invariant
                    n == self.grid@.len(),
                    self.grid_wf(),
                    0 <= y < n,
                    m == self.grid@[y as int]@.len(),
                    forall|r: int, c: int|
                        0 <= r < y && 0 <= c < self.grid_size ==> #[trigger] cell_of(
                            self.grid@,
                            c,
                            r,
                        ) != Cell::Ship,
                    forall|c: int|
                        0 <= c < x ==> #[trigger] cell_of(self.grid@, c, y as int) != Cell::Ship,
            {
                if self.grid[y][x] == Cell::Ship {
                    proof {
                        assert(self.spec_cell(x as int, y as int) == Cell::Ship);
                    }
                    return false;
                }
            }
        }
        true
    }
    /// Some published commitment opens under the attack coordinate with
    /// its recorded salt: the local bookkeeping calls that a hit.
    pub open spec fn spec_digest_hit(self, x: u8, y: u8) -> bool {
        exists|i: int|
            0 <= i < self.ship_commitments@.len() && spec_opens(
                x,
                y,
                (#[trigger] self.ship_commitments@[i]).salt,
                self.ship_commitments@[i].digest@,
            )
    }

    /// Attack the cell `(x, y)`: range-check both coordinates with fresh
    /// zero-knowledge proofs, then look the hit up locally by checking the
    /// attack coordinate against every published commitment. Allowed only
    /// while battling; in particular an attack against a `Finished` board
    /// is rejected with `WrongPhase`. The board itself is unchanged: the
    /// cell is only marked once the opposing verifier has accepted the
    /// circuit proof, via `record_hit`.
    pub fn attack(&self, x: u8, y: u8) -> (r: Result<bool, RangeError>)
        requires
            self.wf(),
        ensures
            r is Ok ==> (self.phase == GamePhase::Battling && (x as nat) < self.grid_size && (
            y as nat) < self.grid_size && valid_bitsize(spec_bits_for_bound(self.grid_size as nat))),
            r == Err::<bool, RangeError>(RangeError::WrongPhase) <==> self.phase
                != GamePhase::Battling,
            r == Err::<bool, RangeError>(RangeError::OutOfBounds) ==> (self.phase
                == GamePhase::Battling && ((x as nat) >= self.grid_size || (y as nat)
                >= self.grid_size)),
            (self.phase == GamePhase::Battling && (x as nat) >= self.grid_size) ==> r == Err::<
                bool,
                RangeError,
            >(RangeError::OutOfBounds),
            r == Err::<bool, RangeError>(RangeError::ProofGenerationFailed) ==> (self.phase
                == GamePhase::Battling && (x as nat) < self.grid_size),
            (self.phase == GamePhase::Battling && (x as nat) < self.grid_size && (y as nat)
                < self.grid_size && !valid_bitsize(spec_bits_for_bound(self.grid_size as nat)))
                ==> r == Err::<bool, RangeError>(RangeError::ProofGenerationFailed),
            r matches Ok(hit) ==> hit == self.spec_digest_hit(x, y),
    {
        if self.phase != GamePhase::Battling {
            return Err(RangeError::WrongPhase);
        }
        match prove_range(x, self.grid_size) {
            Ok(_) => (),
            Err(e) => {
                return Err(e);
            },
        }
        match prove_range(y, self.grid_size) {
            Ok(_) => (),
            Err(e) => {
                return Err(e);
            },
        }
        let mut hit = false;
        let n = self.ship_commitments.len();
        for i in 0..n
            invariant
                n == self.ship_commitments@.len(),
                hit <==> exists|j: int|
                    0 <= j < i && spec_opens(
                        x,
                        y,
                        (#[trigger] self.ship_commitments@[j]).salt,
                        self.ship_commitments@[j].digest@,
                    ),
        {
            let c = &self.ship_commitments[i];
            if commit::verify(x, y, c.salt, &c.digest) {
                hit = true;
            }
        }
        Ok(hit)
    }

    /// Record an accepted hit on the cell `(x, y)`: the cell becomes
    /// `Hit`, and the board moves to `Finished` the instant no un-hit
    /// ship cell remains. To be called only after the opposing verifier
    /// has accepted the circuit proof for this attack, on a cell that
    /// holds a ship.
    pub fn record_hit(&mut self, x: u8, y: u8)
        requires
            old(self).wf(),
            old(self).phase == GamePhase::Battling,
            (x as nat) < old(self).grid_size,
            (y as nat) < old(self).grid_size,
            old(self).spec_cell(x as int, y as int) != Cell::Empty,
        ensures
            final(self).wf(),
            final(self).grid_size == old(self).grid_size,
            final(self).ship_count == old(self).ship_count,
            final(self).ship_positions == old(self).ship_positions,
            final(self).ship_commitments == old(self).ship_commitments,
            final(self).ship_range_proofs == old(self).ship_range_proofs,
            final(self).spec_cell(x as int, y as int) == Cell::Hit,
            forall|x2: int, y2: int|
                0 <= x2 < old(self).grid_size && 0 <= y2 < old(self).grid_size && !(x2 == x as int
                    && y2 == y as int) ==> final(self).spec_cell(x2, y2) == old(self).spec_cell(
                    x2,
                    y2,
                ),
            final(self).phase == (if final(self).spec_all_sunk() {
                GamePhase::Finished
            } else {
                GamePhase::Battling
            }),
    {
        let ghost pre = *self;
        self.grid[y as usize][x as usize] = Cell::Hit;
        proof {
            assert forall|x2: int, y2: int|
                0 <= x2 < pre.grid_size && 0 <= y2 < pre.grid_size && !(x2 == x as int && y2
                    == y as int) implies self.spec_cell(x2, y2) == pre.spec_cell(x2, y2) by {
                assert(pre.grid@[y2]@.len() == pre.grid_size);
            }
            assert(self.cells_match_positions()) by {
                assert forall|x2: int, y2: int|
                    0 <= x2 < self.grid_size && 0 <= y2 < self.grid_size implies ((
                #[trigger] cell_of(self.grid@, x2, y2)) != Cell::Empty <==> exists|i: int|
                    0 <= i < self.ship_positions@.len() && (#[trigger] self.ship_positions@[i]).0
                        == x2 && self.ship_positions@[i].1 == y2) by {
                    if x2 == x as int && y2 == y as int {
                        assert(pre.spec_cell(x2, y2) != Cell::Empty);
                        assert(self.spec_cell(x2, y2) == Cell::Hit);
                    } else {
                        assert(self.spec_cell(x2, y2) == pre.spec_cell(x2, y2));
                        assert(pre.cells_match_positions());
                        assert(pre.spec_cell(x2, y2) == cell_of(pre.grid@, x2, y2));
                    }
                }
            }
        }
        if self.all_sunk() {
            self.phase = GamePhase::Finished;
        }
    }

    /// Open the battle phase. To be called once both sides are `Ready`;
    /// a board with nothing afloat (no ships required) finishes at once.
    pub fn begin_battle(&mut self)
        requires
            old(self).wf(),
            old(self).phase == GamePhase::Ready,
        ensures
            final(self).wf(),
            final(self).grid_size == old(self).grid_size,
            final(self).ship_count == old(self).ship_count,
            final(self).ship_positions == old(self).ship_positions,
            final(self).ship_commitments == old(self).ship_commitments,
            final(self).ship_range_proofs == old(self).ship_range_proofs,
            final(self).grid == old(self).grid,
            final(self).phase == (if old(self).spec_all_sunk() {
                GamePhase::Finished
            } else {
                GamePhase::Battling
            }),
    {
        if self.all_sunk() {
            self.phase = GamePhase::Finished;
        } else {
            self.phase = GamePhase::Battling;
        }
    }

    /// Independently re-check every published placement proof against the
    /// bit width derived from the board size. A pure audit: any party can
    /// run it at any time on the published data, with no witness and no
    /// state change. A board whose stored proofs all satisfy the
    /// verification equations — every well-formed board, so every board
    /// built by `place_ship` — always passes; a false answer shows that
    /// some stored proof fails them. Of boards holding forged bytes the
    /// contract claims no more, since their rejection is only
    /// overwhelmingly probable.
    pub fn verify_published_proofs(&self) -> (ok: bool)
        ensures
            self.spec_proofs_accepted() ==> ok,
    {
        let bits = bits_for_bound(self.grid_size);
        let n = self.ship_range_proofs.len();
        for i in 0..n
            invariant
                n == self.ship_range_proofs@.len(),
                bits == spec_bits_for_bound(self.grid_size as nat),
        {
            let sp = &self.ship_range_proofs[i];
            if !verify_range(&sp.x, bits) {
                proof {
                    assert(!spec_proof_accepted(
                        self.ship_range_proofs@[i as int].x,
                        spec_bits_for_bound(self.grid_size as nat),
                    ));
                }
                return false;
            }
            if !verify_range(&sp.y, bits) {
                proof {
                    assert(!spec_proof_accepted(
                        self.ship_range_proofs@[i as int].y,
                        spec_bits_for_bound(self.grid_size as nat),
                    ));
                }
                return false;
            }
        }
        true
    }

    /// How many ship cells are still afloat.
    pub fn ships_remaining(&self) -> (n: usize)
        requires
            self.grid_wf(),
        ensures
            n as nat == spec_grid_ships(self.grid@),
    {
        let mut total: usize = 0;
        let rows = self.grid.len();
        for y in 0..rows
            invariant
                rows == self.grid@.len(),
                self.grid_wf(),
                total as nat == spec_grid_ships(self.grid@.take(y as int)),
                total <= y * self.grid_size,
        {
            let row = &self.grid[y];
            let cols = row.len();
            let mut row_count: usize = 0;
            for x in 0..cols
                invariant
                    cols == row@.len(),
                    row_count as nat == spec_row_ships(row@.take(x as int)),
                    row_count <= x,
            {
                proof {
                    assert(row@.take(x + 1).drop_last() =~= row@.take(x as int));
                    assert(row@.take(x + 1).last() == row@[x as int]);
                }
                if row[x] == Cell::Ship {
                    row_count = row_count + 1;
                }
            }
            proof {
                assert(row@.take(cols as int) =~= row@);
                assert(self.grid@.take(y + 1).drop_last() =~= self.grid@.take(y as int));
                assert(self.grid@.take(y + 1).last() == self.grid@[y as int]);
                assert(cols == self.grid_size);
                assert((y + 1) * self.grid_size == y * self.grid_size + self.grid_size) by (nonlinear_arith);
                assert((y + 1) * self.grid_size <= self.grid_size * self.grid_size) by (nonlinear_arith)
                    requires
                        0 <= y,
                        y + 1 <= self.grid_size,
                        self.grid@.len() == self.grid_size,
                ;
            }
            total = total + row_count;
        }
        proof {
            assert(self.grid@.take(rows as int) =~= self.grid@);
        }
        total
    }

    /// Assemble the private witness for one attack: each placed ship's
    /// position and salt together with its published digest, the public
    /// attack coordinate, and the hit bit the owner announces. This is
    /// exactly what the hit-verification circuit consumes.
    pub fn hit_witness(&self, attack_x: u8, attack_y: u8, hit: bool) -> (w: HitWitness)
        requires
            self.wf(),
        ensures
            w.attack_x == attack_x,
            w.attack_y == attack_y,
            w.hit == hit,
            w.ships@.len() == self.ship_positions@.len(),
            forall|i: int|
                0 <= i < self.ship_positions@.len() ==> (#[trigger] w.ships@[i]).x
                    == self.ship_positions@[i].0 && w.ships@[i].y == self.ship_positions@[i].1
                    && w.ships@[i].salt == self.ship_commitments@[i].salt && w.ships@[i].digest@
                    == self.ship_commitments@[i].digest@,
    {
        let mut ships: Vec<ShipWitness> = Vec::new();
        let n = self.ship_positions.len();
        for i in 0..n
            invariant
                n == self.ship_positions@.len(),
                n == self.ship_commitments@.len(),
                ships@.len() == i,
                forall|j: int|
                    0 <= j < i ==> (#[trigger] ships@[j]).x == self.ship_positions@[j].0
                        && ships@[j].y == self.ship_positions@[j].1 && ships@[j].salt
                        == self.ship_commitments@[j].salt && ships@[j].digest@
                        == self.ship_commitments@[j].digest@,
        {
            let (px, py) = self.ship_positions[i];
            let c = &self.ship_commitments[i];
            let digest = copy_bytes(&c.digest);
            ships.push(ShipWitness { x: px, y: py, salt: c.salt, digest });
        }
        HitWitness { ships, attack_x, attack_y, hit }
    }
}

/// Ship cells in one row.
pub open spec fn spec_row_ships(row: Seq<Cell>) -> nat
    decreases row.len(),
{
    if row.len() == 0 {
        0
    } else {
        spec_row_ships(row.drop_last()) + (if row.last() == Cell::Ship {
            1nat
        } else {
            0nat
        })
    }
}

/// Ship cells in the whole grid.
pub open spec fn spec_grid_ships(grid: Seq<Vec<Cell>>) -> nat
    decreases grid.len(),
{
    if grid.len() == 0 {
        0
    } else {
        spec_grid_ships(grid.drop_last()) + spec_row_ships(grid.last()@)
    }
}

/// An exact byte-for-byte copy of a byte vector.
fn copy_bytes(src: &Vec<u8>) -> (r: Vec<u8>)
    ensures
        r@ == src@,
{
    let mut r: Vec<u8> = Vec::new();
    let n = src.len();
    for i in 0..n
        invariant
            n == src@.len(),
            r@.len() == i,
            forall|j: int| 0 <= j < i ==> r@[j] == src@[j],
    {
        r.push(src[i]);
    }
    proof {
        assert(r@ =~= src@);
    }
    r
}

/// On a well-formed board, attacking the exact position of a placed ship
/// finds a matching commitment: the local hit lookup cannot deny a hit on
/// a true ship position.
pub proof fn lemma_ship_hit(b: BattleshipGame, x: u8, y: u8)
    requires
        b.wf(),
        b.spec_has_ship(x, y),
    ensures
        b.spec_digest_hit(x, y),
{
    let i = choose|i: int|
        0 <= i < b.ship_positions@.len() && #[trigger] b.ship_positions@[i] == (x, y);
    assert(spec_opens(x, y, b.ship_commitments@[i].salt, b.ship_commitments@[i].digest@));
}

/// Every placement proof a well-formed board has published verifies:
/// auditing a board that was built by `place_ship` always succeeds.
pub proof fn lemma_wf_proofs_accepted(b: BattleshipGame)
    requires
        b.wf(),
    ensures
        b.spec_proofs_accepted(),
{
}

/// Auditing is idempotent on honest boards: on an unmodified board whose
/// stored proofs satisfy the verification equations — every well-formed
/// board — two audits agree, both succeeding. For a board holding forged
/// bytes the verifier's answer is stable only with overwhelming
/// probability, which the contracts do not state.
pub proof fn lemma_audit_idempotent(b: BattleshipGame, first: bool, second: bool)
    requires
        b.spec_proofs_accepted(),
        b.spec_proofs_accepted() ==> first,
        b.spec_proofs_accepted() ==> second,
    ensures
        first == second,
{
}

} // verus!
