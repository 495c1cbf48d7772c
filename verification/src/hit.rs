//! The hit-verification predicate and the data handed to the prover.
//!
//! An attack claim is sound when the claimed hit bit equals the OR, over
//! all ships, of "this ship stands exactly on the attack coordinate". The
//! zero-knowledge circuit enforces that equation over a finite field with
//! bit-valued equality indicators; `compute_hit` is the same computation
//! on plain values, and its contract pins the equation down exactly.

use vstd::prelude::*;

verus! {

/// A fleet contains a ship at exactly the attack coordinate.
pub open spec fn spec_hit(ships: Seq<(u8, u8)>, attack_x: u8, attack_y: u8) -> bool {
    exists|i: int|
        0 <= i < ships.len() && ships[i].0 == attack_x && ships[i].1 == attack_y
}

/// Boolean OR by inclusion-exclusion: for bit-valued operands,
/// `acc + m - acc * m` is their disjunction. This is the aggregation gate
/// of the hit-verification circuit, valid precisely because each operand
/// is constrained to 0 or 1.
pub proof fn lemma_or_step(acc: u64, m: u64)
    requires
        acc <= 1,
        m <= 1,
    ensures
        acc + m - acc * m == if acc == 1 || m == 1 {
            1int
        } else {
            0int
        },
{
}

/// The hit bit for an attack against a fleet: 1 exactly when some ship
/// stands on the attack coordinate. Computed the way the circuit computes
/// it: per-ship equality indicators multiplied together (AND), then folded
/// with the inclusion-exclusion OR.
pub fn compute_hit(ships: &Vec<(u8, u8)>, attack_x: u8, attack_y: u8) -> (hit: bool)
    ensures
        hit == spec_hit(ships@, attack_x, attack_y),
{
    let mut acc: u64 = 0;
    let n = ships.len();
    for i in 0..n
        invariant
            n == ships@.len(),
            acc <= 1,
            (acc == 1) <==> spec_hit(ships@.take(i as int), attack_x, attack_y),
    {
        let (sx, sy) = ships[i];
        let x_eq: u64 = if sx == attack_x {
            1
        } else {
            0
        };
        let y_eq: u64 = if sy == attack_y {
            1
        } else {
            0
        };
        let m = x_eq * y_eq;
        proof {
            lemma_or_step(acc, m);
            assert(ships@.take(i + 1).drop_last() =~= ships@.take(i as int));
            assert(ships@.take(i + 1).last() == ships@[i as int]);
            if m == 1 {
                assert(spec_hit(ships@.take(i + 1), attack_x, attack_y)) by {
                    assert(ships@.take(i + 1)[i as int] == ships@[i as int]);
                }
            }
            if acc == 1 {
                let w = choose|j: int|
                    #![trigger ships@.take(i as int)[j]]
                    0 <= j < ships@.take(i as int).len() && ships@.take(i as int)[j].0 == attack_x
                        && ships@.take(i as int)[j].1 == attack_y;
                assert(ships@.take(i + 1)[w] == ships@.take(i as int)[w]);
            }
            if acc != 1 && m != 1 {
                assert(!spec_hit(ships@.take(i + 1), attack_x, attack_y)) by {
                    if spec_hit(ships@.take(i + 1), attack_x, attack_y) {
                        let w = choose|j: int|
                            #![trigger ships@.take(i + 1)[j]]
                            0 <= j < ships@.take(i + 1).len() && ships@.take(i + 1)[j].0
                                == attack_x && ships@.take(i + 1)[j].1 == attack_y;
                        if w < i {
                            assert(ships@.take(i as int)[w] == ships@.take(i + 1)[w]);
                        }
                    }
                }
            }
        }
        acc = acc + m - acc * m;
    }
    proof {
        assert(ships@.take(n as int) =~= ships@);
    }
    acc == 1
}

/// The private witness for one ship, exactly as the circuit consumes it:
/// the position, the salt, and the published digest the circuit re-derives.
#[derive(Clone, Debug)]
pub struct ShipWitness {
    /// Ship x-coordinate (private).
    pub x: u8,
    /// Ship y-coordinate (private).
    pub y: u8,
    /// Blinding salt of the ship's commitment (private).
    pub salt: u64,
    /// The published 32-byte digest the circuit must re-derive.
    pub digest: Vec<u8>,
}

/// Everything the prover feeds the hit-verification circuit for one
/// attack: the per-ship witnesses, the public attack coordinate, and the
/// claimed hit bit.
#[derive(Clone, Debug)]
pub struct HitWitness {
    /// One witness per placed ship, in placement order.
    pub ships: Vec<ShipWitness>,
    /// Public attack x-coordinate.
    pub attack_x: u8,
    /// Public attack y-coordinate.
    pub attack_y: u8,
    /// The hit bit the prover claims.
    pub hit: bool,
}

/// An attack claim as published to the opposing verifier: the attack
/// coordinate, the claimed hit bit, the serialized circuit proof, and the
/// public instance values the proof is bound to.
#[derive(Clone, Debug)]
pub struct AttackClaim {
    /// Public attack x-coordinate.
    pub attack_x: u8,
    /// Public attack y-coordinate.
    pub attack_y: u8,
    /// The hit bit the attacked player announced.
    pub hit: bool,
    /// Serialized zero-knowledge proof of the claim.
    pub snark_proof: Vec<u8>,
    /// Public instance values: the attack coordinate and the claimed hit
    /// bit, as field values.
    pub public_inputs: Vec<u64>,
}

/// Bind a serialized circuit proof to an announced attack and its
/// hit/miss outcome. The public instance list carries exactly the attack
/// coordinate and the claimed hit bit (1 for a hit, 0 for a miss), in
/// that order, so a verifier checks the proof against the announced
/// attack and outcome and nothing else.
pub fn make_attack_claim(attack_x: u8, attack_y: u8, hit: bool, snark_proof: Vec<u8>) -> (c:
    AttackClaim)
    ensures
        c.attack_x == attack_x,
        c.attack_y == attack_y,
        c.hit == hit,
        c.snark_proof@ == snark_proof@,
        c.public_inputs@ == seq![attack_x as u64, attack_y as u64, if hit { 1u64 } else { 0u64 }],
{
    let mut public_inputs: Vec<u64> = Vec::new();
    public_inputs.push(attack_x as u64);
    public_inputs.push(attack_y as u64);
    public_inputs.push(if hit { 1 } else { 0 });
    proof {
        assert(public_inputs@ =~= seq![
            attack_x as u64,
            attack_y as u64,
            if hit { 1u64 } else { 0u64 },
        ]);
    }
    AttackClaim { attack_x, attack_y, hit, snark_proof, public_inputs }
}

} // verus!
