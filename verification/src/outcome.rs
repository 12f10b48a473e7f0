//! Match outcome evaluation: decides the winner from the two boards'
//! health values.
//!
//! The board engine that tracks health is an external collaborator; only the
//! decision of when and how a winner is declared lives here.

use vstd::prelude::*;

verus! {

/// The side that wins a match. `P1` owns board a, `P2` owns board b.
#[derive(Debug, Clone, Copy, PartialEq, Eq, Structural)]
pub enum Winner {
    P1,
    P2,
}

/// The winner for a pair of health values: a side loses as soon as its
/// health reaches zero or below. When both sides are at or below zero on
/// the same tick, board a — checked first — is declared the loser, so `P2`
/// wins; this crate fixes that tie-break rather than leaving it open.
pub open spec fn spec_evaluate(board_a_health: i64, board_b_health: i64) -> Option<Winner> {
    if board_a_health <= 0 {
        Some(Winner::P2)
    } else if board_b_health <= 0 {
        Some(Winner::P1)
    } else {
        None
    }
}

/// Inspects the two boards' health and returns the winner, if any.
///
/// Returns `Some` exactly when at least one health value is zero or below;
/// the simultaneous-loss tie goes to `P2` (see [`spec_evaluate`]).
pub fn evaluate(board_a_health: i64, board_b_health: i64) -> (w: Option<Winner>)
    ensures
        w == spec_evaluate(board_a_health, board_b_health),
        w is Some <==> (board_a_health <= 0 || board_b_health <= 0),
{
    if board_a_health <= 0 {
        Some(Winner::P2)
    } else if board_b_health <= 0 {
        Some(Winner::P1)
    } else {
        None
    }
}

} // verus!
