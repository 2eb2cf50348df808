use vstd::prelude::*;

verus! {

/// The side a player had in a game.
#[derive(Clone, Copy, Debug, PartialEq, Eq, Structural)]
pub enum Color {
    White,
    Black,
}

/// A settled game result.
#[derive(Clone, Copy, Debug, PartialEq, Eq, Structural)]
pub enum Outcome {
    Decisive { winner: Color },
    Draw,
}

/// The score, in half points, that `color` earned from `outcome`:
/// 2 for a win, 1 for a draw, 0 for a loss.
pub open spec fn half_points(outcome: Outcome, color: Color) -> nat {
    match outcome {
        Outcome::Draw => 1,
        Outcome::Decisive { winner } => if winner == color { 2 } else { 0 },
    }
}

impl Outcome {
    /// The score of `color` in this game, in half points.
    pub fn score_for(&self, color: Color) -> (r: u8)
        ensures
            r as nat == half_points(*self, color),
    {
        match self {
            Outcome::Draw => 1,
            Outcome::Decisive { winner } => if *winner == color { 2 } else { 0 },
        }
    }
}

} // verus!
