use std::cmp::Ordering;
use vstd::prelude::*;

use crate::outcome::{half_points, Color};
use crate::record::ResultUpdate;

verus! {

/// A predictor whose guesses are counted.
#[derive(Clone, Copy, Debug, PartialEq, Eq, Structural)]
pub enum Model {
    Glicko,
    Glicko2,
    Ligcko2,
    Lichess,
}

/// The score, in half points, that a discrete guess gives the player whose
/// rating compares as `standing` with the opponent's: a higher rating wins, an
/// equal one draws.
pub open spec fn guessed_half_points(standing: Ordering) -> nat {
    match standing {
        Ordering::Greater => 2,
        Ordering::Equal => 1,
        Ordering::Less => 0,
    }
}

/// The discrete guess of a player's score, in half points, from how the
/// player's rating compares with the opponent's.
pub fn discrete_guess(standing: Ordering) -> (r: u8)
    ensures
        r as nat == guessed_half_points(standing),
{
    match standing {
        Ordering::Greater => 2,
        Ordering::Equal => 1,
        Ordering::Less => 0,
    }
}

/// Counts of guesses and of right guesses.
#[derive(Clone, Copy, Debug, PartialEq, Eq, Structural)]
pub struct Tally {
    pub predicted: u64,
    pub guessed: u64,
}

/// One more, but a count at `u64::MAX` stays there.
pub open spec fn bumped(n: u64) -> u64 {
    if n < u64::MAX {
        (n + 1) as u64
    } else {
        n
    }
}

fn bump(n: u64) -> (r: u64)
    ensures
        r == bumped(n),
{
    if n < u64::MAX {
        n + 1
    } else {
        n
    }
}

/// The counts after one more guess for a player who scored `score` half
/// points and whose rating compared as `standing` with the opponent's.
pub open spec fn counted(t: Tally, score: nat, standing: Ordering) -> Tally {
    Tally {
        guessed: bumped(t.guessed),
        predicted: if score == guessed_half_points(standing) {
            bumped(t.predicted)
        } else {
            t.predicted
        },
    }
}

/// How White's reported rating compares with Black's.
pub open spec fn reference_standing(game: ResultUpdate) -> Ordering {
    if game.white_rating > game.black_rating {
        Ordering::Greater
    } else if game.white_rating < game.black_rating {
        Ordering::Less
    } else {
        Ordering::Equal
    }
}

/// Guesses and right guesses of each predictor over one batch.
#[derive(Clone, Copy, Debug, PartialEq, Eq, Structural)]
pub struct StatsDB {
    pub glicko_guess: u64,
    pub glicko_predicted: u64,
    pub glicko2_guess: u64,
    pub glicko2_predicted: u64,
    pub ligcko2_guess: u64,
    pub ligcko2_predicted: u64,
    pub lichess_guess: u64,
    pub lichess_predicted: u64,
}

impl StatsDB {
    /// Every counter is zero.
    pub open spec fn is_fresh(&self) -> bool {
        self == StatsDB {
            glicko_guess: 0,
            glicko_predicted: 0,
            glicko2_guess: 0,
            glicko2_predicted: 0,
            ligcko2_guess: 0,
            ligcko2_predicted: 0,
            lichess_guess: 0,
            lichess_predicted: 0,
        }
    }

    /// Zeroed counters.
    pub fn new() -> (r: StatsDB)
        ensures
            r.is_fresh(),
    {
        StatsDB {
            glicko_guess: 0,
            glicko_predicted: 0,
            glicko2_guess: 0,
            glicko2_predicted: 0,
            ligcko2_guess: 0,
            ligcko2_predicted: 0,
            lichess_guess: 0,
            lichess_predicted: 0,
        }
    }

    /// The counts of `model`.
    pub open spec fn spec_tally(&self, model: Model) -> Tally {
        match model {
            Model::Glicko => Tally { predicted: self.glicko_predicted, guessed: self.glicko_guess },
            Model::Glicko2 => Tally {
                predicted: self.glicko2_predicted,
                guessed: self.glicko2_guess,
            },
            Model::Ligcko2 => Tally {
                predicted: self.ligcko2_predicted,
                guessed: self.ligcko2_guess,
            },
            Model::Lichess => Tally {
                predicted: self.lichess_predicted,
                guessed: self.lichess_guess,
            },
        }
    }

    /// The counts of `model`, or `None` where it has made no guess yet: there
    /// is then no rate to report.
    pub fn tally(&self, model: Model) -> (r: Option<Tally>)
        ensures
            self.spec_tally(model).guessed == 0 ==> r is None,
            self.spec_tally(model).guessed > 0 ==> r == Some(self.spec_tally(model)),
    {
        let t = match model {
            Model::Glicko => Tally { predicted: self.glicko_predicted, guessed: self.glicko_guess },
            Model::Glicko2 => Tally {
                predicted: self.glicko2_predicted,
                guessed: self.glicko2_guess,
            },
            Model::Ligcko2 => Tally {
                predicted: self.ligcko2_predicted,
                guessed: self.ligcko2_guess,
            },
            Model::Lichess => Tally {
                predicted: self.lichess_predicted,
                guessed: self.lichess_guess,
            },
        };
        if t.guessed == 0 {
            None
        } else {
            Some(t)
        }
    }

    /// Counts one guess of `model` for a player who scored `score` half
    /// points and whose rating compared as `standing` with the opponent's; the
    /// guess is right when the discrete guess equals the score.
    pub fn record_prediction(&mut self, model: Model, score: u8, standing: Ordering)
        ensures
            final(self).spec_tally(model) == counted(old(self).spec_tally(model), score as nat, standing),
            forall|m: Model| m != model ==> #[trigger] final(self).spec_tally(m) == old(self).spec_tally(m),
    {
        let right = score == discrete_guess(standing);
        match model {
            Model::Glicko => {
                self.glicko_guess = bump(self.glicko_guess);
                if right {
                    self.glicko_predicted = bump(self.glicko_predicted);
                }
            },
            Model::Glicko2 => {
                self.glicko2_guess = bump(self.glicko2_guess);
                if right {
                    self.glicko2_predicted = bump(self.glicko2_predicted);
                }
            },
            Model::Ligcko2 => {
                self.ligcko2_guess = bump(self.ligcko2_guess);
                if right {
                    self.ligcko2_predicted = bump(self.ligcko2_predicted);
                }
            },
            Model::Lichess => {
                self.lichess_guess = bump(self.lichess_guess);
                if right {
                    self.lichess_predicted = bump(self.lichess_predicted);
                }
            },
        }
    }

    /// Counts the guess that the game's own reported ratings make for White.
    pub fn record_reference(&mut self, game: &ResultUpdate)
        requires
            game.result is Some,
        ensures
            final(self).spec_tally(Model::Lichess) == counted(
                old(self).spec_tally(Model::Lichess),
                half_points(game.result->Some_0, Color::White),
                reference_standing(*game),
            ),
            forall|m: Model|
                m != Model::Lichess ==> #[trigger] final(self).spec_tally(m) == old(self).spec_tally(m),
    {
        let score = match game.result {
            Some(o) => o.score_for(Color::White),
            None => 1,
        };
        let standing = if game.white_rating > game.black_rating {
            Ordering::Greater
        } else if game.white_rating < game.black_rating {
            Ordering::Less
        } else {
            Ordering::Equal
        };
        self.record_prediction(Model::Lichess, score, standing);
    }
}

/// A freshly reset accumulator has no guess of any model on record, so
/// `tally` reports that there is no data rather than a rate.
pub proof fn fresh_stats_have_no_data(s: StatsDB, model: Model)
    requires
        s.is_fresh(),
    ensures
        s.spec_tally(model).guessed == 0,
        s.spec_tally(model).predicted == 0,
{
}

} // verus!
