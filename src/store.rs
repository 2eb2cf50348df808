use std::cmp::Ordering;
use std::collections::HashMap;
use vstd::prelude::*;

use crate::outcome::{half_points, Color, Outcome};
use crate::record::ResultUpdate;
use crate::stats::{counted, reference_standing, Model, StatsDB};
use crate::timestamp::Timestamp;

verus! {

broadcast use vstd::std_specs::hash::group_hash_axioms;

/// A player's ratings, of whatever models are kept, and the instant of the
/// player's last rated game.
#[derive(Clone, Copy, Debug)]
pub struct PlayerState<P> {
    pub ratings: P,
    pub mtime: Timestamp,
}

/// Why a game could not be applied.
#[derive(Clone, Copy, Debug, PartialEq, Eq, Structural)]
pub enum UpdateError {
    /// A rating model could not compute the new ratings of a player.
    NoConvergence,
}

/// The states of both players of one game, before and after it.
#[derive(Clone, Copy, Debug)]
pub struct GameUpdate<P> {
    pub white_before: PlayerState<P>,
    pub black_before: PlayerState<P>,
    pub white_after: PlayerState<P>,
    pub black_after: PlayerState<P>,
}

/// The stored state of player `id`, or a new player with ratings `fresh`
/// whose last game is `now`.
pub open spec fn fetched<P>(m: Map<u64, PlayerState<P>>, id: u64, fresh: P, now: Timestamp) -> PlayerState<P> {
    if m.contains_key(id) {
        m[id]
    } else {
        PlayerState { ratings: fresh, mtime: now }
    }
}

/// `after` is `before` with White's guesses for `game` counted: one for each
/// rating model, whose standings of White against Black are `g`, and one from
/// the game's reported ratings.
pub open spec fn white_counted(before: StatsDB, after: StatsDB, game: ResultUpdate, g: (Ordering, Ordering, Ordering)) -> bool {
    let score = half_points(game.result->Some_0, Color::White);
    &&& after.spec_tally(Model::Glicko) == counted(before.spec_tally(Model::Glicko), score, g.0)
    &&& after.spec_tally(Model::Glicko2) == counted(before.spec_tally(Model::Glicko2), score, g.1)
    &&& after.spec_tally(Model::Ligcko2) == counted(before.spec_tally(Model::Ligcko2), score, g.2)
    &&& after.spec_tally(Model::Lichess) == counted(
        before.spec_tally(Model::Lichess),
        score,
        reference_standing(game),
    )
}

/// All players, by id, with the prediction counters of the current batch.
pub struct RatingDB<P> {
    db: HashMap<u64, PlayerState<P>>,
    stats: StatsDB,
}

impl<P: Copy> View for RatingDB<P> {
    type V = Map<u64, PlayerState<P>>;

    closed spec fn view(&self) -> Map<u64, PlayerState<P>> {
        self.db@
    }
}

impl<P: Copy> RatingDB<P> {
    /// The prediction counters of the current batch.
    pub closed spec fn spec_stats(&self) -> StatsDB {
        self.stats
    }

    /// The prediction counters of the current batch.
    pub fn stats(&self) -> (r: StatsDB)
        ensures
            r == self.spec_stats(),
    {
        self.stats
    }

    /// A store with no player and zeroed counters.
    pub fn new() -> (r: RatingDB<P>)
        ensures
            r@ == Map::<u64, PlayerState<P>>::empty(),
            r@.dom().finite(),
            r.spec_stats().is_fresh(),
    {
        RatingDB { db: HashMap::new(), stats: StatsDB::new() }
    }

    /// The number of players seen.
    pub fn player_count(&self) -> (r: usize)
        ensures
            r == self@.len(),
    {
        self.db.len()
    }

    /// The state of player `id`, if the player has been seen.
    pub fn get(&self, id: u64) -> (r: Option<PlayerState<P>>)
        ensures
            self@.contains_key(id) ==> r == Some(self@[id]),
            !self@.contains_key(id) ==> r is None,
    {
        match self.db.get(&id) {
            Some(e) => Some(*e),
            None => None,
        }
    }

    /// Applies one settled game between players `white` and `black`. A player
    /// not seen before starts from `fresh`. White is updated first, against
    /// Black's state before the game; Black is then updated against White's
    /// new state. Both are stored with the game's instant as their last game.
    /// `step(me, color, outcome, now, opponent)` gives a player's new ratings,
    /// or `None` where a model fails; then nothing is stored or counted.
    /// White's guesses are counted for the game, as `record_predictions` does,
    /// from `standings(white, black)` on the states before the game: how
    /// White's rating compares with Black's in each of the three models.
    pub fn update<F, G>(&mut self, white: u64, black: u64, game: &ResultUpdate, fresh: P, step: &F, standings: &G) -> (r: Result<GameUpdate<P>, UpdateError>)
        where
            F: Fn(&PlayerState<P>, Color, Outcome, Timestamp, &PlayerState<P>) -> Option<P>,
            G: Fn(&PlayerState<P>, &PlayerState<P>) -> (Ordering, Ordering, Ordering),
        requires
            game.result is Some,
            forall|me: &PlayerState<P>, c: Color, o: Outcome, t: Timestamp, opp: &PlayerState<P>|
                #[trigger] step.requires((me, c, o, t, opp)),
            forall|w: &PlayerState<P>, b: &PlayerState<P>| #[trigger] standings.requires((w, b)),
        ensures
            ({
                let now = game.datetime;
                let o = game.result->Some_0;
                let wb = fetched(old(self)@, white, fresh, now);
                let bb = fetched(old(self)@, black, fresh, now);
                match r {
                    Ok(u) => {
                        &&& u.white_before == wb
                        &&& u.black_before == bb
                        &&& u.white_after.mtime == now
                        &&& u.black_after.mtime == now
                        &&& step.ensures((&wb, Color::White, o, now, &bb), Some(u.white_after.ratings))
                        &&& step.ensures(
                            (&bb, Color::Black, o, now, &u.white_after),
                            Some(u.black_after.ratings),
                        )
                        &&& final(self)@ == old(self)@.insert(white, u.white_after).insert(
                            black,
                            u.black_after,
                        )
                        &&& exists|g: (Ordering, Ordering, Ordering)|
                            #![trigger standings.ensures((&wb, &bb), g)]
                            standings.ensures((&wb, &bb), g) && white_counted(
                                old(self).spec_stats(),
                                final(self).spec_stats(),
                                *game,
                                g,
                            )
                    },
                    Err(_) => {
                        &&& final(self)@ == old(self)@
                        &&& (step.ensures((&wb, Color::White, o, now, &bb), None) || exists|p: P|
                            #![trigger step.ensures((&wb, Color::White, o, now, &bb), Some(p))]
                            step.ensures((&wb, Color::White, o, now, &bb), Some(p))
                                && step.ensures(
                                (&bb, Color::Black, o, now, &PlayerState { ratings: p, mtime: now }),
                                None,
                            ))
                        &&& final(self).spec_stats() == old(self).spec_stats()
                    },
                }
            }),
            final(self)@.dom().finite(),
    {
        let now = game.datetime;
        let outcome = match game.result {
            Some(o) => o,
            None => Outcome::Draw,
        };
        let white_before = match self.db.get(&white) {
            Some(e) => *e,
            None => PlayerState { ratings: fresh, mtime: now },
        };
        let black_before = match self.db.get(&black) {
            Some(e) => *e,
            None => PlayerState { ratings: fresh, mtime: now },
        };
        let white_ratings = match step(&white_before, Color::White, outcome, now, &black_before) {
            Some(p) => p,
            None => {
                return Err(UpdateError::NoConvergence);
            },
        };
        let white_after = PlayerState { ratings: white_ratings, mtime: now };
        let black_ratings = match step(&black_before, Color::Black, outcome, now, &white_after) {
            Some(p) => p,
            None => {
                return Err(UpdateError::NoConvergence);
            },
        };
        let black_after = PlayerState { ratings: black_ratings, mtime: now };
        let g = standings(&white_before, &black_before);
        self.record_predictions(game, g.0, g.1, g.2);
        self.db.insert(white, white_after);
        self.db.insert(black, black_after);
        Ok(GameUpdate { white_before, black_before, white_after, black_after })
    }

    /// Counts White's guesses for one game: one for each rating model, from
    /// how White's rating compared with Black's before the game in that model,
    /// and one from the game's reported ratings.
    fn record_predictions(&mut self, game: &ResultUpdate, glicko: Ordering, glicko2: Ordering, ligcko2: Ordering)
        requires
            game.result is Some,
        ensures
            final(self)@ == old(self)@,
            white_counted(old(self).spec_stats(), final(self).spec_stats(), *game, (glicko, glicko2, ligcko2)),
    {
        let score = match game.result {
            Some(o) => o.score_for(Color::White),
            None => 1,
        };
        self.stats.record_prediction(Model::Glicko, score, glicko);
        self.stats.record_prediction(Model::Glicko2, score, glicko2);
        self.stats.record_prediction(Model::Ligcko2, score, ligcko2);
        self.stats.record_reference(game);
    }

    /// Starts a new batch: the prediction counters are zeroed, the players
    /// kept.
    pub fn stats_reset(&mut self)
        ensures
            final(self)@ == old(self)@,
            final(self)@.dom().finite(),
            final(self).spec_stats().is_fresh(),
    {
        self.stats = StatsDB::new();
    }
}

} // verus!
