//! Bookkeeping around a chess rating comparison: game records read from PGN
//! headers, the per-player store and the order in which a game updates its
//! two players, prediction counters, record framing and report ordering. The
//! rating arithmetic itself is supplied by the caller as an update step.

mod framing;
mod outcome;
mod record;
mod report;
mod stats;
mod store;
pub mod text;
mod timestamp;

pub use framing::GameFramer;
pub use outcome::{Color, Outcome};
pub use record::{HeaderError, ResultUpdate, TimeControl};
pub use report::rank_by_lower_bound;
pub use stats::{discrete_guess, Model, StatsDB, Tally};
pub use store::{GameUpdate, PlayerState, RatingDB, UpdateError};
pub use timestamp::Timestamp;
