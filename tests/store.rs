use std::cmp::Ordering;

use chess_ratings::{
    rank_by_lower_bound, Color, GameFramer, Model, Outcome, PlayerState, RatingDB, ResultUpdate,
    StatsDB, Tally, Timestamp, UpdateError,
};

fn game(result: &str, seconds: i64) -> ResultUpdate {
    let mut r = ResultUpdate::new();
    r.header(b"Event", b"Rated Blitz game");
    r.header(b"Result", result.as_bytes());
    r.datetime = Timestamp { seconds };
    r
}

fn even(_w: &PlayerState<i64>, _b: &PlayerState<i64>) -> (Ordering, Ordering, Ordering) {
    (Ordering::Equal, Ordering::Equal, Ordering::Equal)
}

fn by_rating(w: &PlayerState<i64>, b: &PlayerState<i64>) -> (Ordering, Ordering, Ordering) {
    let o = w.ratings.cmp(&b.ratings);
    (o, o.reverse(), Ordering::Equal)
}

fn mix(me: &PlayerState<i64>, _c: Color, _o: Outcome, _t: Timestamp, opp: &PlayerState<i64>) -> Option<i64> {
    Some(me.ratings * 10 + opp.ratings)
}

#[test]
fn black_is_updated_against_whites_new_state() {
    let mut db: RatingDB<i64> = RatingDB::new();
    let u = db.update(1, 2, &game("1-0", 100), 1, &mix, &even).unwrap();
    assert_eq!(u.white_before.ratings, 1);
    assert_eq!(u.black_before.ratings, 1);
    assert_eq!(u.white_after.ratings, 11);
    assert_eq!(u.black_after.ratings, 21);
    assert_eq!(db.get(1).unwrap().ratings, 11);
    assert_eq!(db.get(2).unwrap().ratings, 21);
    assert_eq!(db.get(1).unwrap().mtime.seconds, 100);
    assert_eq!(db.player_count(), 2);
}

#[test]
fn new_players_start_fresh_at_game_time() {
    let mut db: RatingDB<i64> = RatingDB::new();
    db.update(1, 2, &game("1-0", 100), 1, &mix, &even).unwrap();
    let u = db.update(2, 3, &game("0-1", 250), 1, &mix, &even).unwrap();
    assert_eq!(u.white_before.ratings, 21);
    assert_eq!(u.white_before.mtime.seconds, 100);
    assert_eq!(u.black_before.ratings, 1);
    assert_eq!(u.black_before.mtime.seconds, 250);
    assert_eq!(db.player_count(), 3);
    assert!(db.get(4).is_none());
}

#[test]
fn failed_step_stores_nothing() {
    let mut db: RatingDB<i64> = RatingDB::new();
    let fail = |_: &PlayerState<i64>, c: Color, _: Outcome, _: Timestamp, _: &PlayerState<i64>| {
        if c == Color::Black { None } else { Some(5) }
    };
    assert_eq!(db.update(1, 2, &game("1/2-1/2", 9), 0, &fail, &even).err(), Some(UpdateError::NoConvergence));
    assert_eq!(db.player_count(), 0);
}

#[test]
fn fresh_stats_report_no_data() {
    let s = StatsDB::new();
    for m in [Model::Glicko, Model::Glicko2, Model::Ligcko2, Model::Lichess] {
        assert_eq!(s.tally(m), None);
    }
    let mut db: RatingDB<i64> = RatingDB::new();
    db.update(1, 2, &game("1-0", 0), 1, &mix, &even).unwrap();
    assert!(db.stats().tally(Model::Glicko).is_some());
    db.stats_reset();
    for m in [Model::Glicko, Model::Glicko2, Model::Ligcko2, Model::Lichess] {
        assert_eq!(db.stats().tally(m), None);
    }
    assert_eq!(db.player_count(), 2);
}

#[test]
fn update_counts_whites_guesses() {
    let mut db: RatingDB<i64> = RatingDB::new();
    // Both start at 1: every guess is a draw, wrong for a decisive game.
    let mut g = game("1-0", 0);
    g.white_rating = 1400;
    g.black_rating = 1600;
    db.update(1, 2, &g, 1, &mix, &by_rating).unwrap();
    let s = db.stats();
    assert_eq!(s.tally(Model::Glicko), Some(Tally { predicted: 0, guessed: 1 }));
    assert_eq!(s.tally(Model::Lichess), Some(Tally { predicted: 0, guessed: 1 }));
    // Now player 1 holds 11 and player 2 holds 21: 2 is ahead of 1.
    db.update(2, 1, &game("1-0", 10), 1, &mix, &by_rating).unwrap();
    let s = db.stats();
    assert_eq!(s.tally(Model::Glicko), Some(Tally { predicted: 1, guessed: 2 }));
    assert_eq!(s.tally(Model::Glicko2), Some(Tally { predicted: 0, guessed: 2 }));
    assert_eq!(s.tally(Model::Ligcko2), Some(Tally { predicted: 0, guessed: 2 }));
    assert_eq!(s.tally(Model::Lichess), Some(Tally { predicted: 0, guessed: 2 }));
    // A draw between equal reported ratings is a right reference guess.
    db.update(3, 4, &game("1/2-1/2", 20), 1, &mix, &by_rating).unwrap();
    let s = db.stats();
    assert_eq!(s.tally(Model::Glicko), Some(Tally { predicted: 2, guessed: 3 }));
    assert_eq!(s.tally(Model::Ligcko2), Some(Tally { predicted: 1, guessed: 3 }));
    assert_eq!(s.tally(Model::Lichess), Some(Tally { predicted: 1, guessed: 3 }));
}

#[test]
fn failed_update_counts_nothing() {
    let mut db: RatingDB<i64> = RatingDB::new();
    let fail = |_: &PlayerState<i64>, _: Color, _: Outcome, _: Timestamp, _: &PlayerState<i64>| None;
    assert!(db.update(1, 2, &game("1-0", 0), 1, &fail, &even).is_err());
    assert_eq!(db.stats().tally(Model::Glicko), None);
    assert_eq!(db.stats().tally(Model::Lichess), None);
}

#[test]
fn saturated_counter_stays() {
    let mut s = StatsDB::new();
    s.glicko_guess = u64::MAX;
    s.record_prediction(Model::Glicko, 2, Ordering::Greater);
    assert_eq!(s.glicko_guess, u64::MAX);
    assert_eq!(s.glicko_predicted, 1);
}

#[test]
fn report_order_by_lower_bound() {
    let rows = vec![(1500, 350), (1600, 50), (1500, 100), (1600, 50)];
    assert_eq!(rank_by_lower_bound(&rows), vec![1, 3, 2, 0]);
    assert_eq!(rank_by_lower_bound(&vec![]), Vec::<usize>::new());
}

#[test]
fn framer_splits_on_second_blank_line() {
    let mut f = GameFramer::new();
    assert_eq!(f.push_line("[Event \"Rated Blitz game\"]"), None);
    assert_eq!(f.push_line(""), None);
    assert_eq!(f.push_line("1. e4 1-0"), None);
    assert_eq!(f.push_line("").as_deref(), Some("[Event \"Rated Blitz game\"]\n\n1. e4 1-0\n"));
    assert_eq!(f.push_line("x"), None);
}

#[test]
fn seconds_between_instants() {
    let a = Timestamp { seconds: 100 };
    let b = Timestamp { seconds: 86500 };
    assert_eq!(a.seconds_until(&b), 86400);
    assert_eq!(b.seconds_until(&a), -86400);
    assert_eq!(Timestamp::epoch().seconds, 0);
}

#[test]
fn discrete_guess_follows_rating_order() {
    assert_eq!(chess_ratings::discrete_guess(Ordering::Greater), 2);
    assert_eq!(chess_ratings::discrete_guess(Ordering::Equal), 1);
    assert_eq!(chess_ratings::discrete_guess(Ordering::Less), 0);
}

#[test]
fn same_player_on_both_sides_keeps_black_result() {
    let mut db: RatingDB<i64> = RatingDB::new();
    let u = db.update(7, 7, &game("1-0", 5), 2, &mix, &even).unwrap();
    assert_eq!(u.white_after.ratings, 22);
    assert_eq!(u.black_after.ratings, 42);
    assert_eq!(db.get(7).unwrap().ratings, 42);
    assert_eq!(db.player_count(), 1);
}
