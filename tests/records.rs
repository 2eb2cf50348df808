use chess_ratings::text::{contains_bytes, lowercase_ascii, parse_i32};
use chess_ratings::{Color, HeaderError, Outcome, ResultUpdate, TimeControl};

fn record_with(headers: &[(&str, &str)]) -> ResultUpdate {
    let mut r = ResultUpdate::new();
    for (k, v) in headers {
        r.check_header(k.as_bytes(), v.as_bytes()).unwrap();
        r.header(k.as_bytes(), v.as_bytes());
    }
    r
}

#[test]
fn new_record_is_blank() {
    let r = ResultUpdate::new();
    assert_eq!(r.white, "");
    assert_eq!(r.result, None);
    assert_eq!(r.datetime.seconds, 0);
    assert!(!r.rated);
    assert_eq!(r.speed, TimeControl::Garbage);
    assert_eq!(r.white_rating, 1500);
    assert_eq!(r.black_rating, 1500);
    assert!(!r.valid());
}

#[test]
fn headers_fill_players_and_ratings() {
    let r = record_with(&[
        ("White", "alice"),
        ("Black", "bob"),
        ("WhiteElo", "1712"),
        ("BlackElo", "-3"),
        ("Site", "https://example.org"),
    ]);
    assert_eq!(r.white, "alice");
    assert_eq!(r.black, "bob");
    assert_eq!(r.white_rating, 1712);
    assert_eq!(r.black_rating, -3);
}

#[test]
fn result_header_names_outcome() {
    let r = record_with(&[("Result", "1-0")]);
    assert_eq!(r.result, Some(Outcome::Decisive { winner: Color::White }));
    let r = record_with(&[("Result", "0-1")]);
    assert_eq!(r.result, Some(Outcome::Decisive { winner: Color::Black }));
    let r = record_with(&[("Result", "1/2-1/2")]);
    assert_eq!(r.result, Some(Outcome::Draw));
    let r = record_with(&[("Result", "*")]);
    assert_eq!(r.result, None);
}

#[test]
fn event_header_sets_speed() {
    let cases = [
        ("Rated Blitz game", TimeControl::Blitz),
        ("Rated Rapid game", TimeControl::Rapid),
        ("Rated Classical game", TimeControl::Classical),
        ("Rated Standard game", TimeControl::Classical),
        ("Rated UltraBullet game", TimeControl::Garbage),
        ("Rated Bullet game", TimeControl::Bullet),
        ("Rated Correspondence game", TimeControl::Correspondence),
        ("Rated Chess960 game", TimeControl::Garbage),
        ("RATED BLITZ TOURNAMENT", TimeControl::Blitz),
    ];
    for (ev, speed) in cases {
        let r = record_with(&[("Event", ev)]);
        assert!(r.rated, "{}", ev);
        assert_eq!(r.speed, speed, "{}", ev);
    }
}

#[test]
fn event_header_errors() {
    let r = ResultUpdate::new();
    assert_eq!(r.check_header(b"Event", b"Unrated Blitz game"), Err(HeaderError::Unrated));
    assert_eq!(r.check_header(b"Event", b"Casual Blitz game"), Err(HeaderError::NotRated));
    assert_eq!(r.check_header(b"Event", b"Rated Chess960 game"), Ok(()));
    let r = record_with(&[("Event", "Rated Blitz game")]);
    assert_eq!(r.check_header(b"Event", b"Rated Chess960 game"), Err(HeaderError::SpeedConflict));
    assert_eq!(r.check_header(b"Event", b"Rated Rapid game"), Ok(()));
}

#[test]
fn bad_rating_and_bad_utf8_are_refused() {
    let r = ResultUpdate::new();
    assert_eq!(r.check_header(b"WhiteElo", b"?"), Err(HeaderError::BadRating));
    assert_eq!(r.check_header(b"BlackElo", b"99999999999"), Err(HeaderError::BadRating));
    assert_eq!(r.check_header(b"BlackElo", b"2100"), Ok(()));
    assert_eq!(r.check_header(b"White", &[0xff, 0xfe]), Err(HeaderError::NotUtf8));
    assert_eq!(r.check_header(b"Annotator", &[0xff]), Err(HeaderError::NotUtf8));
    assert_eq!(r.check_header(b"Annotator", b"x"), Ok(()));
}

#[test]
fn end_headers_reads_utc_instant() {
    let mut r = record_with(&[("UTCDate", "2013.01.01"), ("UTCTime", "00:00:05")]);
    r.end_headers().unwrap();
    assert_eq!(r.datetime.seconds, 1356998405);
    let mut r = record_with(&[("UTCDate", "2013.02.30"), ("UTCTime", "00:00:05")]);
    assert_eq!(r.end_headers(), Err(HeaderError::BadDateTime));
    assert_eq!(r.datetime.seconds, 0);
}

#[test]
fn useful_needs_rated_blitz_with_result() {
    let mut r = record_with(&[("Event", "Rated Blitz game")]);
    assert!(!r.useful());
    r.header(b"Result", b"1-0");
    assert!(r.valid());
    assert!(r.useful());
    assert!(!r.useful_for(TimeControl::Rapid));
    let r = record_with(&[("Event", "Rated Rapid game"), ("Result", "0-1")]);
    assert!(r.valid());
    assert!(!r.useful());
}

#[test]
fn decimal_parsing() {
    assert_eq!(parse_i32(b"1500"), Some(1500));
    assert_eq!(parse_i32(b"+7"), Some(7));
    assert_eq!(parse_i32(b"-2147483648"), Some(i32::MIN));
    assert_eq!(parse_i32(b"2147483647"), Some(i32::MAX));
    assert_eq!(parse_i32(b"2147483648"), None);
    assert_eq!(parse_i32(b""), None);
    assert_eq!(parse_i32(b"-"), None);
    assert_eq!(parse_i32(b"12a"), None);
    assert_eq!(parse_i32(b"007"), Some(7));
}

#[test]
fn byte_helpers() {
    assert_eq!(lowercase_ascii(b"Rated BLITZ 1+0"), b"rated blitz 1+0".to_vec());
    assert!(contains_bytes(b"rated blitz game", b"blitz"));
    assert!(contains_bytes(b"abc", b""));
    assert!(!contains_bytes(b"bullet", b"ultrabullet"));
    assert!(!contains_bytes(b"unrate", b"rated"));
}

#[test]
fn scores_in_half_points() {
    let white_wins = Outcome::Decisive { winner: Color::White };
    assert_eq!(white_wins.score_for(Color::White), 2);
    assert_eq!(white_wins.score_for(Color::Black), 0);
    assert_eq!(Outcome::Draw.score_for(Color::Black), 1);
}
