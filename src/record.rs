use vstd::prelude::*;
use vstd::utf8::{decode_utf8, valid_utf8};

use crate::outcome::{Color, Outcome};
use crate::text::{
    ascii, ascii_lowered, contains_ascii, decimal_i32, equals_ascii, holds_sub, lowercase_ascii,
    parse_i32,
};
use crate::timestamp::{utc_seconds, Timestamp};

verus! {

/// The speed class of a game, as its event name gives it.
#[derive(Clone, Copy, Debug, PartialEq, Eq, Structural)]
pub enum TimeControl {
    Garbage,
    Bullet,
    Blitz,
    Rapid,
    Classical,
    Correspondence,
}

/// Why a header or the header block of a game cannot be taken.
#[derive(Clone, Copy, Debug, PartialEq, Eq, Structural)]
pub enum HeaderError {
    /// A header value is not UTF-8.
    NotUtf8,
    /// The event names an unrated game.
    Unrated,
    /// The event says nothing of the game being rated.
    NotRated,
    /// The event names no known speed, but an earlier event header did.
    SpeedConflict,
    /// A rating header is not a decimal `i32`.
    BadRating,
    /// The date and time headers do not spell an instant.
    BadDateTime,
}

/// One game as read from its headers.
#[derive(Clone, Debug)]
pub struct ResultUpdate {
    pub white: String,
    pub black: String,
    pub result: Option<Outcome>,
    pub date: String,
    pub time: String,
    pub datetime: Timestamp,
    pub rated: bool,
    pub speed: TimeControl,
    pub white_rating: i32,
    pub black_rating: i32,
}

/// What a `ResultUpdate` holds, with its texts as characters.
pub struct RecordModel {
    pub white: Seq<char>,
    pub black: Seq<char>,
    pub result: Option<Outcome>,
    pub date: Seq<char>,
    pub time: Seq<char>,
    pub datetime: Timestamp,
    pub rated: bool,
    pub speed: TimeControl,
    pub white_rating: i32,
    pub black_rating: i32,
}

impl View for ResultUpdate {
    type V = RecordModel;

    open spec fn view(&self) -> RecordModel {
        RecordModel {
            white: self.white@,
            black: self.black@,
            result: self.result,
            date: self.date@,
            time: self.time@,
            datetime: self.datetime,
            rated: self.rated,
            speed: self.speed,
            white_rating: self.white_rating,
            black_rating: self.black_rating,
        }
    }
}

/// The format of the joined date and time headers.
pub open spec fn record_time_format() -> Seq<char> {
    "%Y.%m.%d %H:%M:%S"@
}

/// The speed class that a lower-cased event name gives, where `current` is the
/// class that the record held before.
pub open spec fn event_speed(ev: Seq<u8>, current: TimeControl) -> Result<TimeControl, HeaderError> {
    if holds_sub(ev, ascii(seq!['u', 'n', 'r', 'a', 't', 'e', 'd'])) {
        Err(HeaderError::Unrated)
    } else if !holds_sub(ev, ascii(seq!['r', 'a', 't', 'e', 'd'])) {
        Err(HeaderError::NotRated)
    } else if holds_sub(ev, ascii(seq!['b', 'l', 'i', 't', 'z'])) {
        Ok(TimeControl::Blitz)
    } else if holds_sub(ev, ascii(seq!['r', 'a', 'p', 'i', 'd'])) {
        Ok(TimeControl::Rapid)
    } else if holds_sub(ev, ascii(seq!['c', 'l', 'a', 's', 's', 'i', 'c', 'a', 'l'])) {
        Ok(TimeControl::Classical)
    } else if holds_sub(ev, ascii(seq!['s', 't', 'a', 'n', 'd', 'a', 'r', 'd'])) {
        Ok(TimeControl::Classical)
    } else if holds_sub(ev, ascii(seq!['u', 'l', 't', 'r', 'a', 'b', 'u', 'l', 'l', 'e', 't'])) {
        Ok(TimeControl::Garbage)
    } else if holds_sub(ev, ascii(seq!['b', 'u', 'l', 'l', 'e', 't'])) {
        Ok(TimeControl::Bullet)
    } else if holds_sub(ev, ascii(seq!['c', 'o', 'r', 'r', 'e', 's', 'p', 'o', 'n', 'd', 'e', 'n', 'c', 'e'])) {
        Ok(TimeControl::Correspondence)
    } else if current == TimeControl::Garbage {
        Ok(TimeControl::Garbage)
    } else {
        Err(HeaderError::SpeedConflict)
    }
}

/// The outcome that a result header value names, if any.
pub open spec fn result_of(value: Seq<u8>) -> Option<Outcome> {
    if value == ascii(seq!['1', '-', '0']) {
        Some(Outcome::Decisive { winner: Color::White })
    } else if value == ascii(seq!['0', '-', '1']) {
        Some(Outcome::Decisive { winner: Color::Black })
    } else if value == ascii(seq!['1', '/', '2', '-', '1', '/', '2']) {
        Some(Outcome::Draw)
    } else {
        None
    }
}

/// The record after the header `key`: `value`, or why it cannot be taken.
pub open spec fn header_model(m: RecordModel, key: Seq<u8>, value: Seq<u8>) -> Result<RecordModel, HeaderError> {
    if !valid_utf8(value) {
        Err(HeaderError::NotUtf8)
    } else if key == ascii(seq!['W', 'h', 'i', 't', 'e']) {
        Ok(RecordModel { white: decode_utf8(value), ..m })
    } else if key == ascii(seq!['B', 'l', 'a', 'c', 'k']) {
        Ok(RecordModel { black: decode_utf8(value), ..m })
    } else if key == ascii(seq!['R', 'e', 's', 'u', 'l', 't']) {
        match result_of(value) {
            Some(o) => Ok(RecordModel { result: Some(o), ..m }),
            None => Ok(m),
        }
    } else if key == ascii(seq!['U', 'T', 'C', 'D', 'a', 't', 'e']) {
        Ok(RecordModel { date: decode_utf8(value), ..m })
    } else if key == ascii(seq!['U', 'T', 'C', 'T', 'i', 'm', 'e']) {
        Ok(RecordModel { time: decode_utf8(value), ..m })
    } else if key == ascii(seq!['E', 'v', 'e', 'n', 't']) {
        match event_speed(ascii_lowered(value), m.speed) {
            Ok(s) => Ok(RecordModel { rated: true, speed: s, ..m }),
            Err(e) => Err(e),
        }
    } else if key == ascii(seq!['W', 'h', 'i', 't', 'e', 'E', 'l', 'o']) {
        match decimal_i32(value) {
            Some(n) => Ok(RecordModel { white_rating: n, ..m }),
            None => Err(HeaderError::BadRating),
        }
    } else if key == ascii(seq!['B', 'l', 'a', 'c', 'k', 'E', 'l', 'o']) {
        match decimal_i32(value) {
            Some(n) => Ok(RecordModel { black_rating: n, ..m }),
            None => Err(HeaderError::BadRating),
        }
    } else {
        Ok(m)
    }
}

/// Relies on std's `String::from_utf8`: the bytes as a string where they are
/// UTF-8, an error otherwise.
#[verifier::external_body]
fn utf8_text(b: &[u8]) -> (r: Option<String>)
    ensures
        r is Some <==> valid_utf8(b@),
        r matches Some(s) ==> s@ == decode_utf8(b@),
{
    String::from_utf8(b.to_vec()).ok()
}

/// `a`, one space, then `b`.
fn joined_with_space(a: &str, b: &str) -> (r: String)
    ensures
        r@ == a@ + seq![' '] + b@,
{
    let mut r = a.to_owned();
    let space = " ";
    proof {
        reveal_strlit(" ");
    }
    r.append(space);
    r.append(b);
    r
}

/// The speed class that a lower-cased event name gives, where `current` is the
/// class that the record held before.
pub fn classify_event(ev: &[u8], current: TimeControl) -> (r: Result<TimeControl, HeaderError>)
    ensures
        r == event_speed(ev@, current),
{
    if contains_ascii(ev, &['u', 'n', 'r', 'a', 't', 'e', 'd']) {
        Err(HeaderError::Unrated)
    } else if !contains_ascii(ev, &['r', 'a', 't', 'e', 'd']) {
        Err(HeaderError::NotRated)
    } else if contains_ascii(ev, &['b', 'l', 'i', 't', 'z']) {
        Ok(TimeControl::Blitz)
    } else if contains_ascii(ev, &['r', 'a', 'p', 'i', 'd']) {
        Ok(TimeControl::Rapid)
    } else if contains_ascii(ev, &['c', 'l', 'a', 's', 's', 'i', 'c', 'a', 'l']) {
        Ok(TimeControl::Classical)
    } else if contains_ascii(ev, &['s', 't', 'a', 'n', 'd', 'a', 'r', 'd']) {
        Ok(TimeControl::Classical)
    } else if contains_ascii(ev, &['u', 'l', 't', 'r', 'a', 'b', 'u', 'l', 'l', 'e', 't']) {
        Ok(TimeControl::Garbage)
    } else if contains_ascii(ev, &['b', 'u', 'l', 'l', 'e', 't']) {
        Ok(TimeControl::Bullet)
    } else if contains_ascii(ev, &['c', 'o', 'r', 'r', 'e', 's', 'p', 'o', 'n', 'd', 'e', 'n', 'c', 'e']) {
        Ok(TimeControl::Correspondence)
    } else if current == TimeControl::Garbage {
        Ok(TimeControl::Garbage)
    } else {
        Err(HeaderError::SpeedConflict)
    }
}

/// The outcome that a result header value names, if any.
pub fn parse_result(value: &[u8]) -> (r: Option<Outcome>)
    ensures
        r == result_of(value@),
{
    if equals_ascii(value, &['1', '-', '0']) {
        Some(Outcome::Decisive { winner: Color::White })
    } else if equals_ascii(value, &['0', '-', '1']) {
        Some(Outcome::Decisive { winner: Color::Black })
    } else if equals_ascii(value, &['1', '/', '2', '-', '1', '/', '2']) {
        Some(Outcome::Draw)
    } else {
        None
    }
}

impl ResultUpdate {
    /// A record before any header: no players, no result, unrated, speed
    /// unknown, both ratings 1500, at the epoch.
    pub fn new() -> (r: ResultUpdate)
        ensures
            r@.white.len() == 0,
            r@.black.len() == 0,
            r@.result is None,
            r@.date.len() == 0,
            r@.time.len() == 0,
            r@.datetime.seconds == 0,
            !r@.rated,
            r@.speed == TimeControl::Garbage,
            r@.white_rating == 1500,
            r@.black_rating == 1500,
    {
        ResultUpdate {
            white: String::new(),
            black: String::new(),
            result: None,
            date: String::new(),
            time: String::new(),
            datetime: Timestamp::epoch(),
            rated: false,
            speed: TimeControl::Garbage,
            white_rating: 1500,
            black_rating: 1500,
        }
    }

    /// A rated game of a known speed with a settled result.
    pub open spec fn spec_valid(&self) -> bool {
        self.rated && self.speed != TimeControl::Garbage && self.result is Some
    }

    /// Whether the game is rated, of a known speed and settled.
    pub fn valid(&self) -> (r: bool)
        ensures
            r == self.spec_valid(),
    {
        self.rated && self.speed != TimeControl::Garbage && self.result.is_some()
    }

    /// Whether the game is valid and of the speed class `class`.
    pub fn useful_for(&self, class: TimeControl) -> (r: bool)
        ensures
            r == (self.spec_valid() && self.speed == class),
    {
        self.valid() && self.speed == class
    }

    /// Whether the game is valid and a blitz game, the class that the
    /// comparison runs on.
    pub fn useful(&self) -> (r: bool)
        ensures
            r == (self.spec_valid() && self.speed == TimeControl::Blitz),
    {
        self.useful_for(TimeControl::Blitz)
    }

    /// Whether the header `key`: `value` can be taken, and if not, why: its
    /// value is not UTF-8, an event name is unrated, not rated or of an
    /// unknown speed after a known one, or a rating is not a decimal `i32`.
    pub fn check_header(&self, key: &[u8], value: &[u8]) -> (r: Result<(), HeaderError>)
        ensures
            match header_model(self@, key@, value@) {
                Ok(_) => r is Ok,
                Err(e) => r == Err::<(), HeaderError>(e),
            },
    {
        if utf8_text(value).is_none() {
            return Err(HeaderError::NotUtf8);
        }
        if equals_ascii(key, &['W', 'h', 'i', 't', 'e']) || equals_ascii(key, &['B', 'l', 'a', 'c', 'k'])
            || equals_ascii(key, &['R', 'e', 's', 'u', 'l', 't'])
            || equals_ascii(key, &['U', 'T', 'C', 'D', 'a', 't', 'e'])
            || equals_ascii(key, &['U', 'T', 'C', 'T', 'i', 'm', 'e']) {
            Ok(())
        } else if equals_ascii(key, &['E', 'v', 'e', 'n', 't']) {
            let lowered = lowercase_ascii(value);
            match classify_event(lowered.as_slice(), self.speed) {
                Ok(_) => Ok(()),
                Err(e) => Err(e),
            }
        } else if equals_ascii(key, &['W', 'h', 'i', 't', 'e', 'E', 'l', 'o'])
            || equals_ascii(key, &['B', 'l', 'a', 'c', 'k', 'E', 'l', 'o']) {
            match parse_i32(value) {
                Some(_) => Ok(()),
                None => Err(HeaderError::BadRating),
            }
        } else {
            Ok(())
        }
    }

    /// Takes one header of the game, one that `check_header` accepts.
    pub fn header(&mut self, key: &[u8], value: &[u8])
        requires
            header_model(old(self)@, key@, value@) is Ok,
        ensures
            final(self)@ == header_model(old(self)@, key@, value@)->Ok_0,
    {
        let text = match utf8_text(value) {
            Some(t) => t,
            None => {
                return;
            },
        };
        if equals_ascii(key, &['W', 'h', 'i', 't', 'e']) {
            self.white = text;
        } else if equals_ascii(key, &['B', 'l', 'a', 'c', 'k']) {
            self.black = text;
        } else if equals_ascii(key, &['R', 'e', 's', 'u', 'l', 't']) {
            match parse_result(value) {
                Some(o) => {
                    self.result = Some(o);
                },
                None => {},
            }
        } else if equals_ascii(key, &['U', 'T', 'C', 'D', 'a', 't', 'e']) {
            self.date = text;
        } else if equals_ascii(key, &['U', 'T', 'C', 'T', 'i', 'm', 'e']) {
            self.time = text;
        } else if equals_ascii(key, &['E', 'v', 'e', 'n', 't']) {
            let lowered = lowercase_ascii(value);
            match classify_event(lowered.as_slice(), self.speed) {
                Ok(speed) => {
                    self.rated = true;
                    self.speed = speed;
                },
                Err(_) => {},
            }
        } else if equals_ascii(key, &['W', 'h', 'i', 't', 'e', 'E', 'l', 'o']) {
            match parse_i32(value) {
                Some(n) => {
                    self.white_rating = n;
                },
                None => {},
            }
        } else if equals_ascii(key, &['B', 'l', 'a', 'c', 'k', 'E', 'l', 'o']) {
            match parse_i32(value) {
                Some(n) => {
                    self.black_rating = n;
                },
                None => {},
            }
        }
    }

    /// Closes the header block: reads the date and time headers, joined by a
    /// space, as the instant of the game. On an error the record is left as it
    /// was.
    pub fn end_headers(&mut self) -> (r: Result<(), HeaderError>)
        ensures
            match utc_seconds(old(self)@.date + seq![' '] + old(self)@.time, record_time_format()) {
                Some(t) => r is Ok && final(self)@ == (RecordModel {
                    datetime: Timestamp { seconds: t },
                    ..old(self)@
                }),
                None => r == Err::<(), HeaderError>(HeaderError::BadDateTime) && final(self)@
                    == old(self)@,
            },
    {
        let text = joined_with_space(self.date.as_str(), self.time.as_str());
        match Timestamp::parse(text.as_str(), "%Y.%m.%d %H:%M:%S") {
            Some(t) => {
                self.datetime = t;
                Ok(())
            },
            None => Err(HeaderError::BadDateTime),
        }
    }
}

} // verus!
