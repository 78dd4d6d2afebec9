//! Points in time and the spans between them.

use std::str::FromStr;

use jiff::civil::Date;
use jiff::Zoned;
use vstd::prelude::*;

verus! {

#[verifier::external_type_specification]
#[verifier::external_body]
pub struct ExDate(jiff::civil::Date);

#[verifier::external_type_specification]
#[verifier::external_body]
pub struct ExZoned(jiff::Zoned);

#[verifier::external_type_specification]
#[verifier::external_body]
pub struct ExError(jiff::Error);

/// The date that `jiff` reads from `text`, if it reads one.
pub uninterp spec fn civil_date(text: Seq<char>) -> Option<jiff::civil::Date>;

/// `jiff`'s parser of civil dates, `Date::from_str`. It reads its text and
/// nothing else, so a text has one reading, named here without saying which:
/// the parse succeeds with the date that `civil_date` gives, and fails where
/// it gives none.
pub assume_specification[ <jiff::civil::Date as core::str::FromStr>::from_str ](
    string: &str,
) -> (parsed: Result<jiff::civil::Date, jiff::Error>)
    ensures
        match parsed {
            Ok(date) => civil_date(string@) == Some(date),
            Err(_) => civil_date(string@).is_none(),
        },
;

/// `jiff`'s parser of zoned datetimes, `Zoned::from_str`. It looks the time
/// zone up in the database of the machine it runs on, so nothing is said of
/// what it returns.
pub assume_specification[ <jiff::Zoned as core::str::FromStr>::from_str ](string: &str) -> (parsed:
    Result<jiff::Zoned, jiff::Error>)
;

/// `Date::clone`, which `jiff` derives: the copy is the date.
pub assume_specification[ <jiff::civil::Date as Clone>::clone ](date: &jiff::civil::Date) -> (copy:
    jiff::civil::Date)
    ensures
        copy == *date,
;

/// `Zoned::clone`, which `jiff` derives: the copy is the datetime.
pub assume_specification[ <jiff::Zoned as Clone>::clone ](zoned: &jiff::Zoned) -> (copy:
    jiff::Zoned)
    ensures
        copy == *zoned,
;

/// `Date::default`. Nothing is said of the date that it gives.
pub assume_specification[ <jiff::civil::Date as Default>::default ]() -> (date: jiff::civil::Date)
;

/// `Zoned::default`. Nothing is said of the datetime that it gives.
pub assume_specification[ <jiff::Zoned as Default>::default ]() -> (zoned: jiff::Zoned)
;

/// A point in time: a day of the calendar, or a moment in a time zone.
#[derive(Clone, Debug, PartialEq, Eq)]
pub enum InstantInner {
    Date(Date),
    Zoned(Zoned),
}

impl Default for InstantInner {
    fn default() -> (inner: InstantInner)
        ensures
            inner is Date,
    {
        InstantInner::Date(Date::default())
    }
}

/// A point in time.
#[derive(Clone, Debug, PartialEq, Eq)]
pub struct Instant(pub InstantInner);

impl Default for Instant {
    fn default() -> (instant: Instant)
        ensures
            instant.0 is Date,
    {
        Instant(InstantInner::default())
    }
}

impl Instant {
    /// The day `date`.
    pub fn new_date(date: Date) -> (instant: Instant)
        ensures
            instant.0 == InstantInner::Date(date),
    {
        Instant(InstantInner::Date(date))
    }

    /// The moment `zoned`.
    pub fn new_zoned(zoned: Zoned) -> (instant: Instant)
        ensures
            instant.0 == InstantInner::Zoned(zoned),
    {
        Instant(InstantInner::Zoned(zoned))
    }

    /// What to make of a text that is no zoned datetime, given its reading as
    /// a date: the day, or the error of that reading.
    pub fn from_date(parsed: Result<Date, jiff::Error>) -> (instant: Result<Instant, jiff::Error>)
        ensures
            match parsed {
                Ok(date) => instant == Ok::<Instant, jiff::Error>(Instant(InstantInner::Date(date))),
                Err(error) => instant == Err::<Instant, jiff::Error>(error),
            },
    {
        match parsed {
            Ok(date) => Ok(Instant::new_date(date)),
            Err(error) => Err(error),
        }
    }

    /// Reads a point in time from `text`: a moment, where the text is a
    /// zoned datetime, and else a day, where the text is a date. Where it is
    /// neither, the error is that of the reading as a date.
    pub fn from_str(text: &str) -> (instant: Result<Instant, jiff::Error>)
        ensures
            match instant {
                Ok(instant) => instant.0 is Zoned || civil_date(text@) == Some(instant.0->Date_0),
                Err(_) => civil_date(text@).is_none(),
            },
    {
        match Zoned::from_str(text) {
            Ok(zoned) => Ok(Instant::new_zoned(zoned)),
            Err(_) => Instant::from_date(Date::from_str(text)),
        }
    }
}

impl FromStr for Instant {
    type Err = jiff::Error;

    /// Reads a point in time as [`Instant::from_str`] does: a text that is a
    /// date is never refused, and a day that is read is the day of the text.
    fn from_str(text: &str) -> (instant: Result<Instant, jiff::Error>)
        ensures
            match instant {
                Ok(instant) => instant.0 is Zoned || civil_date(text@) == Some(instant.0->Date_0),
                Err(_) => civil_date(text@).is_none(),
            },
    {
        Instant::from_str(text)
    }
}

/// A span of time, from its start to its end.
#[derive(Debug)]
pub struct TimeFrame {
    all_day: bool,
    start: Instant,
    end: Instant,
}

/// What a [`TimeFrame`] holds.
pub struct TimeFrameView {
    pub all_day: bool,
    pub start: Instant,
    pub end: Instant,
}

impl View for TimeFrame {
    type V = TimeFrameView;

    closed spec fn view(&self) -> TimeFrameView {
        TimeFrameView { all_day: self.all_day, start: self.start, end: self.end }
    }
}

impl TimeFrame {
    /// The span between two moments.
    pub fn new_zoned(all_day: bool, start: Zoned, end: Zoned) -> (frame: TimeFrame)
        ensures
            frame@ == (TimeFrameView {
                all_day,
                start: Instant(InstantInner::Zoned(start)),
                end: Instant(InstantInner::Zoned(end)),
            }),
    {
        TimeFrame { all_day, start: Instant::new_zoned(start), end: Instant::new_zoned(end) }
    }

    /// The span between two days.
    pub fn new_date(all_day: bool, start: Date, end: Date) -> (frame: TimeFrame)
        ensures
            frame@ == (TimeFrameView {
                all_day,
                start: Instant(InstantInner::Date(start)),
                end: Instant(InstantInner::Date(end)),
            }),
    {
        TimeFrame { all_day, start: Instant::new_date(start), end: Instant::new_date(end) }
    }

    /// Whether the span covers whole days.
    pub fn all_day(&self) -> (all_day: bool)
        ensures
            all_day == self@.all_day,
    {
        self.all_day
    }

    pub fn start(&self) -> (start: &Instant)
        ensures
            *start == self@.start,
    {
        &self.start
    }

    pub fn end(&self) -> (end: &Instant)
        ensures
            *end == self@.end,
    {
        &self.end
    }
}

impl Default for TimeFrame {
    fn default() -> (frame: TimeFrame)
        ensures
            !frame@.all_day,
            frame@.start.0 is Zoned,
            frame@.end.0 is Zoned,
    {
        TimeFrame::new_zoned(false, Zoned::default(), Zoned::default())
    }
}

} // verus!
