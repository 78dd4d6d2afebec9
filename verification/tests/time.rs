use ccm::jiff::civil::date;
use ccm::jiff::Zoned;
use ccm::{Instant, InstantInner, TimeFrame};

#[test]
fn an_instant_is_read_from_a_date() {
    let instant: Instant = "2024-03-10".parse().unwrap();
    assert_eq!(instant, Instant::new_date(date(2024, 3, 10)));
    assert_eq!(instant.0, InstantInner::Date(date(2024, 3, 10)));
    assert_eq!(Instant::from_str("2023-12-31").unwrap(), Instant::new_date(date(2023, 12, 31)));
}

#[test]
fn an_instant_is_read_from_a_zoned_datetime() {
    let text = "2024-03-10T12:30:00+00:00[UTC]";
    let expected: Zoned = text.parse().unwrap();
    let instant: Instant = text.parse().unwrap();
    assert_eq!(instant, Instant::new_zoned(expected.clone()));
    match instant.0 {
        InstantInner::Zoned(zoned) => {
            assert_eq!(zoned.date(), date(2024, 3, 10));
            assert_eq!(zoned.hour(), 12);
            assert_eq!(zoned.minute(), 30);
        }
        other => panic!("read {:?}", other),
    }
}

#[test]
fn a_datetime_without_a_zone_is_read_as_its_date() {
    let instant: Instant = "2024-03-10T12:30:00".parse().unwrap();
    assert_eq!(instant, Instant::new_date(date(2024, 3, 10)));
}

#[test]
fn what_is_neither_is_refused_as_a_date() {
    let refused = Instant::from_str("next tuesday");
    let as_date = "next tuesday".parse::<ccm::jiff::civil::Date>();
    assert!(refused.is_err());
    assert_eq!(refused.unwrap_err().to_string(), as_date.unwrap_err().to_string());
    assert!("".parse::<Instant>().is_err());
    assert!("2024-02-30".parse::<Instant>().is_err());
}

#[test]
fn from_date_keeps_day_or_error() {
    assert_eq!(
        Instant::from_date(Ok(date(2020, 2, 29))).unwrap(),
        Instant::new_date(date(2020, 2, 29))
    );
    let error = "x".parse::<ccm::jiff::civil::Date>().unwrap_err();
    let text = error.to_string();
    assert_eq!(Instant::from_date(Err(error)).unwrap_err().to_string(), text);
}

#[test]
fn the_default_instant_is_the_default_date() {
    assert_eq!(Instant::default(), Instant::new_date(ccm::jiff::civil::Date::default()));
    assert_eq!(InstantInner::default(), InstantInner::Date(date(0, 1, 1)));
}

#[test]
fn a_time_frame_keeps_what_it_is_given() {
    let frame = TimeFrame::new_date(true, date(2024, 1, 1), date(2024, 1, 2));
    assert!(frame.all_day());
    assert_eq!(*frame.start(), Instant::new_date(date(2024, 1, 1)));
    assert_eq!(*frame.end(), Instant::new_date(date(2024, 1, 2)));
    let start: Zoned = "2024-03-10T12:30:00+00:00[UTC]".parse().unwrap();
    let end: Zoned = "2024-03-10T13:30:00+00:00[UTC]".parse().unwrap();
    let frame = TimeFrame::new_zoned(false, start.clone(), end.clone());
    assert!(!frame.all_day());
    assert_eq!(*frame.start(), Instant::new_zoned(start));
    assert_eq!(*frame.end(), Instant::new_zoned(end));
    assert_ne!(frame.start(), frame.end());
}

#[test]
fn the_default_time_frame_spans_nothing() {
    let frame = TimeFrame::default();
    assert!(!frame.all_day());
    assert_eq!(*frame.start(), Instant::new_zoned(Zoned::default()));
    assert_eq!(*frame.end(), Instant::new_zoned(Zoned::default()));
}
