use chrono::{DateTime, FixedOffset};
use reservation::{
    get_timespan, validate_range, Error, Reservation, ReservationQuery, ReservationStatus,
    RsvpStatus, Timespan, Timestamp, Validator,
};

fn at(text: &str) -> Timestamp {
    let read: DateTime<FixedOffset> = text.parse().unwrap();
    Timestamp { seconds: read.timestamp(), nanos: read.timestamp_subsec_nanos() as i32 }
}

fn to_rfc3339(at: Timestamp) -> String {
    DateTime::from_timestamp(at.seconds, at.nanos as u32).unwrap().to_rfc3339()
}

fn sample() -> Reservation {
    Reservation::new_pending(
        "leon".to_string(),
        "ocean-view-room-777".to_string(),
        at("2022-12-25T15:00:00-0700"),
        at("2022-12-28T12:00:00-0700"),
        "hello".to_string(),
    )
}

#[test]
fn validate_range_accepts_a_window_that_runs_forward() {
    let start = Timestamp { seconds: 100, nanos: 0 };
    let end = Timestamp { seconds: 101, nanos: 0 };
    assert_eq!(validate_range(Some(&start), Some(&end)), Ok(()));
}

#[test]
fn validate_range_needs_both_ends() {
    let one = Timestamp { seconds: 100, nanos: 0 };
    assert_eq!(validate_range(None, Some(&one)), Err(Error::InvalidTime));
    assert_eq!(validate_range(Some(&one), None), Err(Error::InvalidTime));
    assert_eq!(validate_range(None, None), Err(Error::InvalidTime));
}

#[test]
fn validate_range_compares_whole_seconds_only() {
    let early = Timestamp { seconds: 100, nanos: 1 };
    let late = Timestamp { seconds: 100, nanos: 999_999_999 };
    assert_eq!(validate_range(Some(&early), Some(&late)), Err(Error::InvalidTime));
    assert_eq!(validate_range(Some(&early), Some(&early)), Err(Error::InvalidTime));
    let before = Timestamp { seconds: 99, nanos: 999_999_999 };
    assert_eq!(validate_range(Some(&early), Some(&before)), Err(Error::InvalidTime));
    assert_eq!(validate_range(Some(&before), Some(&early)), Ok(()));
    let lowest = Timestamp { seconds: i64::MIN, nanos: 0 };
    let highest = Timestamp { seconds: i64::MAX, nanos: 0 };
    assert_eq!(validate_range(Some(&lowest), Some(&highest)), Ok(()));
    assert_eq!(validate_range(Some(&highest), Some(&lowest)), Err(Error::InvalidTime));
}

#[test]
fn get_timespan_is_the_half_open_window_of_its_ends() {
    let start = Timestamp { seconds: 5, nanos: 7 };
    let end = Timestamp { seconds: 9, nanos: 11 };
    assert_eq!(get_timespan(Some(&start), Some(&end)), Timespan { start, end });
}

#[test]
fn new_pending_has_no_identity_and_is_pending() {
    let rsvp = sample();
    assert_eq!(rsvp.id, "");
    assert_eq!(rsvp.user_id, "leon");
    assert_eq!(rsvp.resource_id, "ocean-view-room-777");
    assert_eq!(rsvp.start, Some(Timestamp { seconds: 1672005600, nanos: 0 }));
    assert_eq!(rsvp.end, Some(Timestamp { seconds: 1672254000, nanos: 0 }));
    assert_eq!(rsvp.note, "hello");
    assert_eq!(rsvp.status, 1);
    assert_eq!(ReservationStatus::from_i32(rsvp.status), Some(ReservationStatus::Pending));
}

#[test]
fn window_comes_back_in_utc() {
    let rsvp = sample();
    let span = rsvp.get_timespan();
    assert_eq!(to_rfc3339(span.start), "2022-12-25T22:00:00+00:00");
    assert_eq!(to_rfc3339(span.end), "2022-12-28T19:00:00+00:00");
}

#[test]
fn reservation_validate_looks_at_the_user_first() {
    let mut rsvp = sample();
    assert_eq!(rsvp.validate(), Ok(()));
    rsvp.start = None;
    assert_eq!(rsvp.validate(), Err(Error::InvalidTime));
    rsvp.resource_id = String::new();
    assert_eq!(rsvp.validate(), Err(Error::InvalidResourceId(String::new())));
    rsvp.user_id = String::new();
    assert_eq!(rsvp.validate(), Err(Error::InvalidUserId(String::new())));
}

#[test]
fn reservation_validate_does_not_compare_the_ends() {
    let mut rsvp = sample();
    rsvp.end = rsvp.start;
    assert_eq!(rsvp.validate(), Ok(()));
    rsvp.end = None;
    assert_eq!(Validator::validate(&rsvp), Err(Error::InvalidTime));
}

#[test]
fn reservation_id_must_not_be_empty() {
    assert_eq!(String::new().validate(), Err(Error::InvalidReservationId(String::new())));
    assert_eq!("7".to_string().validate(), Ok(()));
}

#[test]
fn reservations_are_equal_field_by_field() {
    let rsvp = sample();
    assert_eq!(rsvp, sample());
    let mut other = sample();
    other.note = "bye".to_string();
    assert!(rsvp != other);
    let mut confirmed = sample();
    confirmed.status = 2;
    assert!(rsvp != confirmed);
}

#[test]
fn query_new_keeps_every_part() {
    let query = ReservationQuery::new(
        "leon".to_string(),
        "room".to_string(),
        Timestamp { seconds: 1, nanos: 2 },
        Timestamp { seconds: 3, nanos: 4 },
        ReservationStatus::Confirmed,
        5,
        6,
        true,
    );
    assert_eq!(query.user_id, "leon");
    assert_eq!(query.resource_id, "room");
    assert_eq!(query.start, Some(Timestamp { seconds: 1, nanos: 2 }));
    assert_eq!(query.end, Some(Timestamp { seconds: 3, nanos: 4 }));
    assert_eq!(query.status, 2);
    assert_eq!(query.page, 5);
    assert_eq!(query.page_size, 6);
    assert!(query.desc);
    assert_eq!(query.get_status(), ReservationStatus::Confirmed);
    assert_eq!(
        query.get_timespan(),
        Timespan { start: Timestamp { seconds: 1, nanos: 2 }, end: Timestamp { seconds: 3, nanos: 4 } }
    );
}

#[test]
fn query_validate_looks_at_the_user_first_and_the_window_last() {
    let mut query = ReservationQuery::new(
        "leon".to_string(),
        "room".to_string(),
        Timestamp { seconds: 1, nanos: 0 },
        Timestamp { seconds: 3, nanos: 0 },
        ReservationStatus::Pending,
        1,
        10,
        false,
    );
    assert_eq!(query.validate(), Ok(()));
    query.end = Some(Timestamp { seconds: 1, nanos: 5 });
    assert_eq!(query.validate(), Err(Error::InvalidTime));
    query.end = None;
    assert_eq!(query.validate(), Err(Error::InvalidTime));
    query.resource_id = String::new();
    assert_eq!(query.validate(), Err(Error::InvalidResourceId(String::new())));
    query.user_id = String::new();
    assert_eq!(query.validate(), Err(Error::InvalidUserId(String::new())));
}

#[test]
fn status_numbers_are_zero_to_three() {
    assert_eq!(ReservationStatus::from_i32(0), Some(ReservationStatus::Unknown));
    assert_eq!(ReservationStatus::from_i32(1), Some(ReservationStatus::Pending));
    assert_eq!(ReservationStatus::from_i32(2), Some(ReservationStatus::Confirmed));
    assert_eq!(ReservationStatus::from_i32(3), Some(ReservationStatus::Blocked));
    assert_eq!(ReservationStatus::from_i32(4), None);
    assert_eq!(ReservationStatus::from_i32(-1), None);
    assert_eq!(ReservationStatus::Unknown.as_i32(), 0);
    assert_eq!(ReservationStatus::Pending.as_i32(), 1);
    assert_eq!(ReservationStatus::Confirmed.as_i32(), 2);
    assert_eq!(ReservationStatus::Blocked.as_i32(), 3);
}

#[test]
fn a_number_that_names_no_status_counts_as_pending() {
    assert_eq!(ReservationStatus::from_i32_or_pending(4), ReservationStatus::Pending);
    assert_eq!(ReservationStatus::from_i32_or_pending(i32::MIN), ReservationStatus::Pending);
    assert_eq!(ReservationStatus::from_i32_or_pending(0), ReservationStatus::Unknown);
    assert_eq!(ReservationStatus::from_i32_or_pending(3), ReservationStatus::Blocked);
}

#[test]
fn the_storage_engine_names_each_status_in_lower_case() {
    assert_eq!(RsvpStatus::Unknown.as_str(), "unknown");
    assert_eq!(RsvpStatus::Pending.as_str(), "pending");
    assert_eq!(RsvpStatus::Confirmed.as_str(), "confirmed");
    assert_eq!(RsvpStatus::Blocked.as_str(), "blocked");
}

#[test]
fn the_two_status_types_convert_one_for_one() {
    for (message, stored) in [
        (ReservationStatus::Unknown, RsvpStatus::Unknown),
        (ReservationStatus::Pending, RsvpStatus::Pending),
        (ReservationStatus::Confirmed, RsvpStatus::Confirmed),
        (ReservationStatus::Blocked, RsvpStatus::Blocked),
    ] {
        assert_eq!(RsvpStatus::from(message), stored);
        assert_eq!(ReservationStatus::from(stored), message);
    }
}
