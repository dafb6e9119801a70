use reservation::{
    Error, ReservationConflict, ReservationConflictInfo, ReservationWindow, StorageFailure,
    Timestamp,
};

const DETAIL: &str = "Key (resource_id, timespan)=(room-777, [\"2022-12-26 22:00:00+00\",\"2022-12-30 19:00:00+00\")) conflicts with existing key (resource_id, timespan)=(room-777, [\"2022-12-25 22:00:00+00\",\"2022-12-28 19:00:00+00\")).";

fn refusal(code: &str, schema: Option<&str>, table: Option<&str>, detail: Option<&str>) -> StorageFailure {
    StorageFailure::Database {
        code: code.to_string(),
        schema: schema.map(str::to_string),
        table: table.map(str::to_string),
        message: "refused".to_string(),
        detail: detail.map(str::to_string),
    }
}

#[test]
fn an_overlap_is_reported_with_both_windows() {
    let err = Error::from(refusal("23P01", Some("rsvp"), Some("reservations"), Some(DETAIL)));
    assert_eq!(
        err,
        Error::ConflictingReservation(ReservationConflictInfo::Parsed(ReservationConflict {
            new: ReservationWindow {
                rid: "room-777".to_string(),
                start: Timestamp { seconds: 1672092000, nanos: 0 },
                end: Timestamp { seconds: 1672426800, nanos: 0 },
            },
            old: ReservationWindow {
                rid: "room-777".to_string(),
                start: Timestamp { seconds: 1672005600, nanos: 0 },
                end: Timestamp { seconds: 1672254000, nanos: 0 },
            },
        }))
    );
}

#[test]
fn an_overlap_with_an_unreadable_detail_is_still_a_conflict() {
    let err = Error::from(refusal("23P01", Some("rsvp"), Some("reservations"), Some("no clauses")));
    assert_eq!(
        err,
        Error::ConflictingReservation(ReservationConflictInfo::Unparsed("no clauses".to_string()))
    );
    let err = Error::from(refusal("23P01", Some("rsvp"), Some("reservations"), Some("")));
    assert_eq!(
        err,
        Error::ConflictingReservation(ReservationConflictInfo::Unparsed(String::new()))
    );
}

#[test]
fn only_the_exact_code_schema_and_table_make_a_conflict() {
    for failure in [
        refusal("23505", Some("rsvp"), Some("reservations"), Some(DETAIL)),
        refusal("23p01", Some("rsvp"), Some("reservations"), Some(DETAIL)),
        refusal("23P01", Some("public"), Some("reservations"), Some(DETAIL)),
        refusal("23P01", None, Some("reservations"), Some(DETAIL)),
        refusal("23P01", Some("rsvp"), Some("reservation"), Some(DETAIL)),
        refusal("23P01", Some("rsvp"), None, Some(DETAIL)),
        refusal("", None, None, None),
    ] {
        assert!(!failure.is_conflict());
        assert!(failure.can_translate());
        match Error::from(failure) {
            Error::DbError(_) => {}
            other => panic!("not a storage engine failure: {:?}", other),
        }
    }
}

#[test]
fn a_conflict_must_come_with_its_detail() {
    let bare = refusal("23P01", Some("rsvp"), Some("reservations"), None);
    assert!(bare.is_conflict());
    assert!(!bare.can_translate());
    let full = refusal("23P01", Some("rsvp"), Some("reservations"), Some(DETAIL));
    assert!(full.is_conflict());
    assert!(full.can_translate());
    assert!(StorageFailure::RowNotFound.can_translate());
    assert!(StorageFailure::Other("pool closed".to_string()).can_translate());
}

#[test]
fn no_row_is_not_found() {
    assert_eq!(Error::from(StorageFailure::RowNotFound), Error::NotFound);
}

#[test]
fn any_other_failure_is_kept_as_it_came() {
    match Error::from(StorageFailure::Other("pool closed".to_string())) {
        Error::DbError(StorageFailure::Other(words)) => assert_eq!(words, "pool closed"),
        other => panic!("not a storage engine failure: {:?}", other),
    }
    match Error::from(refusal("23505", Some("rsvp"), Some("reservations"), Some("dup"))) {
        Error::DbError(StorageFailure::Database { code, detail, .. }) => {
            assert_eq!(code, "23505");
            assert_eq!(detail, Some("dup".to_string()));
        }
        other => panic!("not a storage engine failure: {:?}", other),
    }
}

#[test]
fn storage_engine_failures_are_all_equal() {
    assert_eq!(
        Error::DbError(StorageFailure::Other("a".to_string())),
        Error::DbError(refusal("23505", None, None, None))
    );
    assert_eq!(Error::DbError(StorageFailure::RowNotFound), Error::DbError(StorageFailure::RowNotFound));
}

#[test]
fn errors_of_one_kind_are_equal_when_they_carry_the_same() {
    assert_eq!(Error::InvalidTime, Error::InvalidTime);
    assert_eq!(Error::NotFound, Error::NotFound);
    assert_eq!(Error::Unknown, Error::Unknown);
    assert_eq!(Error::InvalidUserId("a".to_string()), Error::InvalidUserId("a".to_string()));
    assert!(Error::InvalidUserId("a".to_string()) != Error::InvalidUserId("b".to_string()));
    assert!(Error::InvalidResourceId("a".to_string()) != Error::InvalidResourceId("b".to_string()));
    assert!(
        Error::InvalidReservationId("a".to_string()) != Error::InvalidReservationId("b".to_string())
    );
    assert_eq!(
        Error::ConflictingReservation(ReservationConflictInfo::Unparsed("x".to_string())),
        Error::ConflictingReservation(ReservationConflictInfo::Unparsed("x".to_string()))
    );
    assert!(
        Error::ConflictingReservation(ReservationConflictInfo::Unparsed("x".to_string()))
            != Error::ConflictingReservation(ReservationConflictInfo::Unparsed("y".to_string()))
    );
}

#[test]
fn errors_of_two_kinds_are_never_equal() {
    assert!(Error::InvalidTime != Error::NotFound);
    assert!(Error::NotFound != Error::Unknown);
    assert!(Error::InvalidUserId("a".to_string()) != Error::InvalidResourceId("a".to_string()));
    assert!(Error::InvalidUserId("a".to_string()) != Error::InvalidReservationId("a".to_string()));
    assert!(Error::DbError(StorageFailure::RowNotFound) != Error::NotFound);
}
