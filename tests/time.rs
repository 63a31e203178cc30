use lib_core::time::{Error, TimeRfc3339};

#[test]
fn vaild_rfc3339_string() {
    const TIME: &str = "2020-09-08T13:10:08.511Z";
    let _ = TimeRfc3339::try_from(TIME).unwrap();
}

#[test]
fn parse_gives_unix_nanos_and_offset() {
    let t = TimeRfc3339::parse_utc("2020-09-08T13:10:08.511Z").unwrap();
    assert_eq!(t.inner(), (1_599_570_608_511_000_000, 0));
    let t = TimeRfc3339::parse_utc("1970-01-01T01:00:00+01:00").unwrap();
    assert_eq!(t.inner(), (0, 3600));
}

#[test]
fn parse_rejects_other_text() {
    match TimeRfc3339::parse_utc("2020-09-08 13:10") {
        Err(Error::FailToDateParse(s)) => assert_eq!(s, "2020-09-08 13:10"),
        other => panic!("unexpected {:?}", other),
    }
}

#[test]
fn format_writes_rfc3339() {
    let t = TimeRfc3339::parse_utc("2020-09-08T13:10:08.511Z").unwrap();
    assert_eq!(t.format_time().unwrap(), "2020-09-08T13:10:08.511Z");
    let t = TimeRfc3339 { unix_nanos: 0, offset_seconds: 3600 };
    assert_eq!(t.format_time().unwrap(), "1970-01-01T01:00:00+01:00");
}

#[test]
fn format_fails_out_of_range() {
    let t = TimeRfc3339 { unix_nanos: i128::MAX, offset_seconds: 0 };
    assert!(matches!(t.format_time(), Err(Error::FailToDateFormat)));
}

#[test]
fn now_is_utc_and_recent() {
    let t = TimeRfc3339::now_utc();
    assert_eq!(t.offset_seconds, 0);
    assert!(t.unix_nanos > 1_600_000_000_000_000_000);
}
