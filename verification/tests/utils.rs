use ofs::proto::{Duration as ProtoDuration, Timestamp};
use ofs::time::{Duration, UtcDateTime};
use ofs::utils::{
    datetime_to_proto, duration_to_proto, option_datetime_to_proto, proto_to_datetime, proto_to_duration,
    utc_now_proto, checked_proto_to_datetime,
};

#[test]
fn test_datetime_proto_roundtrip() {
    let dt = UtcDateTime { secs: 1717171717, nanos: 123_456_789 };
    let proto = datetime_to_proto(dt);
    let dt2 = proto_to_datetime(&Some(proto)).unwrap();
    assert_eq!(dt.timestamp(), dt2.timestamp());
    assert_eq!(dt.timestamp_subsec_nanos(), dt2.timestamp_subsec_nanos());
}

#[test]
fn test_proto_to_datetime_none() {
    assert!(proto_to_datetime(&None).is_none());
}

#[test]
fn test_duration_proto_roundtrip() {
    let d = Duration::from_secs(3600);
    let proto = duration_to_proto(&d);
    let d2 = proto_to_duration(&proto);
    assert_eq!(d, d2);
}

#[test]
fn test_utc_now_proto() {
    let proto = utc_now_proto();
    assert!(proto.seconds > 0);
}

#[test]
fn test_option_datetime_to_proto_some() {
    let dt = UtcDateTime { secs: 1700000000, nanos: 5 };
    let proto = option_datetime_to_proto(Some(dt)).unwrap();
    assert_eq!(proto.seconds, dt.timestamp());
}

#[test]
fn test_option_datetime_to_proto_none() {
    assert!(option_datetime_to_proto(None).is_none());
}

#[test]
fn proto_duration_carries_nanos() {
    let d = proto_to_duration(&ProtoDuration { seconds: 5, nanos: 1_500_000_000 });
    assert_eq!(d, Duration { secs: 6, nanos: 500_000_000 });
    let t: Timestamp = datetime_to_proto(UtcDateTime { secs: -1, nanos: 7 });
    assert_eq!((t.seconds, t.nanos), (-1, 7));
}

#[test]
fn checked_timestamps_accept_leap_seconds() {
    let leap = Some(Timestamp { seconds: 59, nanos: 1_500_000_000 });
    assert_eq!(checked_proto_to_datetime(&leap), Some(Some(UtcDateTime { secs: 59, nanos: 1_500_000_000 })));
    let bad = Some(Timestamp { seconds: 58, nanos: 1_500_000_000 });
    assert_eq!(checked_proto_to_datetime(&bad), None);
    assert_eq!(checked_proto_to_datetime(&None), Some(None));
}

#[test]
fn chrono_calendar_bounds() {
    let at = |seconds: i64| Some(Timestamp { seconds, nanos: 0 });
    assert!(checked_proto_to_datetime(&at(8_210_266_876_799)).is_some());
    assert!(checked_proto_to_datetime(&at(8_210_266_876_800)).is_none());
    assert!(checked_proto_to_datetime(&at(-8_334_601_228_800)).is_some());
    assert!(checked_proto_to_datetime(&at(-8_334_601_228_801)).is_none());
}
