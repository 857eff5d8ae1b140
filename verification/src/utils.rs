//! Conversions between instants and spans and their protobuf messages.
use vstd::prelude::*;

use crate::proto;
use crate::time::{datetime_from_timestamp, utc_now, Duration, UtcDateTime};

verus! {

/// The instant of a timestamp message, if there is one. The message must
/// name an instant that chrono holds (leap-second nanoseconds included);
/// every instant within about 250,000 years of the epoch is one.
pub fn proto_to_datetime(ts: &Option<proto::Timestamp>) -> (r: Option<UtcDateTime>)
    requires
        ts matches Some(t) ==> (crate::time::chrono_accepts(t.seconds, t.nanos as u32) || (0 <= t.nanos
            < 1_000_000_000 && -8_000_000_000_000 <= t.seconds <= 8_000_000_000_000)),
    ensures
        match ts {
            Some(t) => r == Some(UtcDateTime { secs: t.seconds, nanos: t.nanos as u32 }),
            None => r is None,
        },
{
    match ts {
        Some(t) => {
            let d = datetime_from_timestamp(t.seconds, t.nanos as u32);
            match d {
                Some(d) => Some(d),
                None => None,
            }
        },
        None => None,
    }
}

/// The instant of a timestamp message, checked: `None` when the message
/// names no instant that chrono holds (where `proto_to_datetime` would
/// fail), and otherwise what `proto_to_datetime` gives.
pub fn checked_proto_to_datetime(ts: &Option<proto::Timestamp>) -> (r: Option<Option<UtcDateTime>>)
    ensures
        match ts {
            None => r == Some(None::<UtcDateTime>),
            Some(t) => if crate::time::chrono_accepts(t.seconds, t.nanos as u32) {
                r == Some(Some(UtcDateTime { secs: t.seconds, nanos: t.nanos as u32 }))
            } else {
                r is None
            },
        },
{
    match ts {
        None => Some(proto_to_datetime(ts)),
        Some(t) => match datetime_from_timestamp(t.seconds, t.nanos as u32) {
            Some(_) => Some(proto_to_datetime(ts)),
            None => None,
        },
    }
}

/// The timestamp message of an instant.
pub fn datetime_to_proto(dt: UtcDateTime) -> (r: proto::Timestamp)
    ensures
        r.seconds == dt.secs,
        r.nanos == dt.nanos as i32,
{
    proto::Timestamp { seconds: dt.timestamp(), nanos: dt.timestamp_subsec_nanos() as i32 }
}

/// The timestamp message of an optional instant.
pub fn option_datetime_to_proto(dt: Option<UtcDateTime>) -> (r: Option<proto::Timestamp>)
    ensures
        match dt {
            Some(d) => r == Some(proto::Timestamp { seconds: d.secs, nanos: d.nanos as i32 }),
            None => r is None,
        },
{
    match dt {
        Some(d) => Some(datetime_to_proto(d)),
        None => None,
    }
}

/// The current time as a timestamp message.
pub fn utc_now_proto() -> (r: proto::Timestamp)
    ensures
        -8_000_000_000_000 <= r.seconds <= 8_000_000_000_000,
        0 <= r.nanos < 1_000_000_000,
{
    let now = utc_now();
    datetime_to_proto(now)
}

/// The duration message of a span: its whole seconds (as a signed count)
/// and its nanoseconds.
pub fn duration_to_proto(d: &Duration) -> (r: proto::Duration)
    ensures
        r.seconds == d.secs as i64,
        r.nanos == d.nanos as i32,
{
    proto::Duration { seconds: d.as_secs() as i64, nanos: d.subsec_nanos() as i32 }
}

/// The span of a duration message (`Duration::new` of its seconds and
/// nanoseconds, read as unsigned).
pub fn proto_to_duration(d: &proto::Duration) -> (r: Duration)
    requires
        d.seconds as u64 + (d.nanos as u32) / 1_000_000_000 <= u64::MAX,
    ensures
        r.secs == d.seconds as u64 + (d.nanos as u32) / 1_000_000_000,
        r.nanos == (d.nanos as u32) % 1_000_000_000,
{
    Duration::new(d.seconds as u64, d.nanos as u32)
}

} // verus!
