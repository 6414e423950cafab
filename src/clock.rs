//! Recorder timestamps: absolute time, local-offset inference and text renderings.
use chrono::TimeZone;
use vstd::prelude::*;
use crate::message::{as_u32, extract_u32, extracted, Field, FieldKind};

verus! {

/// Unix time of the recorder epoch, 1989-12-31T00:00:00Z.
pub const RECORDER_EPOCH_UNIX: i64 = 631065600;

/// Field id of the absolute timestamp on samples and activities.
pub const TIMESTAMP_FIELD: u8 = 253;

/// Field id of the recorder's local timestamp on an activity.
pub const LOCAL_TIMESTAMP_FIELD: u8 = 5;

/// Field id of the creation time on a file-identification message.
pub const TIME_CREATED_FIELD: u8 = 4;

/// Largest Unix time handed to the renderers: far below chrono's upper year
/// (262142), far above the last recorder timestamp.
pub const LATEST_RENDERED_UNIX: i64 = 100_000_000_000;

/// What chrono's `Display` of a UTC date-time writes for Unix time `secs`.
pub uninterp spec fn utc_text(secs: i64) -> Seq<char>;

/// What chrono's `to_rfc3339` writes for Unix time `secs` seen at a fixed
/// offset of `offset` seconds east of UTC.
pub uninterp spec fn rfc3339_text(secs: i64, offset: i32) -> Seq<char>;

/// Unix time (seconds) of a recorder timestamp.
pub fn recorder_to_unix(t: u32) -> (r: i64)
    ensures
        r == t + RECORDER_EPOCH_UNIX,
{
    t as i64 + RECORDER_EPOCH_UNIX
}

/// Relies on chrono's `DateTime::from_timestamp` (`Some` for every second count
/// from year -262143 to 262142) and on the `Display` of `DateTime<Utc>`.
#[verifier::external_body]
fn render_utc(secs: i64) -> (r: String)
    requires
        0 <= secs <= LATEST_RENDERED_UNIX,
    ensures
        r@ == utc_text(secs),
{
    chrono::DateTime::from_timestamp(secs, 0).unwrap().to_string()
}

/// Relies on chrono's `FixedOffset::east_opt` (`Some` exactly when
/// `-86_400 < offset < 86_400`), `TimeZone::timestamp_opt` (a single result for
/// every in-range second count at a fixed offset) and `DateTime::to_rfc3339`.
#[verifier::external_body]
fn render_local(secs: i64, offset: i32) -> (r: Option<String>)
    requires
        0 <= secs <= LATEST_RENDERED_UNIX,
    ensures
        r.is_some() <==> -86_400 < offset < 86_400,
        r matches Some(s) ==> s@ == rfc3339_text(secs, offset),
{
    match chrono::FixedOffset::east_opt(offset) {
        Some(zone) => Some(zone.timestamp_opt(secs, 0).unwrap().to_rfc3339()),
        None => None,
    }
}

/// The recorder's local offset, `local - start` seconds, when it fits in an `i32`.
pub fn local_offset(start: u32, local: u32) -> (r: Option<i32>)
    ensures
        r.is_some() <==> i32::MIN <= local - start <= i32::MAX,
        r matches Some(d) ==> d == local - start,
{
    let diff: i64 = local as i64 - start as i64;
    if diff < i32::MIN as i64 || diff > i32::MAX as i64 {
        None
    } else {
        Some(diff as i32)
    }
}

/// The UTC rendering of the file's creation time, when the message carries one.
pub fn file_created_text(fields: &Vec<Field>) -> (r: Option<String>)
    ensures
        as_u32(extracted(fields@, TIME_CREATED_FIELD, FieldKind::Uint32)) matches Some(t) ==>
            r matches Some(s) && s@ == utc_text((t + RECORDER_EPOCH_UNIX) as i64),
        as_u32(extracted(fields@, TIME_CREATED_FIELD, FieldKind::Uint32)) is None ==> r is None,
{
    match extract_u32(fields, TIME_CREATED_FIELD) {
        Some(t) => Some(render_utc(recorder_to_unix(t))),
        None => None,
    }
}

/// An activity's start time and the local offset the recorder applied.
pub struct ActivityStart {
    /// Recorder timestamp of the start.
    pub start: u32,
    /// Seconds east of UTC.
    pub offset_seconds: i32,
    /// The start instant rendered in RFC 3339 at that offset.
    pub local_time: String,
}

/// Why an activity's local offset cannot be used.
#[derive(Clone, Copy, Debug, PartialEq, Eq, Structural)]
pub enum OffsetError {
    /// `local - start` does not fit in 32 signed bits.
    Overflow,
    /// The offset fits, but is a day or more: no fixed offset can express it.
    OutOfRange,
}

/// The activity start's absolute and local timestamps, read from an activity message.
pub open spec fn activity_times(fields: Seq<Field>) -> Option<(u32, u32)> {
    match (
        as_u32(extracted(fields, TIMESTAMP_FIELD, FieldKind::Uint32)),
        as_u32(extracted(fields, LOCAL_TIMESTAMP_FIELD, FieldKind::Uint32)),
    ) {
        (Some(s), Some(l)) => Some((s, l)),
        _ => None,
    }
}

/// Infers the local offset of an activity and renders its start in local time.
/// `Ok(None)` when either timestamp is absent.
pub fn resolve_activity(fields: &Vec<Field>) -> (r: Result<Option<ActivityStart>, OffsetError>)
    ensures
        activity_times(fields@) is None ==> r matches Ok(None),
        activity_times(fields@) matches Some((s, l)) ==> {
            let d = l - s;
            &&& !(i32::MIN <= d <= i32::MAX) ==> r == Err::<Option<ActivityStart>, OffsetError>(OffsetError::Overflow)
            &&& (i32::MIN <= d <= i32::MAX && !(-86_400 < d < 86_400)) ==> r == Err::<Option<ActivityStart>, OffsetError>(OffsetError::OutOfRange)
            &&& -86_400 < d < 86_400 ==> (r matches Ok(Some(a)) && a.start == s && a.offset_seconds == d
                && a.local_time@ == rfc3339_text((s + RECORDER_EPOCH_UNIX) as i64, d as i32))
        },
{
    let start = match extract_u32(fields, TIMESTAMP_FIELD) {
        Some(t) => t,
        None => return Ok(None),
    };
    let local = match extract_u32(fields, LOCAL_TIMESTAMP_FIELD) {
        Some(t) => t,
        None => return Ok(None),
    };
    let offset = match local_offset(start, local) {
        Some(d) => d,
        None => return Err(OffsetError::Overflow),
    };
    match render_local(recorder_to_unix(start), offset) {
        Some(text) => Ok(Some(ActivityStart { start, offset_seconds: offset, local_time: text })),
        None => Err(OffsetError::OutOfRange),
    }
}

} // verus!
