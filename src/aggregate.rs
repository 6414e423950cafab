//! Per-record dispatch: counters, the heart-rate series, activity start, diagnostics.
use vstd::prelude::*;
use crate::clock::{
    activity_times, file_created_text, resolve_activity, rfc3339_text, utc_text, ActivityStart,
    OffsetError, RECORDER_EPOCH_UNIX, TIMESTAMP_FIELD, TIME_CREATED_FIELD,
};
use crate::message::{as_u32, as_u8, extract_u32, extract_u8, extracted, FieldKind, MessageKind, Record};
use crate::series::{as_map, offset_lines, strictly_ascending, TimeSeries};

verus! {

/// Field id of the heart rate on a telemetry sample.
pub const HEART_RATE_FIELD: u8 = 3;

/// A condition that stops the processing of one file.
#[derive(Clone, Copy, Debug, PartialEq, Eq, Structural)]
pub enum ProcessError {
    /// An activity's local offset cannot be used.
    Offset(OffsetError),
    /// No sample was recorded, so nothing anchors the offsets.
    EmptySeries,
}

/// Which of two samples with the same timestamp the series keeps.
#[derive(Clone, Copy, Debug, PartialEq, Eq, Structural)]
pub enum DuplicatePolicy {
    /// The one later in the stream replaces the earlier.
    KeepLast,
    /// The first one stays.
    KeepFirst,
}

/// The series after one more sample under `policy`.
pub open spec fn merged(m: Map<u32, u8>, sample: Option<(u32, u8)>, policy: DuplicatePolicy) -> Map<u32, u8> {
    match sample {
        Some((t, h)) => {
            if policy == DuplicatePolicy::KeepFirst && m.contains_key(t) {
                m
            } else {
                m.insert(t, h)
            }
        },
        None => m,
    }
}

/// What a record leaves for the diagnostic stream.
#[derive(Debug)]
pub enum Note {
    Nothing,
    /// The file's creation time, rendered in UTC.
    FileCreated(String),
    /// An activity start was resolved; it is now the aggregator's `activity`.
    ActivityStarted,
    /// A compressed-time record of this kind was seen.
    CompressedTime(MessageKind),
    /// A message of a kind this pipeline does not know.
    Unhandled,
}

/// The kind that dispatch sees: that of a normal record, when resolved.
pub open spec fn dispatched_kind(r: Record) -> Option<MessageKind> {
    match r {
        Record::Normal { kind, .. } => kind,
        Record::CompressedTime { .. } => None,
    }
}

/// Kinds that are acknowledged and otherwise ignored.
pub open spec fn acknowledged(k: MessageKind) -> bool {
    !(k == MessageKind::FileId || k == MessageKind::Record || k == MessageKind::Lap
        || k == MessageKind::Activity || k == MessageKind::Other)
}

/// The (timestamp, heart rate) pair a telemetry sample contributes, if both are valid.
pub open spec fn sample_of(r: Record) -> Option<(u32, u8)> {
    match r {
        Record::Normal { kind, fields } => {
            if kind == Some(MessageKind::Record) {
                match (
                    as_u32(extracted(fields@, TIMESTAMP_FIELD, FieldKind::Uint32)),
                    as_u8(extracted(fields@, HEART_RATE_FIELD, FieldKind::Uint8)),
                ) {
                    (Some(t), Some(h)) => Some((t, h)),
                    _ => None,
                }
            } else {
                None
            }
        },
        Record::CompressedTime { .. } => None,
    }
}

/// The timestamp of a sample (meaningful when `sample_of(r)` is `Some`).
pub open spec fn sample_time(r: Record) -> u32 {
    match sample_of(r) {
        Some((t, _)) => t,
        None => 0,
    }
}

/// The heart rate of a sample (meaningful when `sample_of(r)` is `Some`).
pub open spec fn sample_rate(r: Record) -> u8 {
    match sample_of(r) {
        Some((_, h)) => h,
        None => 0,
    }
}

/// The activity timestamps of an activity message.
pub open spec fn activity_of(r: Record) -> Option<(u32, u32)> {
    match r {
        Record::Normal { kind, fields } => {
            if kind == Some(MessageKind::Activity) {
                activity_times(fields@)
            } else {
                None
            }
        },
        Record::CompressedTime { .. } => None,
    }
}

/// The fatal condition a record raises: an activity whose offset cannot be used.
pub open spec fn record_error(r: Record) -> Option<OffsetError> {
    match activity_of(r) {
        Some((s, l)) => {
            if !(i32::MIN <= l - s <= i32::MAX) {
                Some(OffsetError::Overflow)
            } else if !(-86_400 < l - s < 86_400) {
                Some(OffsetError::OutOfRange)
            } else {
                None
            }
        },
        None => None,
    }
}

/// The series after the samples of `rs`, in stream order, later samples replacing
/// earlier ones at the same timestamp.
pub open spec fn stream_samples(rs: Seq<Record>) -> Map<u32, u8>
    decreases rs.len(),
{
    if rs.len() == 0 {
        Map::empty()
    } else {
        match sample_of(rs.last()) {
            Some((t, h)) => stream_samples(rs.drop_last()).insert(t, h),
            None => stream_samples(rs.drop_last()),
        }
    }
}

/// How many normal records of kind `k` the stream holds.
pub open spec fn stream_count(rs: Seq<Record>, k: MessageKind) -> nat
    decreases rs.len(),
{
    if rs.len() == 0 {
        0
    } else {
        stream_count(rs.drop_last(), k) + if dispatched_kind(rs.last()) == Some(k) { 1nat } else { 0nat }
    }
}

/// The first fatal condition in the stream.
pub open spec fn first_error(rs: Seq<Record>) -> Option<OffsetError>
    decreases rs.len(),
{
    if rs.len() == 0 {
        None
    } else if first_error(rs.drop_last()) is Some {
        first_error(rs.drop_last())
    } else {
        record_error(rs.last())
    }
}

/// The timestamps of the last activity in the stream that carries both.
pub open spec fn stream_activity(rs: Seq<Record>) -> Option<(u32, u32)>
    decreases rs.len(),
{
    if rs.len() == 0 {
        None
    } else if activity_of(rs.last()) is Some {
        activity_of(rs.last())
    } else {
        stream_activity(rs.drop_last())
    }
}

/// An activity start matches timestamps `(s, l)`.
pub open spec fn describes(a: ActivityStart, s: u32, l: u32) -> bool {
    &&& a.start == s
    &&& a.offset_seconds == l - s
    &&& a.local_time@ == rfc3339_text((s + RECORDER_EPOCH_UNIX) as i64, (l - s) as i32)
}

/// The state of one file's processing.
pub struct Aggregator {
    pub series: TimeSeries,
    /// Telemetry-sample messages seen, valid or not.
    pub sample_count: u64,
    /// Lap messages seen.
    pub lap_count: u64,
    /// The last activity start resolved.
    pub activity: Option<ActivityStart>,
    pub policy: DuplicatePolicy,
}

impl Aggregator {
    pub open spec fn wf(&self) -> bool {
        self.series.wf()
    }

    /// An aggregator where a later sample replaces an earlier one at the same timestamp.
    pub fn new() -> (r: Aggregator)
        ensures
            r.wf(),
            r.series@.len() == 0,
            r.sample_count == 0,
            r.lap_count == 0,
            r.activity is None,
            r.policy == DuplicatePolicy::KeepLast,
    {
        Aggregator::with_policy(DuplicatePolicy::KeepLast)
    }

    pub fn with_policy(policy: DuplicatePolicy) -> (r: Aggregator)
        ensures
            r.wf(),
            r.series@.len() == 0,
            r.sample_count == 0,
            r.lap_count == 0,
            r.activity is None,
            r.policy == policy,
    {
        Aggregator { series: TimeSeries::new(), sample_count: 0, lap_count: 0, activity: None, policy }
    }

    /// Takes one record into account.
    pub fn feed(&mut self, rec: &Record) -> (r: Result<Note, ProcessError>)
        requires
            old(self).wf(),
            old(self).sample_count < u64::MAX,
            old(self).lap_count < u64::MAX,
        ensures
            final(self).wf(),
            final(self).policy == old(self).policy,
            final(self).series.samples() == merged(old(self).series.samples(), sample_of(*rec), old(self).policy),
            final(self).sample_count == old(self).sample_count
                + if dispatched_kind(*rec) == Some(MessageKind::Record) { 1int } else { 0int },
            final(self).lap_count == old(self).lap_count
                + if dispatched_kind(*rec) == Some(MessageKind::Lap) { 1int } else { 0int },
            record_error(*rec) matches Some(e) ==> r == Err::<Note, ProcessError>(ProcessError::Offset(e)),
            record_error(*rec) is None ==> r is Ok,
            match (activity_of(*rec), record_error(*rec)) {
                (Some((s, l)), None) => r == Ok::<Note, ProcessError>(Note::ActivityStarted)
                    && (final(self).activity matches Some(a) && describes(a, s, l)),
                _ => final(self).activity == old(self).activity,
            },
            dispatched_kind(*rec) == Some(MessageKind::FileId) ==> match as_u32(
                extracted(rec->fields@, TIME_CREATED_FIELD, FieldKind::Uint32),
            ) {
                Some(t) => (r matches Ok(Note::FileCreated(s))
                    && s@ == utc_text((t + RECORDER_EPOCH_UNIX) as i64)),
                None => r == Ok::<Note, ProcessError>(Note::Nothing),
            },
            dispatched_kind(*rec) == Some(MessageKind::Other) ==> r == Ok::<Note, ProcessError>(Note::Unhandled),
            *rec matches Record::CompressedTime { kind: Some(k) } ==> r == Ok::<Note, ProcessError>(Note::CompressedTime(k)),
            (*rec matches Record::CompressedTime { kind: None } || *rec matches Record::Normal { kind: None, .. }
                || dispatched_kind(*rec) == Some(MessageKind::Record)
                || dispatched_kind(*rec) == Some(MessageKind::Lap)
                || (dispatched_kind(*rec) == Some(MessageKind::Activity) && activity_of(*rec) is None)
                || (dispatched_kind(*rec) matches Some(k) && acknowledged(k))) ==> r == Ok::<Note, ProcessError>(Note::Nothing),
    {
        match rec {
            Record::Normal { kind, fields } => match kind {
                None => Ok(Note::Nothing),
                Some(MessageKind::FileId) => match file_created_text(fields) {
                    Some(text) => Ok(Note::FileCreated(text)),
                    None => Ok(Note::Nothing),
                },
                Some(MessageKind::Record) => {
                    self.sample_count = self.sample_count + 1;
                    let ts = extract_u32(fields, TIMESTAMP_FIELD);
                    let hr = extract_u8(fields, HEART_RATE_FIELD);
                    match (ts, hr) {
                        (Some(t), Some(h)) => match self.policy {
                            DuplicatePolicy::KeepLast => self.series.insert(t, h),
                            DuplicatePolicy::KeepFirst => self.series.insert_if_absent(t, h),
                        },
                        _ => {},
                    }
                    Ok(Note::Nothing)
                },
                Some(MessageKind::Lap) => {
                    self.lap_count = self.lap_count + 1;
                    Ok(Note::Nothing)
                },
                Some(MessageKind::Activity) => match resolve_activity(fields) {
                    Ok(Some(a)) => {
                        self.activity = Some(a);
                        Ok(Note::ActivityStarted)
                    },
                    Ok(None) => Ok(Note::Nothing),
                    Err(e) => Err(ProcessError::Offset(e)),
                },
                Some(MessageKind::Other) => Ok(Note::Unhandled),
                Some(_) => Ok(Note::Nothing),
            },
            Record::CompressedTime { kind } => match kind {
                Some(k) => Ok(Note::CompressedTime(*k)),
                None => Ok(Note::Nothing),
            },
        }
    }

    /// Each sample as (seconds after the earliest sample, heart rate), in ascending
    /// time order; fails when no sample was recorded.
    pub fn finish(&self) -> (r: Result<Vec<(u32, u8)>, ProcessError>)
        requires
            self.wf(),
        ensures
            self.series@.len() == 0 <==> r is Err,
            r is Err ==> r == Err::<Vec<(u32, u8)>, ProcessError>(ProcessError::EmptySeries),
            r matches Ok(lines) ==> lines@ == offset_lines(self.series@),
    {
        match self.series.offsets() {
            Some(lines) => Ok(lines),
            None => Err(ProcessError::EmptySeries),
        }
    }
}

/// A fatal condition, once in a prefix of the stream, is the stream's first.
proof fn lemma_first_error_prefix(rs: Seq<Record>, n: int)
    requires
        0 <= n <= rs.len(),
        first_error(rs.subrange(0, n)) is Some,
    ensures
        first_error(rs) == first_error(rs.subrange(0, n)),
    decreases rs.len() - n,
{
    if n < rs.len() {
        let q = rs.subrange(0, n + 1);
        assert(q.drop_last() =~= rs.subrange(0, n));
        lemma_first_error_prefix(rs, n + 1);
    } else {
        assert(rs.subrange(0, n) =~= rs);
    }
}

/// The report for one file's record stream.
pub struct Report {
    /// (seconds after the earliest sample, heart rate), in ascending time order.
    pub lines: Vec<(u32, u8)>,
    pub sample_count: u64,
    pub lap_count: u64,
    /// The last activity start resolved.
    pub activity: Option<ActivityStart>,
}

/// Processes a whole record stream: the first fatal condition stops it; otherwise
/// the samples, in time order and relative to the earliest, and the counters.
pub fn process(records: &Vec<Record>) -> (r: Result<Report, ProcessError>)
    ensures
        first_error(records@) matches Some(e) ==> r == Err::<Report, ProcessError>(ProcessError::Offset(e)),
        first_error(records@) is None && stream_samples(records@) == Map::<u32, u8>::empty()
            ==> r == Err::<Report, ProcessError>(ProcessError::EmptySeries),
        first_error(records@) is None && stream_samples(records@) != Map::<u32, u8>::empty() ==> {
            &&& r matches Ok(rep)
            &&& exists|s: Seq<(u32, u8)>| strictly_ascending(s) && as_map(s) == stream_samples(records@)
                && rep.lines@ == offset_lines(s)
            &&& rep.sample_count == stream_count(records@, MessageKind::Record)
            &&& rep.lap_count == stream_count(records@, MessageKind::Lap)
            &&& match stream_activity(records@) {
                Some((s, l)) => rep.activity matches Some(a) && describes(a, s, l),
                None => rep.activity is None,
            }
        },
{
    let mut agg = Aggregator::new();
    let mut i: usize = 0;
    while i < records.len()
        invariant
            i <= records@.len(),
            agg.wf(),
            agg.policy == DuplicatePolicy::KeepLast,
            agg.sample_count <= i,
            agg.lap_count <= i,
            agg.series.samples() == stream_samples(records@.subrange(0, i as int)),
            agg.sample_count == stream_count(records@.subrange(0, i as int), MessageKind::Record),
            agg.lap_count == stream_count(records@.subrange(0, i as int), MessageKind::Lap),
            first_error(records@.subrange(0, i as int)) is None,
            match stream_activity(records@.subrange(0, i as int)) {
                Some((s, l)) => agg.activity matches Some(a) && describes(a, s, l),
                None => agg.activity is None,
            },
        decreases records@.len() - i,
    {
        let ghost prefix = records@.subrange(0, i + 1);
        assert(prefix.drop_last() =~= records@.subrange(0, i as int));
        assert(prefix.last() == records@[i as int]);
        match agg.feed(&records[i]) {
            Ok(_) => {},
            Err(e) => {
                proof {
                    lemma_first_error_prefix(records@, i + 1);
                }
                return Err(e);
            },
        }
        i = i + 1;
    }
    assert(records@.subrange(0, records@.len() as int) =~= records@);
    proof {
        crate::series::lemma_as_map(agg.series@);
        if agg.series@.len() > 0 {
            assert(agg.series.samples().contains_key(agg.series@[0].0));
        }
    }
    let ghost s = agg.series@;
    match agg.finish() {
        Ok(lines) => {
            assert(strictly_ascending(s) && as_map(s) == stream_samples(records@) && lines@ == offset_lines(s));
            Ok(Report {
            lines,
            sample_count: agg.sample_count,
            lap_count: agg.lap_count,
            activity: agg.activity,
            })
        },
        Err(e) => {
            assert(as_map(s) =~= Map::<u32, u8>::empty());
            Err(e)
        },
    }
}

} // verus!
