//! Laws of the record stream and of the emitted series.
use vstd::prelude::*;
use crate::aggregate::{dispatched_kind, sample_of, sample_rate, sample_time, stream_count, stream_samples, HEART_RATE_FIELD};
use crate::clock::TIMESTAMP_FIELD;
use crate::message::{as_u32, as_u8, extracted, FieldKind, MessageKind, Record};
use crate::series::{as_map, lemma_as_map, offset_lines, strictly_ascending};

verus! {

/// Every sample's timestamp stays a key of the series, whatever follows it.
proof fn lemma_sample_kept(rs: Seq<Record>, i: int)
    requires
        0 <= i < rs.len(),
        sample_of(rs[i]) is Some,
    ensures
        stream_samples(rs).contains_key(sample_time(rs[i])),
    decreases rs.len(),
{
    let p = rs.drop_last();
    if i < rs.len() - 1 {
        assert(p[i] == rs[i]);
        lemma_sample_kept(p, i);
    }
}

/// The value at a timestamp is that of the last sample, in stream order, with
/// that timestamp.
proof fn lemma_last_sample_at(rs: Seq<Record>, j: int)
    requires
        0 <= j < rs.len(),
        sample_of(rs[j]) is Some,
        forall|k: int| j < k < rs.len() ==> !(#[trigger] sample_of(rs[k]) matches Some((t, _)) && t == sample_time(rs[j])),
    ensures
        stream_samples(rs)[sample_time(rs[j])] == sample_rate(rs[j]),
    decreases rs.len(),
{
    let p = rs.drop_last();
    if j < rs.len() - 1 {
        assert(p[j] == rs[j]);
        assert forall|k: int| j < k < p.len() implies !(#[trigger] sample_of(p[k]) matches Some((t, _)) && t == sample_time(p[j])) by {
            assert(p[k] == rs[k]);
        }
        lemma_last_sample_at(p, j);
        assert(!(sample_of(rs[rs.len() - 1]) matches Some((t, _)) && t == sample_time(rs[j])));
    }
}

/// For every telemetry sample with a valid timestamp and heart rate, the emitted
/// series holds exactly one line whose offset is that timestamp minus the earliest.
pub proof fn lemma_one_line_per_sample(rs: Seq<Record>, i: int, s: Seq<(u32, u8)>)
    requires
        0 <= i < rs.len(),
        sample_of(rs[i]) is Some,
        strictly_ascending(s),
        as_map(s) == stream_samples(rs),
    ensures
        ({
            let off = sample_time(rs[i]) - s[0].0;
            &&& exists|j: int| 0 <= j < s.len() && offset_lines(s)[j].0 == off
            &&& forall|j1: int, j2: int|
                0 <= j1 < s.len() && 0 <= j2 < s.len() && offset_lines(s)[j1].0 == off
                    && offset_lines(s)[j2].0 == off ==> j1 == j2
        }),
{
    let t = sample_time(rs[i]);
    lemma_sample_kept(rs, i);
    lemma_as_map(s);
    assert(as_map(s).contains_key(t));
    let j = choose|j: int| 0 <= j < s.len() && s[j].0 == t;
    assert(s[0].0 <= s[j].0);
    assert(offset_lines(s)[j].0 == t - s[0].0);
    assert forall|j1: int, j2: int|
        0 <= j1 < s.len() && 0 <= j2 < s.len() && offset_lines(s)[j1].0 == t - s[0].0
            && offset_lines(s)[j2].0 == t - s[0].0 implies j1 == j2 by {
        assert(s[0].0 <= s[j1].0);
        assert(s[0].0 <= s[j2].0);
        if j1 < j2 {
            assert(s[j1].0 < s[j2].0);
        } else if j2 < j1 {
            assert(s[j2].0 < s[j1].0);
        }
    }
}

/// The emitted offsets ascend strictly, and the n-th line is the n-th sample in
/// ascending timestamp order: its offset plus the earliest timestamp is that
/// sample's timestamp, and its value that sample's heart rate.
pub proof fn lemma_offsets_follow_timestamps(s: Seq<(u32, u8)>)
    requires
        strictly_ascending(s),
    ensures
        offset_lines(s).len() == s.len(),
        forall|i: int, j: int| 0 <= i < j < s.len() ==> offset_lines(s)[i].0 < offset_lines(s)[j].0,
        forall|i: int| 0 <= i < s.len() ==> s[0].0 + offset_lines(s)[i].0 == s[i].0 && offset_lines(s)[i].1 == s[i].1,
{
    assert forall|i: int| 0 <= i < s.len() implies s[0].0 + offset_lines(s)[i].0 == s[i].0 by {
        if i > 0 {
            assert(s[0].0 < s[i].0);
        }
    }
    assert forall|i: int, j: int| 0 <= i < j < s.len() implies offset_lines(s)[i].0 < offset_lines(s)[j].0 by {
        assert(s[0].0 + offset_lines(s)[i].0 == s[i].0);
        assert(s[0].0 + offset_lines(s)[j].0 == s[j].0);
    }
}

/// Of two samples with the same timestamp, the one later in the stream gives the
/// value in the series, when no still later sample has that timestamp.
pub proof fn lemma_later_sample_wins(rs: Seq<Record>, i: int, j: int)
    requires
        0 <= i < j < rs.len(),
        sample_of(rs[i]) is Some,
        sample_of(rs[j]) is Some,
        sample_time(rs[i]) == sample_time(rs[j]),
        forall|k: int| j < k < rs.len() ==> !(#[trigger] sample_of(rs[k]) matches Some((t, _)) && t == sample_time(rs[j])),
    ensures
        stream_samples(rs)[sample_time(rs[i])] == sample_rate(rs[j]),
{
    lemma_last_sample_at(rs, j);
}

/// A message of a kind other than file identification, telemetry sample, lap or
/// activity changes neither counter nor the series.
pub proof fn lemma_other_kinds_inert(rs: Seq<Record>, r: Record)
    requires
        !(dispatched_kind(r) == Some(MessageKind::FileId) || dispatched_kind(r) == Some(MessageKind::Record)
            || dispatched_kind(r) == Some(MessageKind::Lap) || dispatched_kind(r) == Some(MessageKind::Activity)),
    ensures
        stream_samples(rs.push(r)) == stream_samples(rs),
        stream_count(rs.push(r), MessageKind::Record) == stream_count(rs, MessageKind::Record),
        stream_count(rs.push(r), MessageKind::Lap) == stream_count(rs, MessageKind::Lap),
{
    assert(rs.push(r).drop_last() =~= rs);
}

/// A telemetry sample with a valid timestamp but no valid heart rate is counted
/// and adds nothing to the series.
pub proof fn lemma_sample_without_heart_rate(rs: Seq<Record>, r: Record)
    requires
        dispatched_kind(r) == Some(MessageKind::Record),
        as_u32(extracted(r->fields@, TIMESTAMP_FIELD, FieldKind::Uint32)) is Some,
        as_u8(extracted(r->fields@, HEART_RATE_FIELD, FieldKind::Uint8)) is None,
    ensures
        stream_count(rs.push(r), MessageKind::Record) == stream_count(rs, MessageKind::Record) + 1,
        stream_samples(rs.push(r)) == stream_samples(rs),
{
    assert(rs.push(r).drop_last() =~= rs);
}

} // verus!
