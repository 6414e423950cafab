use fit_hr::aggregate::{process, Aggregator, DuplicatePolicy, Note, ProcessError};
use fit_hr::clock::{file_created_text, local_offset, recorder_to_unix, resolve_activity, OffsetError};
use fit_hr::message::{extract, extract_u32, extract_u8, Field, FieldKind, FieldValue, MessageKind, Record};
use fit_hr::series::TimeSeries;

fn field(id: u8, value: FieldValue) -> Field {
    Field { id, base_type: 0, value }
}

fn sample(ts: u32, hr: u8) -> Record {
    Record::Normal {
        kind: Some(MessageKind::Record),
        fields: vec![field(253, FieldValue::Uint32(ts)), field(3, FieldValue::Uint8(hr))],
    }
}

fn bare(kind: MessageKind) -> Record {
    Record::Normal { kind: Some(kind), fields: vec![] }
}

fn activity(start: u32, local: u32) -> Record {
    Record::Normal {
        kind: Some(MessageKind::Activity),
        fields: vec![field(253, FieldValue::Uint32(start)), field(5, FieldValue::Uint32(local))],
    }
}

fn render(lines: &[(u32, u8)]) -> String {
    let mut out = String::new();
    for (offset, hr) in lines {
        out.push_str(&format!("{}, {}\n", offset, hr));
    }
    out
}

#[test]
fn example_stream_with_lap() {
    let records = vec![sample(100, 60), sample(105, 62), bare(MessageKind::Lap), sample(110, 61)];
    let rep = process(&records).unwrap();
    assert_eq!(rep.lines, vec![(0, 60), (5, 62), (10, 61)]);
    assert_eq!(render(&rep.lines), "0, 60\n5, 62\n10, 61\n");
    assert_eq!(rep.sample_count, 3);
    assert_eq!(rep.lap_count, 1);
    assert!(rep.activity.is_none());
}

#[test]
fn activity_offset_one_hour() {
    let fields = vec![field(253, FieldValue::Uint32(1000)), field(5, FieldValue::Uint32(4600))];
    let a = resolve_activity(&fields).unwrap().unwrap();
    assert_eq!(a.start, 1000);
    assert_eq!(a.offset_seconds, 3600);
    assert_eq!(a.local_time, "1989-12-31T01:16:40+01:00");
}

#[test]
fn activity_negative_offset() {
    let fields = vec![field(253, FieldValue::Uint32(20000)), field(5, FieldValue::Uint32(2000))];
    let a = resolve_activity(&fields).unwrap().unwrap();
    assert_eq!(a.offset_seconds, -18000);
    assert_eq!(a.local_time, "1989-12-31T00:33:20-05:00");
}

#[test]
fn activity_missing_local_time_gives_nothing() {
    let fields = vec![field(253, FieldValue::Uint32(1000))];
    assert!(resolve_activity(&fields).unwrap().is_none());
    let invalid = vec![field(253, FieldValue::Uint32(1000)), field(5, FieldValue::Uint32(u32::MAX))];
    assert!(resolve_activity(&invalid).unwrap().is_none());
}

#[test]
fn activity_offset_overflow_is_fatal() {
    let fields = vec![field(253, FieldValue::Uint32(0)), field(5, FieldValue::Uint32(3_000_000_000))];
    assert_eq!(resolve_activity(&fields).err(), Some(OffsetError::Overflow));
    let records = vec![sample(100, 60), activity(0, 3_000_000_000)];
    assert_eq!(process(&records).err(), Some(ProcessError::Offset(OffsetError::Overflow)));
}

#[test]
fn activity_offset_of_a_day_is_fatal() {
    let fields = vec![field(253, FieldValue::Uint32(0)), field(5, FieldValue::Uint32(86_400))];
    assert_eq!(resolve_activity(&fields).err(), Some(OffsetError::OutOfRange));
}

#[test]
fn last_activity_wins() {
    let records = vec![sample(100, 60), activity(1000, 4600), activity(2000, 2000 + 7200)];
    let rep = process(&records).unwrap();
    let a = rep.activity.unwrap();
    assert_eq!(a.start, 2000);
    assert_eq!(a.offset_seconds, 7200);
    assert_eq!(a.local_time, "1989-12-31T02:33:20+02:00");
}

#[test]
fn local_offset_bounds() {
    assert_eq!(local_offset(1000, 4600), Some(3600));
    assert_eq!(local_offset(4600, 1000), Some(-3600));
    assert_eq!(local_offset(0, i32::MAX as u32), Some(i32::MAX));
    assert_eq!(local_offset(0, i32::MAX as u32 + 1), None);
    assert_eq!(local_offset(u32::MAX, 0), None);
}

#[test]
fn recorder_epoch_conversion() {
    assert_eq!(recorder_to_unix(0), 631_065_600);
    assert_eq!(recorder_to_unix(u32::MAX), 631_065_600 + 4_294_967_295);
}

#[test]
fn empty_series_is_fatal() {
    assert_eq!(process(&vec![]).err(), Some(ProcessError::EmptySeries));
    let records = vec![bare(MessageKind::Lap), bare(MessageKind::Record)];
    assert_eq!(process(&records).err(), Some(ProcessError::EmptySeries));
    let agg = Aggregator::new();
    assert_eq!(agg.finish().err(), Some(ProcessError::EmptySeries));
}

#[test]
fn one_line_per_sample_relative_to_earliest() {
    let records = vec![sample(500, 70), sample(300, 65), sample(400, 80)];
    let rep = process(&records).unwrap();
    assert_eq!(rep.lines, vec![(0, 65), (100, 80), (200, 70)]);
}

#[test]
fn offsets_ascend_after_dedup() {
    let records = vec![sample(40, 1), sample(10, 2), sample(30, 3), sample(10, 4), sample(20, 5)];
    let rep = process(&records).unwrap();
    assert_eq!(rep.lines, vec![(0, 4), (10, 5), (20, 3), (30, 1)]);
    for w in rep.lines.windows(2) {
        assert!(w[0].0 < w[1].0);
    }
}

#[test]
fn duplicate_timestamp_later_wins() {
    let records = vec![sample(100, 60), sample(100, 90)];
    let rep = process(&records).unwrap();
    assert_eq!(rep.lines, vec![(0, 90)]);
    assert_eq!(rep.sample_count, 2);
}

#[test]
fn other_kinds_are_inert() {
    let mut agg = Aggregator::new();
    agg.feed(&sample(100, 60)).unwrap();
    let kinds = [
        MessageKind::Event,
        MessageKind::Session,
        MessageKind::DeviceInfo,
        MessageKind::FileCreator,
        MessageKind::DeviceSettings,
        MessageKind::UserProfile,
        MessageKind::Sport,
        MessageKind::ZonesTarget,
    ];
    for k in kinds {
        let rec = Record::Normal {
            kind: Some(k),
            fields: vec![field(253, FieldValue::Uint32(200)), field(3, FieldValue::Uint8(99))],
        };
        assert!(matches!(agg.feed(&rec), Ok(Note::Nothing)));
    }
    let other = Record::Normal {
        kind: Some(MessageKind::Other),
        fields: vec![field(253, FieldValue::Uint32(200)), field(3, FieldValue::Uint8(99))],
    };
    assert!(matches!(agg.feed(&other), Ok(Note::Unhandled)));
    assert!(matches!(agg.feed(&Record::Normal { kind: None, fields: vec![] }), Ok(Note::Nothing)));
    assert!(matches!(
        agg.feed(&Record::CompressedTime { kind: Some(MessageKind::Record) }),
        Ok(Note::CompressedTime(MessageKind::Record))
    ));
    assert_eq!(agg.sample_count, 1);
    assert_eq!(agg.lap_count, 0);
    assert_eq!(agg.finish().unwrap(), vec![(0, 60)]);
}

#[test]
fn sample_without_heart_rate_is_counted_only() {
    let no_hr = Record::Normal {
        kind: Some(MessageKind::Record),
        fields: vec![field(253, FieldValue::Uint32(105))],
    };
    let invalid_hr = Record::Normal {
        kind: Some(MessageKind::Record),
        fields: vec![field(253, FieldValue::Uint32(110)), field(3, FieldValue::Uint8(0xFF))],
    };
    let records = vec![sample(100, 60), no_hr, invalid_hr];
    let rep = process(&records).unwrap();
    assert_eq!(rep.lines, vec![(0, 60)]);
    assert_eq!(rep.sample_count, 3);
}

#[test]
fn file_id_renders_creation_time() {
    let fields = vec![field(4, FieldValue::Uint32(1000))];
    assert_eq!(file_created_text(&fields), Some("1989-12-31 00:16:40 UTC".to_string()));
    assert_eq!(file_created_text(&vec![field(4, FieldValue::Uint8(3))]), None);
    let mut agg = Aggregator::new();
    let rec = Record::Normal { kind: Some(MessageKind::FileId), fields };
    match agg.feed(&rec) {
        Ok(Note::FileCreated(text)) => assert_eq!(text, "1989-12-31 00:16:40 UTC"),
        other => panic!("unexpected {:?}", other),
    }
}

#[test]
fn extract_checks_id_kind_and_sentinel() {
    let fields = vec![
        field(3, FieldValue::Uint16(70)),
        field(7, FieldValue::Uint8(80)),
        field(3, FieldValue::Uint8(0xFF)),
    ];
    assert_eq!(extract_u8(&fields, 3), None);
    assert_eq!(extract_u8(&fields, 7), Some(80));
    assert_eq!(extract(&fields, 3, FieldKind::Uint16), Some(FieldValue::Uint16(70)));
    assert_eq!(extract(&vec![field(3, FieldValue::Uint16(0xFFFF))], 3, FieldKind::Uint16), None);
    assert_eq!(extract(&vec![field(3, FieldValue::Uint8z(0))], 3, FieldKind::Uint8z), None);
    assert_eq!(extract(&vec![field(3, FieldValue::Sint8(0x7F))], 3, FieldKind::Sint8), None);
    assert_eq!(extract(&vec![field(3, FieldValue::Unsupported)], 3, FieldKind::Unsupported), None);
    assert_eq!(extract_u32(&vec![], 253), None);
}

#[test]
fn extract_last_valid_duplicate_wins() {
    let fields = vec![
        field(253, FieldValue::Uint32(10)),
        field(253, FieldValue::Uint32(20)),
        field(253, FieldValue::Uint32(u32::MAX)),
    ];
    assert_eq!(extract_u32(&fields, 253), Some(20));
}

#[test]
fn series_insert_replaces_and_orders() {
    let mut s = TimeSeries::new();
    assert!(s.is_empty());
    assert_eq!(s.offsets(), None);
    s.insert(30, 1);
    s.insert(10, 2);
    s.insert(20, 3);
    s.insert(10, 4);
    assert_eq!(s.len(), 3);
    assert_eq!(s.entries, vec![(10, 4), (20, 3), (30, 1)]);
    assert_eq!(s.offsets(), Some(vec![(0, 4), (10, 3), (20, 1)]));
}

#[test]
fn largest_timestamps_give_exact_offsets() {
    let records = vec![sample(u32::MAX - 1, 50), sample(0, 40)];
    let rep = process(&records).unwrap();
    assert_eq!(rep.lines, vec![(0, 40), (u32::MAX - 1, 50)]);
}

#[test]
fn duplicate_timestamp_first_wins_when_chosen() {
    let mut agg = Aggregator::with_policy(DuplicatePolicy::KeepFirst);
    agg.feed(&sample(100, 60)).unwrap();
    agg.feed(&sample(100, 90)).unwrap();
    agg.feed(&sample(103, 70)).unwrap();
    assert_eq!(agg.sample_count, 3);
    assert_eq!(agg.finish().unwrap(), vec![(0, 60), (3, 70)]);
    let mut last = Aggregator::new();
    assert_eq!(last.policy, DuplicatePolicy::KeepLast);
    last.feed(&sample(100, 60)).unwrap();
    last.feed(&sample(100, 90)).unwrap();
    assert_eq!(last.finish().unwrap(), vec![(0, 90)]);
}

#[test]
fn series_contains_and_insert_if_absent() {
    let mut s = TimeSeries::new();
    assert!(!s.contains(5));
    s.insert_if_absent(5, 1);
    s.insert_if_absent(5, 2);
    assert!(s.contains(5));
    assert!(!s.contains(6));
    assert_eq!(s.entries, vec![(5, 1)]);
}
