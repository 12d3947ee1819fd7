use cerberus::strategy::MISSING_RECORD_MSG;
use cerberus::link::BAD_LINK_MSG;
use cerberus::record::NOT_JSON_MSG;
use cerberus::{
    classify_entry, parse_link, parse_link_text, plan_stream_copy, record_to_event_data,
    route_type_entry, Append, CategoryStep, CategoryTracker, CerberusError, EntryKind, EventData,
    IndexEntry, Record, StreamBatcher, BATCH_CAPACITY,
};

fn json_record(stream: &str, position: u64, tpe: &str, body: &str) -> Record {
    Record {
        stream_id: stream.to_string(),
        position,
        event_type: tpe.to_string(),
        id: 1000 + position as u128,
        is_json: true,
        payload: body.as_bytes().to_vec(),
    }
}

fn binary_record(stream: &str, position: u64) -> Record {
    Record {
        stream_id: stream.to_string(),
        position,
        event_type: "Blob".to_string(),
        id: position as u128,
        is_json: false,
        payload: position.to_be_bytes().to_vec(),
    }
}

fn live(r: Record) -> IndexEntry {
    IndexEntry { event: Some(r), link: None }
}

fn deleted_link(payload: &str) -> IndexEntry {
    IndexEntry {
        event: None,
        link: Some(Record {
            stream_id: "$category-orders".to_string(),
            position: 3,
            event_type: "$>".to_string(),
            id: 7,
            is_json: false,
            payload: payload.as_bytes().to_vec(),
        }),
    }
}

fn stream_of(n: u64) -> Vec<IndexEntry> {
    (0..n).map(|p| live(binary_record("src", p))).collect()
}

fn dev_fault_text(e: CerberusError) -> String {
    match e {
        CerberusError::DevFault(m) => m,
        CerberusError::UserFault(m) => panic!("expected a developer fault, got a user fault: {}", m),
    }
}

/// A destination log held in memory: appends go at the end of their stream.
fn apply(log: &mut Vec<(String, Vec<EventData>)>, plan: Vec<Append>) {
    for a in plan {
        match log.iter_mut().find(|(name, _)| *name == a.stream) {
            Some((_, events)) => events.extend(a.events),
            None => log.push((a.stream, a.events)),
        }
    }
}

fn read_back<'a>(log: &'a [(String, Vec<EventData>)], stream: &str) -> &'a [EventData] {
    log.iter().find(|(name, _)| name == stream).map(|(_, e)| e.as_slice()).unwrap_or(&[])
}

#[test]
fn stream_copy_keeps_read_order() {
    let entries = stream_of(1234);
    let plan = plan_stream_copy("src", &entries).unwrap();
    let mut log = Vec::new();
    apply(&mut log, plan);
    let back = read_back(&log, "src");
    assert_eq!(back.len(), 1234);
    for (p, e) in back.iter().enumerate() {
        assert_eq!(e.payload, (p as u64).to_be_bytes().to_vec());
        assert_eq!(e.id, p as u128);
    }
}

#[test]
fn two_full_batches_for_twice_the_capacity() {
    assert_eq!(BATCH_CAPACITY, 500);
    let plan = plan_stream_copy("src", &stream_of(2 * BATCH_CAPACITY as u64)).unwrap();
    let sizes: Vec<usize> = plan.iter().map(|a| a.events.len()).collect();
    assert_eq!(sizes, vec![BATCH_CAPACITY, BATCH_CAPACITY]);
    assert!(plan.iter().all(|a| a.stream == "src"));
}

#[test]
fn one_more_record_makes_a_third_batch_of_one() {
    let plan = plan_stream_copy("src", &stream_of(2 * BATCH_CAPACITY as u64 + 1)).unwrap();
    let sizes: Vec<usize> = plan.iter().map(|a| a.events.len()).collect();
    assert_eq!(sizes, vec![BATCH_CAPACITY, BATCH_CAPACITY, 1]);
}

#[test]
fn empty_stream_writes_nothing() {
    let plan = plan_stream_copy("src", &Vec::new()).unwrap();
    assert!(plan.is_empty());
}

#[test]
fn rerun_duplicates_records() {
    let entries = stream_of(3);
    let mut log = Vec::new();
    apply(&mut log, plan_stream_copy("src", &entries).unwrap());
    apply(&mut log, plan_stream_copy("src", &entries).unwrap());
    let back = read_back(&log, "src");
    let ids: Vec<u128> = back.iter().map(|e| e.id).collect();
    assert_eq!(ids, vec![0, 1, 2, 0, 1, 2]);
}

#[test]
fn orders_stream_end_to_end() {
    let bodies = [r#"{"id":1,"total":10}"#, r#"{"id":2,"total":25}"#, r#"{"id":3,"total":7}"#];
    let types = ["OrderPlaced", "OrderPaid", "OrderShipped"];
    let entries: Vec<IndexEntry> = (0..3)
        .map(|i| live(json_record("orders-1", i as u64, types[i], bodies[i])))
        .collect();
    let plan = plan_stream_copy("orders-1", &entries).unwrap();
    let mut log = Vec::new();
    apply(&mut log, plan);
    let back = read_back(&log, "orders-1");
    assert_eq!(back.len(), 3);
    for i in 0..3 {
        assert_eq!(back[i].event_type, types[i]);
        assert!(back[i].is_json);
        assert_eq!(back[i].payload, bodies[i].as_bytes().to_vec());
    }
}

#[test]
fn deleted_link_is_told_apart_from_live_record() {
    match classify_entry(deleted_link("0@orders-9")).unwrap() {
        EntryKind::Deleted(t) => {
            assert_eq!(t.position, 0);
            assert_eq!(t.stream, "orders-9");
        },
        EntryKind::Live(_) => panic!("a link left alone must be reported as deleted"),
    }
    match classify_entry(live(binary_record("orders-9", 4))).unwrap() {
        EntryKind::Live(r) => assert_eq!(r.position, 4),
        EntryKind::Deleted(_) => panic!("a record must be reported as live"),
    }
}

#[test]
fn category_skips_deleted_members() {
    let mut tracker = CategoryTracker::new();
    match tracker.on_index_entry(&deleted_link("0@orders-9")).unwrap() {
        CategoryStep::Deleted(t) => assert_eq!(t.stream, "orders-9"),
        other => panic!("unexpected step {:?}", other),
    }
    let member = Record {
        stream_id: "$category-orders".to_string(),
        position: 0,
        event_type: "$@".to_string(),
        id: 1,
        is_json: false,
        payload: b"orders-1".to_vec(),
    };
    match tracker.on_index_entry(&live(member)).unwrap() {
        CategoryStep::Copy(name) => assert_eq!(name, "orders-1"),
        other => panic!("unexpected step {:?}", other),
    }
}

#[test]
fn category_copies_each_member_once() {
    let mut tracker = CategoryTracker::new();
    let names = ["orders-1", "orders-2", "orders-1", "orders-2", "orders-3"];
    let mut steps = Vec::new();
    for (i, n) in names.iter().enumerate() {
        let r = Record {
            stream_id: "$category-orders".to_string(),
            position: i as u64,
            event_type: "$@".to_string(),
            id: i as u128,
            is_json: false,
            payload: n.as_bytes().to_vec(),
        };
        steps.push(tracker.on_index_entry(&live(r)).unwrap());
    }
    let copied: Vec<&str> = steps
        .iter()
        .filter_map(|s| match s {
            CategoryStep::Copy(n) => Some(n.as_str()),
            _ => None,
        })
        .collect();
    assert_eq!(copied, vec!["orders-1", "orders-2", "orders-3"]);
    assert!(matches!(steps[2], CategoryStep::AlreadyCopied(ref n) if n == "orders-1"));
}

#[test]
fn invalid_utf8_member_name_is_decoded_lossily() {
    let mut tracker = CategoryTracker::new();
    let r = Record {
        stream_id: "$category-x".to_string(),
        position: 0,
        event_type: "$@".to_string(),
        id: 0,
        is_json: false,
        payload: vec![b'x', 0xff, b'y'],
    };
    match tracker.on_index_entry(&live(r)).unwrap() {
        CategoryStep::Copy(name) => assert_eq!(name, "x\u{fffd}y"),
        other => panic!("unexpected step {:?}", other),
    }
}

#[test]
fn link_parsing() {
    let t = parse_link_text("42@orders-1").unwrap();
    assert_eq!(t.position, 42);
    assert_eq!(t.stream, "orders-1");
    let t = parse_link(&b"7@a@b".to_vec()).unwrap();
    assert_eq!(t.position, 7);
    assert_eq!(t.stream, "a@b");
    let t = parse_link_text("3@").unwrap();
    assert_eq!(t.stream, "");
    for bad in ["", "@s", "x@s", "12", "1x@s", "99999999999999999999@s"].iter() {
        assert_eq!(dev_fault_text(parse_link_text(bad).unwrap_err()), BAD_LINK_MSG);
    }
}

#[test]
fn malformed_link_is_a_developer_fault() {
    let e = classify_entry(deleted_link("orders-9")).unwrap_err();
    assert_eq!(dev_fault_text(e), BAD_LINK_MSG);
    let mut tracker = CategoryTracker::new();
    let e = tracker.on_index_entry(&deleted_link("@orders-9")).unwrap_err();
    assert_eq!(dev_fault_text(e), BAD_LINK_MSG);
}

#[test]
fn empty_entry_is_a_developer_fault() {
    let e = classify_entry(IndexEntry { event: None, link: None }).unwrap_err();
    assert_eq!(dev_fault_text(e), MISSING_RECORD_MSG);
}

#[test]
fn json_records_must_hold_json() {
    let bad = json_record("s", 0, "T", "{not json");
    assert_eq!(dev_fault_text(record_to_event_data(&bad).unwrap_err()), NOT_JSON_MSG);
    let empty = json_record("s", 0, "T", "");
    assert!(record_to_event_data(&empty).is_err());
    let good = json_record("s", 0, "T", r#"{"a":[1,2]}"#);
    let d = record_to_event_data(&good).unwrap();
    assert_eq!(d.payload, br#"{"a":[1,2]}"#.to_vec());
    assert_eq!(d.event_type, "T");
    assert_eq!(d.id, 1000);
    let mut binary = binary_record("s", 1);
    binary.payload = b"{not json".to_vec();
    assert!(record_to_event_data(&binary).is_ok());
}

#[test]
fn stream_copy_stops_on_bad_json() {
    let mut entries = stream_of(3);
    entries.push(live(json_record("src", 3, "T", "nope")));
    let e = plan_stream_copy("src", &entries).unwrap_err();
    assert_eq!(dev_fault_text(e), NOT_JSON_MSG);
}

#[test]
fn type_entries_go_to_their_own_stream() {
    let a = route_type_entry(&live(json_record("orders-1", 0, "Paid", "{}"))).unwrap().unwrap();
    assert_eq!(a.stream, "orders-1");
    assert_eq!(a.events.len(), 1);
    assert_eq!(a.events[0].event_type, "Paid");
    let b = route_type_entry(&live(json_record("orders-2", 5, "Paid", "{}"))).unwrap().unwrap();
    assert_eq!(b.stream, "orders-2");
    assert!(route_type_entry(&deleted_link("0@orders-3")).unwrap().is_none());
}

#[test]
fn batcher_hands_out_full_batches_then_the_rest() {
    let mut batcher = StreamBatcher::new("dst");
    assert_eq!(batcher.target_name(), "dst");
    let mut handed = Vec::new();
    for e in stream_of(BATCH_CAPACITY as u64 + 2) {
        if let Some(a) = batcher.push_entry(&e).unwrap() {
            handed.push(a);
        }
    }
    assert_eq!(handed.len(), 1);
    assert_eq!(handed[0].events.len(), BATCH_CAPACITY);
    assert!(batcher.push_entry(&deleted_link("0@gone")).unwrap().is_none());
    let last = batcher.finish().unwrap();
    assert_eq!(last.stream, "dst");
    assert_eq!(last.events.len(), 2);
    assert!(StreamBatcher::new("dst").finish().is_none());
}

#[test]
fn json_check_accepts_what_a_raw_json_value_accepts() {
    let surrogate = json_record("s", 0, "T", r#"{"name":"\ud800"}"#);
    assert!(record_to_event_data(&surrogate).is_ok());
    let huge = json_record("s", 1, "T", r#"{"amount":1e400}"#);
    assert!(record_to_event_data(&huge).is_ok());
    let padded = json_record("s", 2, "T", " [1, 2] \n");
    assert!(record_to_event_data(&padded).is_ok());
    let two_values = json_record("s", 3, "T", "1 2");
    assert!(record_to_event_data(&two_values).is_err());
}

#[test]
fn rerun_makes_the_same_appends() {
    let entries = stream_of(1001);
    let first = plan_stream_copy("src", &entries).unwrap();
    let second = plan_stream_copy("src", &entries).unwrap();
    assert_eq!(first.len(), second.len());
    for (a, b) in first.iter().zip(second.iter()) {
        assert_eq!(a.stream, b.stream);
        let ids_a: Vec<u128> = a.events.iter().map(|e| e.id).collect();
        let ids_b: Vec<u128> = b.events.iter().map(|e| e.id).collect();
        assert_eq!(ids_a, ids_b);
    }
    assert_eq!(first[2].events[0].id, 1000);
}
