use monitor_power::PlatformError;
use monitor_power::enumerator::{enumerate_all, visit_display, EnumState};
use monitor_power::resolver::{PhysicalQuery, RawMonitor};

fn utf16(text: &str) -> Vec<u16> {
    text.encode_utf16().collect()
}

fn raw(handle: u64, text: &str) -> RawMonitor {
    let mut buffer = utf16(text);
    buffer.push(0);
    buffer.extend([88u16; 3]);
    RawMonitor { handle, description_buffer: buffer }
}

#[test]
fn enumeration_preserves_display_and_delivery_order() {
    let queries = vec![
        PhysicalQuery::Filled(vec![raw(1, "first"), raw(2, "second")]),
        PhysicalQuery::NoMonitors,
        PhysicalQuery::Filled(vec![raw(3, "third")]),
    ];
    let records = enumerate_all(&queries).unwrap();
    let handles: Vec<u64> = records.iter().map(|r| r.handle).collect();
    assert_eq!(handles, vec![1, 2, 3]);
}

#[test]
fn enumeration_of_no_displays_is_empty() {
    let queries: Vec<PhysicalQuery> = Vec::new();
    let records = enumerate_all(&queries).unwrap();
    assert!(records.is_empty());
}

#[test]
fn count_failure_aborts_enumeration_with_no_partial_results() {
    let queries = vec![
        PhysicalQuery::Filled(vec![raw(1, "first")]),
        PhysicalQuery::CountFailed(112),
        PhysicalQuery::Filled(vec![raw(2, "never reached")]),
    ];
    let result = enumerate_all(&queries);
    assert_eq!(result.unwrap_err(), PlatformError { code: 112 });
}

#[test]
fn fill_failure_aborts_enumeration_with_that_code() {
    let queries = vec![PhysicalQuery::FillFailed(6)];
    assert_eq!(enumerate_all(&queries).unwrap_err(), PlatformError { code: 6 });
}

#[test]
fn visitor_appends_records_and_continues() {
    let mut state = EnumState::new();
    let cont = visit_display(&mut state, &PhysicalQuery::Filled(vec![raw(10, "one")]));
    assert!(cont);
    let cont = visit_display(&mut state, &PhysicalQuery::Filled(vec![raw(20, "two")]));
    assert!(cont);
    assert!(state.failure.is_none());
    let handles: Vec<u64> = state.records.iter().map(|r| r.handle).collect();
    assert_eq!(handles, vec![10, 20]);
}

#[test]
fn visitor_stops_the_walk_on_failure_and_keeps_earlier_records() {
    let mut state = EnumState::new();
    assert!(visit_display(&mut state, &PhysicalQuery::Filled(vec![raw(10, "one")])));
    let cont = visit_display(&mut state, &PhysicalQuery::CountFailed(44));
    assert!(!cont);
    assert_eq!(state.failure, Some(PlatformError { code: 44 }));
    assert_eq!(state.records.len(), 1);
    assert_eq!(state.records[0].handle, 10);
}
