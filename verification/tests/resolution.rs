use monitor_power::PlatformError;
use monitor_power::resolver::{plan_fetch, resolve, FetchAction, PhysicalQuery, RawMonitor};

fn utf16(text: &str) -> Vec<u16> {
    text.encode_utf16().collect()
}

fn raw_with_description(handle: u64, text: &str, capacity: usize) -> RawMonitor {
    let mut buffer = utf16(text);
    while buffer.len() < capacity {
        buffer.push(0);
    }
    RawMonitor { handle, description_buffer: buffer }
}

#[test]
fn plan_fetch_aborts_on_count_failure() {
    let action = plan_fetch(Err(PlatformError { code: 31 }));
    assert_eq!(action, FetchAction::Abort(PlatformError { code: 31 }));
}

#[test]
fn plan_fetch_zero_count_is_empty_success() {
    let action = plan_fetch(Ok(0));
    assert_eq!(action, FetchAction::Empty);
}

#[test]
fn plan_fetch_nonzero_count_requests_exactly_that_many() {
    let action = plan_fetch(Ok(3));
    assert_eq!(action, FetchAction::Fetch(3));
}

#[test]
fn resolve_zero_monitors_is_empty_success() {
    let result = resolve(&PhysicalQuery::NoMonitors);
    assert!(matches!(result, Ok(ref records) if records.is_empty()));
}

#[test]
fn resolve_count_failure_carries_platform_code() {
    let result = resolve(&PhysicalQuery::CountFailed(5));
    assert_eq!(result.unwrap_err(), PlatformError { code: 5 });
}

#[test]
fn resolve_fill_failure_carries_platform_code() {
    let result = resolve(&PhysicalQuery::FillFailed(87));
    assert_eq!(result.unwrap_err(), PlatformError { code: 87 });
}

#[test]
fn resolve_decodes_every_record_in_order() {
    let raws = vec![
        raw_with_description(11, "Acme 27in", 16),
        raw_with_description(22, "Other", 16),
    ];
    let records = resolve(&PhysicalQuery::Filled(raws)).unwrap();
    assert_eq!(records.len(), 2);
    assert_eq!(records[0].handle, 11);
    assert_eq!(records[0].description, utf16("Acme 27in"));
    assert_eq!(records[1].handle, 22);
    assert_eq!(records[1].description, utf16("Other"));
}

#[test]
fn resolve_keeps_full_description_without_terminator() {
    let raw = RawMonitor { handle: 7, description_buffer: utf16("Full house") };
    let records = resolve(&PhysicalQuery::Filled(vec![raw])).unwrap();
    assert_eq!(records[0].description, utf16("Full house"));
}
