use cerberus::options::parse_option;
use cerberus::selection::{
    MANY_SOURCES_MSG, NO_SOURCE_MSG, RECENT_AND_TOP_MSG, RECENT_COUNT, TOP_PARSE_MSG,
    TOP_ZERO_MSG,
};
use cerberus::text::{parse_decimal, parse_unsigned, text_equals};
use cerberus::{get_export_selection, get_limit, get_stream_name, resolve, CerberusError, Limit, Selection};

fn user_fault_text(e: CerberusError) -> String {
    match e {
        CerberusError::UserFault(m) => m,
        CerberusError::DevFault(m) => panic!("expected a user fault, got a developer fault: {}", m),
    }
}

#[test]
fn no_source_is_a_user_fault() {
    let e = get_export_selection(None, None, None).unwrap_err();
    assert_eq!(user_fault_text(e), NO_SOURCE_MSG);
}

#[test]
fn two_or_three_sources_are_rejected() {
    let cases = [
        (Some("s"), Some("t"), None),
        (Some("s"), None, Some("c")),
        (None, Some("t"), Some("c")),
        (Some("s"), Some("t"), Some("c")),
    ];
    for (s, t, c) in cases.iter() {
        let e = get_export_selection(*s, *t, *c).unwrap_err();
        assert_eq!(user_fault_text(e), MANY_SOURCES_MSG);
    }
}

#[test]
fn each_single_source_names_its_index_stream() {
    let sel = get_export_selection(Some("orders-1"), None, None).unwrap();
    assert!(matches!(sel, Selection::Stream(ref s) if s == "orders-1"));
    assert_eq!(get_stream_name(&sel), "orders-1");

    let sel = get_export_selection(None, Some("OrderPlaced"), None).unwrap();
    assert!(matches!(sel, Selection::EventType(ref s) if s == "OrderPlaced"));
    assert_eq!(get_stream_name(&sel), "$et-OrderPlaced");

    let sel = get_export_selection(None, None, Some("orders")).unwrap();
    assert!(matches!(sel, Selection::StreamCategory(ref s) if s == "orders"));
    assert_eq!(get_stream_name(&sel), "$category-orders");
}

#[test]
fn top_zero_always_fails() {
    assert_eq!(user_fault_text(get_limit(false, Some("0")).unwrap_err()), TOP_ZERO_MSG);
    assert_eq!(user_fault_text(get_limit(false, Some("000")).unwrap_err()), TOP_ZERO_MSG);
    assert_eq!(user_fault_text(get_limit(false, Some("+0")).unwrap_err()), TOP_ZERO_MSG);
}

#[test]
fn recent_and_top_together_are_rejected() {
    assert_eq!(user_fault_text(get_limit(true, Some("5")).unwrap_err()), RECENT_AND_TOP_MSG);
    assert_eq!(user_fault_text(get_limit(true, Some("0")).unwrap_err()), RECENT_AND_TOP_MSG);
}

#[test]
fn limits_from_flags() {
    assert_eq!(get_limit(true, None).unwrap(), Limit::Top(RECENT_COUNT));
    assert_eq!(RECENT_COUNT, 50);
    assert_eq!(get_limit(false, Some("5")).unwrap(), Limit::Top(5));
    assert_eq!(get_limit(false, Some("+7")).unwrap(), Limit::Top(7));
    assert_eq!(get_limit(false, None).unwrap(), Limit::Unbounded);
}

#[test]
fn unparsable_top_is_a_user_fault() {
    for bad in ["", "+", "-3", "abc", "12a", " 5", "99999999999999999999999"].iter() {
        assert_eq!(user_fault_text(get_limit(false, Some(bad)).unwrap_err()), TOP_PARSE_MSG);
    }
}

#[test]
fn top_accepts_the_largest_size() {
    let max = usize::MAX.to_string();
    assert_eq!(get_limit(false, Some(&max)).unwrap(), Limit::Top(usize::MAX));
}

#[test]
fn resolve_checks_source_then_limit() {
    let plan = resolve(None, None, Some("orders"), true, None).unwrap();
    assert_eq!(plan.index_stream, "$category-orders");
    assert_eq!(plan.limit, Limit::Top(50));

    let plan = resolve(None, Some("Paid"), None, false, None).unwrap();
    assert_eq!(plan.index_stream, "$et-Paid");
    assert_eq!(plan.limit, Limit::Unbounded);

    let e = resolve(None, None, None, false, Some("0")).unwrap_err();
    assert_eq!(user_fault_text(e), NO_SOURCE_MSG);
    let e = resolve(Some("s"), None, None, false, Some("0")).unwrap_err();
    assert_eq!(user_fault_text(e), TOP_ZERO_MSG);
}

#[test]
fn decimal_parsing() {
    assert_eq!(parse_decimal("1234", u64::MAX), Some(1234));
    assert_eq!(parse_decimal("18446744073709551615", u64::MAX), Some(u64::MAX));
    assert_eq!(parse_decimal("18446744073709551616", u64::MAX), None);
    assert_eq!(parse_decimal("11", 10), None);
    assert_eq!(parse_decimal("10", 10), Some(10));
    assert_eq!(parse_decimal("+1", 10), None);
    assert_eq!(parse_unsigned("+1", 10), Some(1));
    assert_eq!(parse_unsigned("", 10), None);
}

#[test]
fn text_comparison() {
    assert!(text_equals("orders", "orders"));
    assert!(!text_equals("orders", "order"));
    assert!(!text_equals("orders", "Orders"));
    assert!(text_equals("", ""));
}

#[test]
fn recent_entries_start_position() {
    assert_eq!(cerberus::tail_start(99, 50), 50);
    assert_eq!(cerberus::tail_start(49, 50), 0);
    assert_eq!(cerberus::tail_start(10, 50), 0);
    assert_eq!(cerberus::tail_start(0, 1), 0);
    assert_eq!(cerberus::tail_start(u64::MAX, 1), u64::MAX);
}

#[test]
fn numeric_option_parsing() {
    assert_eq!(parse_option("tcp-retry-count", "3", 10).unwrap(), 3);
    match parse_option("tcp-retry-count", "x3", 10).unwrap_err() {
        CerberusError::UserFault(m) => assert_eq!(m, "Failed to parse --tcp-retry-count"),
        other => panic!("unexpected error {:?}", other),
    }
    assert!(parse_option("tcp-heartbeat-delay", "11", 10).is_err());
}
