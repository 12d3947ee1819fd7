use cerberus::compliance::{reconcile_subscription, SubscriptionAction};
use cerberus::error::DEV_FAULT_HEADER;
use cerberus::listing::{events_stream_name, streams_stream_name, NO_LISTING_SOURCE_MSG};
use cerberus::{
    is_valid_kind, CerberusError, NamedConsumerStrategy, PersistentSubscriptionSettings,
    ProjectionType, SubscriptionConfig, SubscriptionStrategy, User,
};

#[test]
fn fault_constructors_and_messages() {
    let u = CerberusError::user_fault("bad flag");
    assert_eq!(u.message(), "bad flag");
    let d = CerberusError::dev_fault("boom");
    assert!(matches!(d, CerberusError::DevFault(ref m) if m == "boom"));
    assert_eq!(d.message(), format!("{}boom", DEV_FAULT_HEADER));
    let b = CerberusError::user_fault("x").boxed();
    assert!(matches!(*b, CerberusError::UserFault(ref m) if m == "x"));
}

#[test]
fn settings_take_defaults() {
    let s = PersistentSubscriptionSettings {
        resolve_link: true,
        start_from: -1,
        extra_stats: false,
        msg_timeout_in_ms: None,
        max_retry_count: Some(3),
        live_buffer_size: None,
        read_batch_size: None,
        buffer_size: Some(42),
        checkpoint_after_in_ms: None,
        min_checkpoint_count: None,
        max_checkpoint_count: None,
        max_subs_count: None,
        strategy: SubscriptionStrategy::Pinned,
    };
    let c = s.to_sub_config();
    assert!(c.resolve_linktos);
    assert_eq!(c.start_from, -1);
    assert_eq!(c.message_timeout_milliseconds, 10_000);
    assert_eq!(c.max_retry_count, 3);
    assert_eq!(c.buffer_size, 42);
    assert_eq!(c.read_batch_size, 20);
    assert_eq!(c.max_check_point_count, 500);
    assert_eq!(c.named_consumer_strategy, NamedConsumerStrategy::Pinned);
    let d = SubscriptionConfig::default();
    assert_eq!(d.live_buffer_size, 500);
    assert_eq!(d.named_consumer_strategy, NamedConsumerStrategy::RoundRobin);
    assert_eq!(SubscriptionStrategy::default(), SubscriptionStrategy::RoundRobin);
}

#[test]
fn projection_kinds() {
    for k in ["any", "transient", "onetime", "continuous", "all-non-transient"].iter() {
        assert!(is_valid_kind(k));
    }
    assert!(!is_valid_kind("all"));
    assert!(!is_valid_kind(""));
    assert_eq!(ProjectionType::Continuous.get_human_string(), "continuous");
    assert_eq!(ProjectionType::OneTime.get_human_string(), "onetime");
}

#[test]
fn user_from_options() {
    assert!(User::from_args(None, Some("pw")).is_none());
    let u = User::from_args(Some("admin"), None).unwrap();
    assert_eq!(u.login, "admin");
    let c = u.to_credentials();
    assert_eq!(c.password, "");
    let c = User::from_args(Some("admin"), Some("changeit")).unwrap().to_credentials();
    assert_eq!((c.login.as_str(), c.password.as_str()), ("admin", "changeit"));
}

fn settings(buffer_size: Option<usize>) -> PersistentSubscriptionSettings {
    PersistentSubscriptionSettings {
        resolve_link: false,
        start_from: 0,
        extra_stats: false,
        msg_timeout_in_ms: None,
        max_retry_count: None,
        live_buffer_size: None,
        read_batch_size: None,
        buffer_size,
        checkpoint_after_in_ms: None,
        min_checkpoint_count: None,
        max_checkpoint_count: None,
        max_subs_count: None,
        strategy: SubscriptionStrategy::RoundRobin,
    }
}

#[test]
fn missing_subscription_is_created() {
    let s = settings(Some(64));
    match reconcile_subscription(&s, None) {
        SubscriptionAction::Create(c) => assert_eq!(c.buffer_size, 64),
        other => panic!("unexpected action {:?}", other),
    }
}

#[test]
fn subscription_start_point_is_not_reconciled() {
    let mut live = SubscriptionConfig::default();
    live.start_from = 1234;
    assert_eq!(reconcile_subscription(&settings(None), Some(live)), SubscriptionAction::UpToDate);
}

#[test]
fn changed_subscription_is_updated() {
    let mut live = SubscriptionConfig::default();
    live.start_from = 9;
    match reconcile_subscription(&settings(Some(64)), Some(live)) {
        SubscriptionAction::Update(c) => {
            assert_eq!(c.buffer_size, 64);
            assert_eq!(c.start_from, 9);
        }
        other => panic!("unexpected action {:?}", other),
    }
}

#[test]
fn listing_stream_names() {
    assert_eq!(events_stream_name(Some("orders"), None, false, None).unwrap(), "orders");
    assert_eq!(
        events_stream_name(Some("orders"), Some("g1"), true, None).unwrap(),
        "$persistentsubscription-orders::g1-checkpoint"
    );
    assert_eq!(
        events_stream_name(Some("orders"), Some("g1"), false, Some("ignored")).unwrap(),
        "$persistentsubscription-orders::g1-parked"
    );
    assert_eq!(events_stream_name(None, None, false, Some("Paid")).unwrap(), "$et-Paid");
    match events_stream_name(None, Some("g1"), true, None).unwrap_err() {
        CerberusError::UserFault(m) => assert_eq!(m, NO_LISTING_SOURCE_MSG),
        other => panic!("unexpected error {:?}", other),
    }
    assert_eq!(streams_stream_name(Some("orders")), "$ce-orders");
    assert_eq!(streams_stream_name(None), "$streams");
}

#[test]
fn developer_fault_text_asks_for_an_issue() {
    let d = CerberusError::dev_fault("bad payload");
    assert_eq!(
        d.message(),
        "You encountered an application unexpected error. Please report an issue there https://github.com/YoEight/cerberus/issues/new:\nUnexpected error >>= bad payload"
    );
}
