use unleash_client::entity_tag::EntityTag;
use unleash_client::error::RemoteError;
use unleash_client::lifecycle::{Lifecycle, LoopAction, Phase};
use unleash_client::unleash::{
    sdk_version, UnleashBuilder, UnleashConfig, DEFAULT_REFRESH_INTERVAL_MS,
};
use unleash_client::unleash_client::ClientFeaturesResponse;
use unleash_types::client_features::ClientFeatures;

fn dataset(version: u32) -> ClientFeatures {
    ClientFeatures {
        version,
        features: vec![],
        segments: None,
        query: None,
        meta: None,
    }
}

fn config() -> UnleashConfig {
    UnleashBuilder::default()
        .build(
            "http://localhost:4242".to_string(),
            "my-app".to_string(),
            "abc:dev.xyz123".to_string(),
        )
        .unwrap()
}

#[test]
fn builder_defaults() {
    let c = config();
    assert_eq!(c.refresh_interval_ms, 15000);
    assert_eq!(DEFAULT_REFRESH_INTERVAL_MS, 15000);
    assert!(!c.disable_metrics);
    assert!(c.instance_id.is_none());
    assert!(c.features_query.is_none());
    assert_eq!(c.environment, "dev");
    assert_eq!(c.token, "abc:dev.xyz123");
    assert_eq!(c.app_name, "my-app");
    assert_eq!(c.url, "http://localhost:4242");
}

#[test]
fn builder_settings() {
    let c = UnleashBuilder::default()
        .instance_id("i-7".to_string())
        .refresh_interval(2500)
        .disable_metrics(true)
        .build("u".to_string(), "a".to_string(), "s:prod.k".to_string())
        .unwrap();
    assert_eq!(c.instance_id.as_deref(), Some("i-7"));
    assert_eq!(c.instance_id().as_deref(), Some("i-7"));
    assert_eq!(c.refresh_interval_ms, 2500);
    assert!(c.disable_metrics);
    assert_eq!(c.environment, "prod");
}

#[test]
fn invalid_credential_fails_construction() {
    assert!(UnleashBuilder::default()
        .build("u".to_string(), "a".to_string(), "abc".to_string())
        .is_err());
    assert!(UnleashConfig::new(
        "u".to_string(),
        "a".to_string(),
        "abc:def".to_string(),
        None,
        None,
        None,
        None
    )
    .is_err());
}

#[test]
fn register_interval_in_seconds() {
    let c = UnleashBuilder::default()
        .refresh_interval(15999)
        .build("u".to_string(), "a".to_string(), "s:e.k".to_string())
        .unwrap();
    assert_eq!(c.register_interval_secs(), 15);
    let big = UnleashBuilder::default()
        .refresh_interval((1u64 << 32) * 1000 + 7000)
        .build("u".to_string(), "a".to_string(), "s:e.k".to_string())
        .unwrap();
    assert_eq!(big.register_interval_secs(), u32::MAX);
}

#[test]
fn sdk_version_string() {
    assert_eq!(sdk_version("0.1.0"), "unleash-client-rs:0.1.0");
}

#[test]
fn start_registers_unless_metrics_disabled() {
    let mut l = Lifecycle::new(false);
    assert!(!l.is_enabled());
    assert!(matches!(l.start(), LoopAction::Register));
    assert!(l.is_enabled());
    assert!(matches!(l.next_action(Phase::Registered), LoopAction::Fetch(None)));

    let mut quiet = Lifecycle::new(true);
    assert!(matches!(quiet.start(), LoopAction::Fetch(None)));
    assert!(quiet.metrics_disabled());
}

#[test]
fn loop_alternates_fetch_and_sleep() {
    let mut l = Lifecycle::new(false);
    l.start();
    assert!(matches!(l.next_action(Phase::CycleDone), LoopAction::Sleep));
    assert!(matches!(l.next_action(Phase::Woke), LoopAction::Fetch(None)));
}

#[test]
fn stop_halts_every_phase() {
    let mut l = Lifecycle::new(false);
    l.start();
    l.stop();
    assert!(!l.is_enabled());
    assert!(matches!(l.next_action(Phase::Registered), LoopAction::Halt));
    assert!(matches!(l.next_action(Phase::CycleDone), LoopAction::Halt));
    assert!(matches!(l.next_action(Phase::Woke), LoopAction::Halt));
    // a fetch that was in flight when stop came does not restart the loop
    let plan = l.on_fetch(Ok(ClientFeaturesResponse::Updated(dataset(1), None)));
    assert!(plan.dataset.is_some());
    assert!(matches!(l.next_action(Phase::CycleDone), LoopAction::Halt));
    // stopping twice is harmless
    l.stop();
    assert!(!l.is_enabled());
}

#[test]
fn repeated_not_modified_changes_nothing() {
    let mut l = Lifecycle::new(false);
    l.start();
    l.on_fetch(Ok(ClientFeaturesResponse::Updated(dataset(1), Some(EntityTag::new("t1")))));
    for _ in 0..5 {
        let plan = l.on_fetch(Ok(ClientFeaturesResponse::NoUpdate(EntityTag::new("t1"))));
        assert!(plan.dataset.is_none());
        assert!(plan.extract_metrics);
        assert_eq!(l.known_tag().unwrap().value(), "t1");
    }
}

#[test]
fn failed_fetch_keeps_tag_and_skips_metrics() {
    let mut l = Lifecycle::new(false);
    l.start();
    l.on_fetch(Ok(ClientFeaturesResponse::Updated(dataset(1), Some(EntityTag::new("t1")))));
    let plan = l.on_fetch(Err(RemoteError::Status(500)));
    assert!(plan.dataset.is_none());
    assert!(!plan.extract_metrics);
    assert_eq!(l.known_tag().unwrap().value(), "t1");
    let plan = l.on_fetch(Err(RemoteError::Transport("timeout".to_string())));
    assert!(!plan.extract_metrics);
    assert!(l.is_enabled());
}

#[test]
fn update_without_tag_clears_known_tag() {
    let mut l = Lifecycle::new(false);
    l.on_fetch(Ok(ClientFeaturesResponse::Updated(dataset(1), Some(EntityTag::new("t1")))));
    l.on_fetch(Ok(ClientFeaturesResponse::Updated(dataset(2), None)));
    assert!(l.known_tag().is_none());
}

#[test]
fn end_to_end_tags_and_datasets() {
    let mut l = Lifecycle::new(false);
    assert!(matches!(l.start(), LoopAction::Register));
    // first fetch: no tag known yet, dataset D1 with tag T1
    match l.next_action(Phase::Registered) {
        LoopAction::Fetch(t) => assert!(t.is_none()),
        _ => panic!("expected a fetch"),
    }
    let plan = l.on_fetch(Ok(ClientFeaturesResponse::Updated(dataset(1), Some(EntityTag::new("T1")))));
    assert_eq!(plan.dataset.unwrap().version, 1);
    assert!(matches!(l.next_action(Phase::CycleDone), LoopAction::Sleep));
    // second fetch sends T1 and gets "not modified"
    let sent = match l.next_action(Phase::Woke) {
        LoopAction::Fetch(t) => t.unwrap(),
        _ => panic!("expected a fetch"),
    };
    assert_eq!(sent.to_string(), "W/\"T1\"");
    let plan = l.on_fetch(Ok(ClientFeaturesResponse::NoUpdate(sent)));
    assert!(plan.dataset.is_none());
    assert_eq!(l.known_tag().unwrap().value(), "T1");
    // third fetch brings D2 with tag T2
    let plan = l.on_fetch(Ok(ClientFeaturesResponse::Updated(dataset(2), Some(EntityTag::new("T2")))));
    assert_eq!(plan.dataset.unwrap().version, 2);
    assert_eq!(l.known_tag().unwrap().value(), "T2");
}

#[test]
fn second_start_runs_no_second_loop() {
    let mut l = Lifecycle::new(false);
    assert!(matches!(l.start(), LoopAction::Register));
    assert!(matches!(l.start(), LoopAction::Halt));
    assert!(l.is_enabled());
    // the first loop goes on
    assert!(matches!(l.next_action(Phase::Registered), LoopAction::Fetch(None)));
}

#[test]
fn start_after_stop_before_loop_noticed_keeps_one_loop() {
    let mut l = Lifecycle::new(true);
    assert!(matches!(l.start(), LoopAction::Fetch(None)));
    l.stop();
    // the old loop is still active: starting again only re-enables it
    assert!(matches!(l.start(), LoopAction::Halt));
    assert!(matches!(l.next_action(Phase::CycleDone), LoopAction::Sleep));
}

#[test]
fn start_after_loop_halted_begins_again() {
    let mut l = Lifecycle::new(false);
    l.start();
    l.stop();
    assert!(matches!(l.next_action(Phase::Woke), LoopAction::Halt));
    assert!(matches!(l.start(), LoopAction::Register));
    assert!(l.is_enabled());
}

#[test]
fn metrics_sent_only_when_present_and_enabled() {
    let l = Lifecycle::new(false);
    assert!(l.should_send_metrics(true));
    assert!(!l.should_send_metrics(false));
    let quiet = Lifecycle::new(true);
    assert!(!quiet.should_send_metrics(true));
}
