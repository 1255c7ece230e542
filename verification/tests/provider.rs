use std::time::{Duration, Instant};

use net_flow::ids::matches_widget_id;
use net_flow::kinds::{TemplateKind, WidgetSize};
use net_flow::publish::{compute_payload_hash, is_publication_cadence_due, should_publish_data};
use net_flow::registry::{flyout_transition_pending, InternalWidgetInfo, WidgetConfig};

fn default_config() -> WidgetConfig<()> {
    WidgetConfig { apps_expanded: false, apps_page: 0, preferences: () }
}

#[test]
fn test_matches_widget_id() {
    assert!(matches_widget_id("123", "123"));
    assert!(matches_widget_id("ABC", "abc"));
    assert!(matches_widget_id("{123-456}", "123-456"));
    assert!(matches_widget_id("123-456", "{123-456}"));
    assert!(matches_widget_id("{ABC-DEF}", "abc-def"));
    assert!(!matches_widget_id("123", "456"));
}

#[test]
fn test_flyout_transition_lifecycle() {
    let mut widget = InternalWidgetInfo {
        id: "test-widget-1".to_string(),
        size: WidgetSize::Medium,
        is_active: true,
        template_kind: TemplateKind::Live,
        in_customization: false,
        custom_state: default_config(),
        draft_state: None,
        customization_requested_at: None,
        last_data_hash: None,
        last_data_json: None,
        last_data_published_at: None,
        force_data_publish: false,
    };

    // Step 1: OnCustomizationRequested triggers
    widget.in_customization = true;
    widget.customization_requested_at = Some(Instant::now());
    widget.draft_state = Some(default_config());

    // Step 2: Windows immediately calls Deactivate (opening transition)
    let is_opening = flyout_transition_pending(&widget.customization_requested_at);
    assert!(is_opening, "Should detect flyout opening transition");

    if !is_opening {
        widget.in_customization = false;
    }
    assert!(
        widget.in_customization,
        "in_customization must be preserved during transition"
    );

    // Step 3: Activate marks the transition complete
    widget.customization_requested_at = None;
    assert!(
        widget.in_customization,
        "Flyout must receive in_customization = true"
    );

    // Step 4: the flyout is dismissed and Deactivate fires
    let is_opening_after_dismiss = flyout_transition_pending(&widget.customization_requested_at);
    assert!(
        !is_opening_after_dismiss,
        "Dismissal is not an opening transition"
    );

    if !is_opening_after_dismiss {
        widget.in_customization = false;
        widget.draft_state = None;
        widget.customization_requested_at = None;
    }
    assert!(
        !widget.in_customization,
        "in_customization must be reset to false on dismissal"
    );
    assert!(widget.draft_state.is_none());
}

#[test]
fn test_expired_transition_resets_safely() {
    let mut widget = InternalWidgetInfo {
        id: "test-widget-2".to_string(),
        size: WidgetSize::Medium,
        is_active: true,
        template_kind: TemplateKind::Live,
        in_customization: true,
        custom_state: default_config(),
        draft_state: Some(default_config()),
        customization_requested_at: Some(Instant::now() - Duration::from_secs(5)),
        last_data_hash: None,
        last_data_json: None,
        last_data_published_at: None,
        force_data_publish: false,
    };

    let is_opening = flyout_transition_pending(&widget.customization_requested_at);
    assert!(
        !is_opening,
        "Stale transition must not be treated as opening"
    );

    if !is_opening {
        widget.in_customization = false;
        widget.draft_state = None;
        widget.customization_requested_at = None;
    }
    assert!(!widget.in_customization);
    assert!(widget.draft_state.is_none());
    assert!(widget.customization_requested_at.is_none());
}

#[test]
fn test_payload_hash_consistency() {
    let p1 = r#"{"downloadRate":"10 KB/s","uploadRate":"2 KB/s"}"#;
    let p2 = r#"{"downloadRate":"10 KB/s","uploadRate":"2 KB/s"}"#;
    let p3 = r#"{"downloadRate":"11 KB/s","uploadRate":"2 KB/s"}"#;

    assert_eq!(compute_payload_hash(p1), compute_payload_hash(p2));
    assert_ne!(compute_payload_hash(p1), compute_payload_hash(p3));
}

#[test]
fn test_should_publish_data_forced() {
    let json = r#"{"downloadRate":"0 B/s"}"#;
    let hash = compute_payload_hash(json);

    let publish = should_publish_data(
        true,
        hash,
        json,
        Some(hash),
        Some(json),
        Some(Instant::now()),
    );
    assert!(publish, "force = true must always publish");
}

#[test]
fn test_should_publish_data_skips_identical_payload() {
    let json = r#"{"downloadRate":"0 B/s","sessionText":"Session (1m)"}"#;
    let hash = compute_payload_hash(json);
    let recent = Some(Instant::now());

    let publish = should_publish_data(false, hash, json, Some(hash), Some(json), recent);
    assert!(
        !publish,
        "Identical payload within heartbeat window must be skipped"
    );
}

#[test]
fn test_should_publish_data_detects_hash_or_string_change() {
    let json1 = r#"{"downloadRate":"10 KB/s"}"#;
    let json2 = r#"{"downloadRate":"20 KB/s"}"#;
    let hash1 = compute_payload_hash(json1);
    let hash2 = compute_payload_hash(json2);
    let recent = Some(Instant::now());

    assert!(should_publish_data(
        false,
        hash2,
        json2,
        Some(hash1),
        Some(json1),
        recent
    ));

    assert!(
        should_publish_data(false, hash1, json2, Some(hash1), Some(json1), recent),
        "String mismatch must publish even if hashes were to collide"
    );
}

#[test]
fn test_should_publish_data_heartbeat() {
    let json = r#"{"downloadRate":"0 B/s"}"#;
    let hash = compute_payload_hash(json);
    let expired = Some(Instant::now() - Duration::from_secs(20));

    let publish = should_publish_data(false, hash, json, Some(hash), Some(json), expired);
    assert!(
        publish,
        "Expired heartbeat safety interval must trigger publication even if payload is identical"
    );
}

#[test]
fn test_is_publication_cadence_due() {
    let now = Instant::now();
    let interval_500ms = Duration::from_millis(500);
    let interval_1500ms = Duration::from_millis(1500);

    assert!(
        is_publication_cadence_due(true, interval_500ms, now, now),
        "force_ui must bypass cadence immediately"
    );

    let recent_gen = now - Duration::from_millis(200);
    let recent_pub = now - Duration::from_millis(200);
    assert!(
        !is_publication_cadence_due(false, interval_500ms, recent_gen, recent_pub),
        "Must wait when elapsed time is less than adaptive interval"
    );

    let past_gen = now - Duration::from_millis(505);
    assert!(
        is_publication_cadence_due(false, interval_500ms, past_gen, recent_pub),
        "Must trigger once adaptive interval has elapsed"
    );

    let idle_last_pub = now - Duration::from_millis(1200);
    let recent_idle_gen = now - Duration::from_millis(250);
    assert!(
        is_publication_cadence_due(false, interval_500ms, recent_idle_gen, idle_last_pub),
        "Traffic spike from idle must trigger immediate publication"
    );

    assert!(
        !is_publication_cadence_due(false, interval_1500ms, recent_idle_gen, idle_last_pub),
        "Steady-state idle must wait for full 1500ms cadence"
    );
}
