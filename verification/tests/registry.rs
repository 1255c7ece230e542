use std::time::{Duration, Instant};

use net_flow::kinds::{TemplateKind, WidgetSize};
use net_flow::publish::compute_payload_hash;
use net_flow::registry::{
    deactivated_widget, idle_shutdown_decision, InternalWidgetInfo, mirrors_request, parse_verb, within_flyout_window, WidgetConfig,
    WidgetRegistry, WidgetVerb,
};

fn cfg(page: u32) -> WidgetConfig<&'static str> {
    WidgetConfig { apps_expanded: false, apps_page: page, preferences: "prefs" }
}

#[test]
fn new_registry_is_empty_and_idle_since_now() {
    let r: WidgetRegistry<&str> = WidgetRegistry::new();
    assert!(r.is_empty());
    assert_eq!(r.active_count, 0);
    assert!(!r.has_had_widgets);
    assert!(r.last_empty_at.is_some());
    assert!(!r.idle_shutdown_due());
}

#[test]
fn create_widget_keeps_stored_configuration() {
    let mut r = WidgetRegistry::new();
    let first = r.create_widget("w1", WidgetSize::Small, cfg(0));
    assert_eq!(first.apps_page, 0);
    r.widgets[0].custom_state.apps_page = 3;
    r.widgets[0].force_data_publish = false;
    let again = r.create_widget("w1", WidgetSize::Large, cfg(0));
    assert_eq!(again.apps_page, 3);
    assert_eq!(r.len(), 1);
    assert_eq!(r.widgets[0].size, WidgetSize::Large);
    assert!(r.widgets[0].force_data_publish);
    assert!(!r.widgets[0].is_active);
    assert!(r.has_had_widgets);
    assert!(r.last_empty_at.is_none());
}

#[test]
fn activate_counts_each_widget_once() {
    let mut r = WidgetRegistry::new();
    r.create_widget("{ABC-1}", WidgetSize::Medium, cfg(0));
    let t = r.activate("abc-1", WidgetSize::Large, cfg(0));
    assert_eq!(t, "{ABC-1}");
    assert_eq!(r.active_count, 1);
    let t2 = r.activate("ABC-1", WidgetSize::Small, cfg(0));
    assert_eq!(t2, "{ABC-1}");
    assert_eq!(r.active_count, 1);
    assert_eq!(r.widgets[0].size, WidgetSize::Small);
    let t3 = r.activate("other", WidgetSize::Small, cfg(9));
    assert_eq!(t3, "other");
    assert_eq!(r.active_count, 2);
    assert_eq!(r.len(), 2);
    assert_eq!(r.widgets[1].custom_state.apps_page, 9);
}

#[test]
fn deactivate_keeps_customization_during_flyout_transition() {
    let mut r = WidgetRegistry::new();
    r.activate("w", WidgetSize::Medium, cfg(0));
    let (target, size, _) = r.begin_customization("w", "w".to_string(), cfg(2), WidgetSize::Small);
    assert_eq!(target, "w");
    assert_eq!(size, WidgetSize::Medium);
    assert_eq!(r.widgets[0].template_kind, TemplateKind::Settings);
    r.deactivate("w");
    assert!(!r.widgets[0].is_active);
    assert!(r.widgets[0].in_customization);
    assert_eq!(r.active_count, 0);
    // Activation completes the transition; the next deactivation restores the live card.
    r.activate("w", WidgetSize::Medium, cfg(0));
    assert!(r.widgets[0].customization_requested_at.is_none());
    r.deactivate("w");
    assert!(!r.widgets[0].in_customization);
    assert!(r.widgets[0].draft_state.is_none());
    assert_eq!(r.widgets[0].template_kind, TemplateKind::Live);
}

#[test]
fn deactivate_after_stale_request_resets() {
    let mut r = WidgetRegistry::new();
    r.activate("w", WidgetSize::Medium, cfg(0));
    r.open_settings("w");
    r.widgets[0].customization_requested_at = Some(Instant::now() - Duration::from_secs(5));
    r.deactivate("w");
    assert!(!r.widgets[0].in_customization);
    assert!(r.widgets[0].draft_state.is_none());
}

#[test]
fn customization_of_unknown_widget_adds_it() {
    let mut r: WidgetRegistry<&str> = WidgetRegistry::new();
    assert!(r.customization_base("new").is_none());
    let (target, size, config) =
        r.begin_customization("new", "hint".to_string(), cfg(4), WidgetSize::Large);
    assert_eq!(target, "hint");
    assert_eq!(size, WidgetSize::Large);
    assert_eq!(config.apps_page, 4);
    assert_eq!(r.len(), 1);
    assert!(r.widgets[0].is_active);
    assert!(r.widgets[0].in_customization);
    assert_eq!(r.active_count, 0);
    let base = r.customization_base("NEW").unwrap();
    assert_eq!(base.0, "new");
    assert_eq!(base.1.apps_page, 4);
}

#[test]
fn actions_fall_back_to_the_only_widget() {
    let mut r = WidgetRegistry::new();
    r.create_widget("only", WidgetSize::Medium, cfg(0));
    assert_eq!(r.toggle_apps("missing"), Some("only".to_string()));
    assert!(r.widgets[0].custom_state.apps_expanded);
    r.create_widget("second", WidgetSize::Medium, cfg(0));
    assert_eq!(r.toggle_apps("missing"), None);
    assert_eq!(r.open_settings("missing"), None);
}

#[test]
fn apps_paging_saturates() {
    let mut r = WidgetRegistry::new();
    r.create_widget("w", WidgetSize::Medium, cfg(u32::MAX));
    r.widgets[0].force_data_publish = false;
    assert_eq!(r.next_apps_page("w"), Some("w".to_string()));
    assert_eq!(r.widgets[0].custom_state.apps_page, u32::MAX);
    assert!(r.widgets[0].force_data_publish);
    r.widgets[0].custom_state.apps_page = 0;
    r.prev_apps_page("w");
    assert_eq!(r.widgets[0].custom_state.apps_page, 0);
    r.next_apps_page("w");
    r.next_apps_page("w");
    r.prev_apps_page("w");
    assert_eq!(r.widgets[0].custom_state.apps_page, 1);
    r.toggle_apps("w");
    r.toggle_apps("w");
    assert!(!r.widgets[0].custom_state.apps_expanded);
    assert_eq!(r.widgets[0].custom_state.apps_page, 0);
}

#[test]
fn open_then_cancel_and_save_settings() {
    let mut r = WidgetRegistry::new();
    r.create_widget("w", WidgetSize::Medium, cfg(1));
    assert_eq!(r.open_settings("W"), Some("w".to_string()));
    assert!(r.widgets[0].in_customization);
    assert_eq!(r.widgets[0].draft_state.as_ref().unwrap().apps_page, 1);
    assert_eq!(r.cancel_settings("w"), Some("w".to_string()));
    assert!(!r.widgets[0].in_customization);
    assert!(r.widgets[0].draft_state.is_none());
    assert_eq!(r.widgets[0].template_kind, TemplateKind::Live);
    let (target, base) = r.settings_base("{w}", cfg(0));
    assert_eq!(target, "w");
    assert_eq!(base.apps_page, 1);
    assert_eq!(r.apply_saved_settings(&target, cfg(7)), Some("w".to_string()));
    assert_eq!(r.widgets[0].custom_state.apps_page, 7);
    let (none_target, none_base) = WidgetRegistry::<&str>::new().settings_base("x", cfg(5));
    assert_eq!(none_target, "x");
    assert_eq!(none_base.apps_page, 5);
}

#[test]
fn delete_widget_removes_every_match() {
    let mut r = WidgetRegistry::new();
    r.activate("{A}", WidgetSize::Medium, cfg(0));
    r.activate("b", WidgetSize::Medium, cfg(0));
    r.create_widget("a", WidgetSize::Medium, cfg(0));
    assert_eq!(r.active_count, 2);
    r.delete_widget("A");
    assert_eq!(r.len(), 1);
    assert_eq!(r.widgets[0].id, "b");
    assert_eq!(r.active_count, 1);
    assert!(r.last_empty_at.is_none());
    r.delete_widget("b");
    assert!(r.is_empty());
    assert_eq!(r.active_count, 0);
    assert!(r.last_empty_at.is_some());
    assert!(!r.idle_shutdown_due());
}

#[test]
fn change_size_targets_first_match_only() {
    let mut r = WidgetRegistry::new();
    r.create_widget("w", WidgetSize::Medium, cfg(0));
    assert_eq!(r.change_size("{W}", WidgetSize::Large), "w");
    assert_eq!(r.widgets[0].size, WidgetSize::Large);
    assert_eq!(r.change_size("other", WidgetSize::Small), "other");
    assert_eq!(r.widgets[0].size, WidgetSize::Large);
}

#[test]
fn card_target_and_publication_record() {
    let mut r = WidgetRegistry::new();
    r.activate("w", WidgetSize::Small, cfg(0));
    let t = r.card_target("{w}").unwrap();
    assert_eq!(t.actual_id, "w");
    assert!(!t.shows_settings());
    r.open_settings("w");
    assert!(r.card_target("w").unwrap().shows_settings());
    assert!(mirrors_request("w", "{w}"));
    assert!(!mirrors_request("w", "w"));
    assert!(!mirrors_request("w", ""));
    let json = "{\"downloadRate\":\"1 KB/s\"}".to_string();
    let h = compute_payload_hash(&json);
    r.record_publication("w", json.clone());
    assert_eq!(r.widgets[0].last_data_hash, Some(h));
    assert_eq!(r.widgets[0].last_data_json.as_deref(), Some(json.as_str()));
    assert!(r.widgets[0].last_data_published_at.is_some());
    assert!(!r.widgets[0].force_data_publish);
    r.record_publication("{w}", "x".to_string());
    assert_eq!(r.widgets[0].last_data_hash, Some(h));
}

#[test]
fn live_targets_follow_active_widgets() {
    let mut r = WidgetRegistry::new();
    r.activate("a", WidgetSize::Small, cfg(0));
    r.create_widget("b", WidgetSize::Small, cfg(0));
    r.activate("c", WidgetSize::Large, cfg(0));
    let json = "{}".to_string();
    let h = compute_payload_hash(&json);
    r.record_publication("a", json.clone());
    let targets = r.live_targets();
    assert_eq!(targets.len(), 2);
    assert_eq!(targets[0].id, "a");
    assert_eq!(targets[1].id, "c");
    assert!(targets[0].receives_live_data());
    assert!(!targets[0].publish_needed(false, h, &json));
    assert!(targets[0].publish_needed(true, h, &json));
    assert!(targets[1].publish_needed(false, h, &json));
    r.open_settings("c");
    assert!(!r.live_targets()[1].receives_live_data());
}

#[test]
fn restore_and_idle_shutdown() {
    let mut r = WidgetRegistry::new();
    r.restore_widget("a", WidgetSize::Small, true, cfg(0));
    r.restore_widget("b", WidgetSize::Small, false, cfg(0));
    r.finish_restore();
    assert_eq!(r.active_count, 1);
    assert!(r.has_had_widgets);
    assert!(r.last_empty_at.is_none());
    let mut e: WidgetRegistry<&str> = WidgetRegistry::new();
    e.finish_restore();
    assert!(!e.has_had_widgets);
    assert!(e.last_empty_at.is_some());
}

#[test]
fn idle_shutdown_grace_periods() {
    assert!(!idle_shutdown_decision(false, true, Some(u128::MAX)));
    assert!(!idle_shutdown_decision(true, true, None));
    assert!(!idle_shutdown_decision(true, true, Some(29_999_999_999)));
    assert!(idle_shutdown_decision(true, true, Some(30_000_000_000)));
    assert!(!idle_shutdown_decision(true, false, Some(59_999_999_999)));
    assert!(idle_shutdown_decision(true, false, Some(60_000_000_000)));
}

#[test]
fn flyout_window_is_one_and_a_half_seconds() {
    assert!(within_flyout_window(1_499_999_999));
    assert!(!within_flyout_window(1_500_000_000));
}

#[test]
fn verbs_are_read() {
    assert_eq!(parse_verb("save_settings"), WidgetVerb::SaveSettings);
    assert_eq!(parse_verb("toggle_apps"), WidgetVerb::ToggleApps);
    assert_eq!(parse_verb("next_apps_page"), WidgetVerb::NextAppsPage);
    assert_eq!(parse_verb("prev_apps_page"), WidgetVerb::PrevAppsPage);
    assert_eq!(parse_verb("reset_session"), WidgetVerb::ResetSession);
    assert_eq!(parse_verb("open_settings"), WidgetVerb::OpenSettings);
    for v in ["cancel_settings", "cancel", "exit", "exitCustomization", "dismiss"] {
        assert_eq!(parse_verb(v), WidgetVerb::CancelSettings);
    }
    assert_eq!(parse_verb("Save_Settings"), WidgetVerb::Unknown);
    assert_eq!(parse_verb(""), WidgetVerb::Unknown);
}

#[test]
fn force_data_push_marks_target() {
    let mut r = WidgetRegistry::new();
    r.create_widget("w", WidgetSize::Small, cfg(0));
    r.widgets[0].force_data_publish = false;
    assert_eq!(r.force_data_push("{W}"), Some("w".to_string()));
    assert!(r.widgets[0].force_data_publish);
}

#[test]
fn deleted_id_matches_nothing_afterwards() {
    let mut r = WidgetRegistry::new();
    r.create_widget("{A}", WidgetSize::Medium, cfg(0));
    r.create_widget("b", WidgetSize::Medium, cfg(0));
    r.delete_widget("a");
    assert_eq!(r.change_size("a", WidgetSize::Large), "a");
    assert_eq!(r.widgets[0].size, WidgetSize::Medium);
    assert!(r.customization_base("{a}").is_none());
}

fn widget_in_customization() -> InternalWidgetInfo<&'static str> {
    InternalWidgetInfo {
        id: "w".to_string(),
        size: WidgetSize::Medium,
        is_active: true,
        in_customization: true,
        template_kind: TemplateKind::Settings,
        custom_state: cfg(2),
        draft_state: Some(cfg(0)),
        customization_requested_at: Some(Instant::now()),
        last_data_hash: None,
        last_data_json: None,
        last_data_published_at: None,
        force_data_publish: false,
    }
}

#[test]
fn deactivation_within_window_keeps_settings() {
    let w = deactivated_widget(widget_in_customization(), Some(1_000_000_000));
    assert!(!w.is_active);
    assert!(w.in_customization);
    assert_eq!(w.template_kind, TemplateKind::Settings);
    assert!(w.draft_state.is_some());
    assert!(w.customization_requested_at.is_some());
}

#[test]
fn stale_or_absent_request_restores_live_card() {
    for since in [Some(1_500_000_000u128), Some(5_000_000_000u128), None] {
        let w = deactivated_widget(widget_in_customization(), since);
        assert!(!w.is_active);
        assert!(!w.in_customization);
        assert_eq!(w.template_kind, TemplateKind::Live);
        assert!(w.draft_state.is_none());
        assert!(w.customization_requested_at.is_none());
        assert_eq!(w.custom_state.apps_page, 2);
    }
}

#[test]
fn recorded_hash_is_that_of_the_payload() {
    let mut r = WidgetRegistry::new();
    r.activate("w", WidgetSize::Small, cfg(0));
    let json = "{\"uploadRate\":\"2 KB/s\"}".to_string();
    r.record_publication("w", json.clone());
    assert_eq!(r.widgets[0].last_data_hash, Some(compute_payload_hash(&json)));
    assert_ne!(r.widgets[0].last_data_hash, Some(compute_payload_hash("{}")));
}

#[test]
fn round_publishes_only_when_due_and_live() {
    let mut r = WidgetRegistry::new();
    r.activate("a", WidgetSize::Small, cfg(0));
    let json = "{}".to_string();
    let t = &r.live_targets()[0];
    assert!(t.publishes_in_round(true, false, &json));
    assert!(!t.publishes_in_round(false, true, &json));
    r.record_publication("a", json.clone());
    let t = &r.live_targets()[0];
    assert!(!t.publishes_in_round(true, false, &json));
    assert!(t.publishes_in_round(true, true, &json));
    assert!(t.publishes_in_round(true, false, "{\"x\":1}"));
    r.open_settings("a");
    assert!(!r.live_targets()[0].publishes_in_round(true, true, &json));
}
