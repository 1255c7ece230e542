use std::collections::hash_map::DefaultHasher;
use std::hash::{Hash, Hasher};

use net_flow::activation::{activation_refusal, ActivationRefusal};
use net_flow::ids::matches_widget_id;
use net_flow::kinds::{
    widget_size_to_str, AnnouncementActionKind, AnnouncementTextColor, TemplateKind, WidgetSize,
};
use net_flow::publish::{
    compute_payload_hash, publication_cadence_decision, publish_decision,
    REDUNDANT_UPDATE_HEARTBEAT_NANOS,
};
use net_flow::settings::{
    adapter_selection, alert_sustain_secs, alert_threshold_bps, apps_expanded_field,
    chart_window_field, form_flag_text, parse_bool_field, FormValue,
};
use net_flow::toast::{alert_body, alert_title, escape_xml, toast_xml, AlertDirection};
use net_flow::tray::{
    console_event_ends_server, encode_utf16, owns_instance_mutex, tip_buffer, tooltip,
    tray_wait_millis, tray_window_action, use_local_namespace, TrayWindowAction,
};

#[test]
fn widget_size_keys_and_codes() {
    assert_eq!(widget_size_to_str(WidgetSize::Small), "Small");
    assert_eq!(widget_size_to_str(WidgetSize::Medium), "Medium");
    assert_eq!(widget_size_to_str(WidgetSize::Large), "Large");
    assert_eq!(widget_size_to_str(WidgetSize::Other(7)), "Medium");
    for c in [-1, 0, 1, 2, 3, 100] {
        assert_eq!(WidgetSize::from_code(c).code(), c);
    }
    assert_eq!(WidgetSize::from_code(2), WidgetSize::Large);
    assert_eq!(AnnouncementActionKind::from_code(1), AnnouncementActionKind::Engaged);
    assert_eq!(AnnouncementActionKind::Other(9).code(), 9);
    assert_eq!(AnnouncementTextColor::from_code(6), AnnouncementTextColor::Attention);
    assert_eq!(AnnouncementTextColor::from_code(7), AnnouncementTextColor::Other(7));
    assert_eq!(AnnouncementTextColor::Warning.code(), 5);
    assert_eq!(TemplateKind::default(), TemplateKind::Live);
}

#[test]
fn widget_ids_match_both_ways() {
    assert!(matches_widget_id("{}", ""));
    assert!(matches_widget_id("{{x}}", "X"));
    assert!(matches_widget_id("x", "{{x}}"));
    assert!(!matches_widget_id("{x", "y"));
    assert!(!matches_widget_id("é", "É"));
}

#[test]
fn payload_hash_is_stable_and_decisions_exact() {
    let h = compute_payload_hash("abc");
    assert_eq!(h, compute_payload_hash("abc"));
    assert_ne!(h, compute_payload_hash("abd"));
    assert_ne!(compute_payload_hash(""), compute_payload_hash("\u{ff}"));
    let hb = REDUNDANT_UPDATE_HEARTBEAT_NANOS;
    assert!(!publish_decision(false, h, "abc", Some(h), Some("abc"), Some(hb - 1)));
    assert!(publish_decision(false, h, "abc", Some(h), Some("abc"), Some(hb)));
    assert!(publish_decision(false, h, "abc", Some(h), Some("abc"), None));
    assert!(publish_decision(false, h, "abc", None, Some("abc"), Some(0)));
    assert!(publish_decision(false, h, "abc", Some(h), None, Some(0)));
    assert!(publish_decision(true, h, "abc", Some(h), Some("abc"), Some(0)));
    assert!(publication_cadence_decision(true, 10, 0, 0));
    assert!(!publication_cadence_decision(false, 500, 499, 499));
    assert!(publication_cadence_decision(false, 500, 500, 0));
    assert!(publication_cadence_decision(false, 500, 0, 500));
    assert!(!publication_cadence_decision(false, 1_500_000_000, 0, 1_499_999_999_999));
}

#[test]
fn settings_form_fields() {
    assert!(form_flag_text("TRUE"));
    assert!(form_flag_text("1"));
    assert!(!form_flag_text("yes"));
    assert!(!form_flag_text(" true"));
    assert_eq!(parse_bool_field(None), None);
    assert_eq!(parse_bool_field(Some(&FormValue::Bool(false))), Some(false));
    assert_eq!(parse_bool_field(Some(&FormValue::Text("True".to_string()))), Some(true));
    assert_eq!(parse_bool_field(Some(&FormValue::Text("0".to_string()))), Some(false));
    assert_eq!(parse_bool_field(Some(&FormValue::Other)), None);
    assert!(apps_expanded_field(&FormValue::Text("true".to_string())));
    assert!(!apps_expanded_field(&FormValue::Number { as_u64: Some(1), as_i64: Some(1), whole: Some(1) }));
    assert_eq!(chart_window_field(&FormValue::Text("60".to_string())), Some(60));
    assert_eq!(chart_window_field(&FormValue::Text("+60".to_string())), Some(60));
    assert_eq!(chart_window_field(&FormValue::Text("4294967296".to_string())), None);
    assert_eq!(chart_window_field(&FormValue::Text("-1".to_string())), None);
    assert_eq!(chart_window_field(&FormValue::Text("".to_string())), None);
    assert_eq!(chart_window_field(&FormValue::Text("6 0".to_string())), None);
    assert_eq!(
        chart_window_field(&FormValue::Number { as_u64: Some(4294967297), as_i64: Some(4294967297), whole: Some(4294967297) }),
        Some(1)
    );
    assert_eq!(chart_window_field(&FormValue::Number { as_u64: None, as_i64: Some(-3), whole: Some(-3) }), None);
    assert_eq!(adapter_selection(None, Some(5)), Some(5));
    assert_eq!(adapter_selection(Some("  AUTO "), Some(5)), None);
    assert_eq!(adapter_selection(Some(""), Some(5)), None);
    assert_eq!(adapter_selection(Some(" 123\t"), Some(5)), Some(123));
    assert_eq!(adapter_selection(Some("18446744073709551615"), None), Some(u64::MAX));
    assert_eq!(adapter_selection(Some("18446744073709551616"), Some(5)), Some(5));
    assert_eq!(adapter_selection(Some("abc"), Some(5)), Some(5));
    assert_eq!(alert_threshold_bps(0), 1024 * 1024);
    assert_eq!(alert_threshold_bps(5), 5 * 1024 * 1024);
    assert_eq!(alert_threshold_bps(i64::MAX), (i64::MAX as u64).wrapping_mul(1048576));
    assert_eq!(alert_sustain_secs(-4), 1);
    assert_eq!(alert_sustain_secs(30), 30);
    assert_eq!(alert_sustain_secs(4294967296 + 7), 7);
}

#[test]
fn toast_text() {
    assert_eq!(alert_title(AlertDirection::Download), "Net Flow: high Download usage");
    assert_eq!(alert_title(AlertDirection::Upload), "Net Flow: high Upload usage");
    assert_eq!(
        alert_body(AlertDirection::Upload, "2 MB/s", "1 MB/s"),
        "\u{2191} 2 MB/s has remained above 1 MB/s for the configured duration."
    );
    assert_eq!(
        toast_xml("a<b", "\"q\" & 'r'"),
        "<toast><visual><binding template=\"ToastGeneric\"><text>a&lt;b</text><text>&quot;q&quot; &amp; &apos;r&apos;</text></binding></visual></toast>"
    );
    assert_eq!(escape_xml("plain text"), "plain text");
    assert_eq!(escape_xml("<>"), "&lt;&gt;");
}

#[test]
fn tray_messages() {
    assert_eq!(tray_window_action(0x0001, 0, 0), TrayWindowAction::AttachContext);
    assert_eq!(tray_window_action(0x8001, 0, 0x0205), TrayWindowAction::ShowMenu);
    assert_eq!(tray_window_action(0x8001, 0, 0x7_0202), TrayWindowAction::RefreshTooltip);
    assert_eq!(tray_window_action(0x8001, 0, 0x0200), TrayWindowAction::Ignore);
    assert_eq!(tray_window_action(0x0113, 0x4E46, 0), TrayWindowAction::RefreshTooltip);
    assert_eq!(tray_window_action(0x0113, 1, 0), TrayWindowAction::Ignore);
    assert_eq!(tray_window_action(0x0111, 1000, 0), TrayWindowAction::OpenWidgetsBoard);
    assert_eq!(tray_window_action(0x0111, 0x1_03E9, 0), TrayWindowAction::ResetSession);
    assert_eq!(tray_window_action(0x0111, 1002, 0), TrayWindowAction::Exit);
    assert_eq!(tray_window_action(0x0111, 5, 0), TrayWindowAction::Ignore);
    assert_eq!(tray_window_action(0x0010, 0, 0), TrayWindowAction::DestroyWindow);
    assert_eq!(tray_window_action(0x0002, 0, 0), TrayWindowAction::TearDown);
    assert_eq!(tray_window_action(0x0200, 0, 0), TrayWindowAction::Default);
}

#[test]
fn tray_tooltip_buffer() {
    let units = encode_utf16("a\u{1F600}");
    assert_eq!(units, "a\u{1F600}".encode_utf16().collect::<Vec<u16>>());
    let buf = tip_buffer("Net Flow", 128);
    assert_eq!(buf.len(), 128);
    assert_eq!(&buf[..8], &"Net Flow".encode_utf16().collect::<Vec<u16>>()[..]);
    assert!(buf[8..].iter().all(|u| *u == 0));
    let long = "x".repeat(200);
    let cut = tip_buffer(&long, 128);
    assert_eq!(cut[126], u16::from(b'x'));
    assert_eq!(cut[127], 0);
    assert_eq!(tip_buffer("abc", 1), vec![0]);
    assert_eq!(
        tooltip("1 KB/s", "2 KB/s", "12 ms"),
        "Net Flow\n\u{2193} 1 KB/s  \u{2191} 2 KB/s\nLatency: 12 ms"
    );
}

#[test]
fn tray_host_decisions() {
    assert!(use_local_namespace(false, 0));
    assert!(use_local_namespace(true, 5));
    assert!(!use_local_namespace(true, 0));
    assert!(owns_instance_mutex(true, 0));
    assert!(!owns_instance_mutex(true, 183));
    assert!(!owns_instance_mutex(false, 0));
    assert_eq!(tray_wait_millis(100), 100);
    assert_eq!(tray_wait_millis(1000), 250);
    assert_eq!(tray_wait_millis((1u128 << 32) + 5), 5);
    assert!(console_event_ends_server(0));
    assert!(console_event_ends_server(2));
    assert!(!console_event_ends_server(1));
}

#[test]
fn class_factory_refusals() {
    assert_eq!(activation_refusal(true, true), Some(ActivationRefusal::NullOutPointer));
    assert_eq!(activation_refusal(false, true), Some(ActivationRefusal::AggregationUnsupported));
    assert_eq!(activation_refusal(false, false), None);
    assert_eq!(ActivationRefusal::NullOutPointer.hresult(), 0x80004003_u32 as i32);
    assert_eq!(ActivationRefusal::AggregationUnsupported.hresult(), 0x80040110_u32 as i32);
}

#[test]
fn escaped_text_has_no_markup() {
    let out = escape_xml("<a href='x' title=\"y\">");
    assert!(!out.contains('<') && !out.contains('>') && !out.contains('"') && !out.contains('\''));
    assert_eq!(out, "&lt;a href=&apos;x&apos; title=&quot;y&quot;&gt;");
}

#[test]
fn payload_hash_equals_std_string_hash() {
    for s in ["", "abc", "{\"downloadRate\":\"0 B/s\"}", "\u{1F600}\u{e9}"] {
        let mut hasher = DefaultHasher::new();
        s.hash(&mut hasher);
        assert_eq!(compute_payload_hash(s), hasher.finish());
    }
}
