use net_flow::form::{parse_number_field, settings_form_update, SettingsFormUpdate};
use net_flow::settings::FormValue;

fn applied(data: &str, current: Option<u64>) -> net_flow::form::FormSettings {
    match settings_form_update(data, current) {
        SettingsFormUpdate::Apply(f) => f,
        SettingsFormUpdate::KeepCurrent => panic!("form was not applied"),
    }
}

#[test]
fn empty_or_invalid_form_keeps_configuration() {
    assert!(matches!(settings_form_update("", Some(7)), SettingsFormUpdate::KeepCurrent));
    assert!(matches!(settings_form_update("{not json", Some(7)), SettingsFormUpdate::KeepCurrent));
}

#[test]
fn non_object_form_changes_only_the_apps_page() {
    let f = applied("[1, 2]", Some(7));
    assert_eq!(f.apps_page, 0);
    assert!(f.speed_unit.is_none());
    assert!(f.chart_window.is_none());
    assert!(f.apps_expanded.is_none());
    assert_eq!(f.selected_adapter, Some(7));
    assert!(f.alerts_enabled.is_none());
    assert!(f.alert_threshold_bps.is_none());
    assert!(f.alert_sustain_secs.is_none());
}

#[test]
fn form_fields_are_read() {
    let f = applied(
        r#"{"speed_unit":"bits","chart_window":"90","apps_expanded":"TRUE","theme":"dark",
            "graph_style":"bars","adapter_luid":" 42 ","alerts_enabled":"0",
            "alert_threshold_mbps":5,"alert_sustain_secs":2.9}"#,
        None,
    );
    assert_eq!(f.speed_unit.as_deref(), Some("bits"));
    assert_eq!(f.chart_window, Some(90));
    assert_eq!(f.apps_expanded, Some(true));
    assert_eq!(f.apps_page, 0);
    assert_eq!(f.theme.as_deref(), Some("dark"));
    assert_eq!(f.graph_style.as_deref(), Some("bars"));
    assert_eq!(f.selected_adapter, Some(42));
    assert_eq!(f.alerts_enabled, Some(false));
    assert_eq!(f.alert_threshold_bps, Some(5 * 1024 * 1024));
    assert!(f.alert_threshold_text.is_none());
    assert_eq!(f.alert_sustain_secs, Some(2));
}

#[test]
fn numeric_text_and_odd_values() {
    let f = applied(
        r#"{"adapter_luid":"Auto","alert_threshold_mbps":" 12.5 ","alert_sustain_secs":-4,
            "chart_window":true,"apps_expanded":3,"speed_unit":1}"#,
        Some(9),
    );
    assert_eq!(f.selected_adapter, None);
    assert!(f.alert_threshold_bps.is_none());
    assert_eq!(f.alert_threshold_text.as_deref(), Some("12.5"));
    assert_eq!(f.alert_sustain_secs, Some(1));
    assert!(f.chart_window.is_none());
    assert_eq!(f.apps_expanded, Some(false));
    assert!(f.speed_unit.is_none());
    let g = applied(r#"{"adapter_luid":"eth0"}"#, Some(9));
    assert_eq!(g.selected_adapter, Some(9));
}

#[test]
fn number_field_reads_whole_numbers() {
    let n = FormValue::Number { as_u64: None, as_i64: None, whole: Some(3) };
    assert_eq!(parse_number_field(Some(&n)), Some(3));
    let m = FormValue::Number { as_u64: Some(8), as_i64: Some(8), whole: Some(8) };
    assert_eq!(parse_number_field(Some(&m)), Some(8));
    assert_eq!(parse_number_field(Some(&FormValue::Text("4".to_string()))), None);
    assert_eq!(parse_number_field(None), None);
}
