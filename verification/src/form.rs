//! Reading the settings form a widget card submits: the JSON text is read into
//! its fields, and what each setting becomes is decided from them.
use vstd::prelude::*;

use crate::settings::{
    adapter_choice, adapter_selection, alert_sustain_secs, alert_threshold_bps, apps_expanded_field,
    apps_flag, bool_field, chart_window_field, chart_window_request, parse_bool_field,
    sustain_secs, threshold_bps, trim_chars, trimmed_ws, FormInput, FormValue,
};
use crate::text::string_of;

verus! {

/// The fields of a JSON object as mathematical values: names and text as
/// their characters.
pub open spec fn fields_view(fields: Seq<(String, FormValue)>) -> Seq<(Seq<char>, FormInput)> {
    fields.map_values(|p: (String, FormValue)| (p.0@, p.1@))
}

/// What `read_form_fields` reads from the form text `data`.
pub uninterp spec fn form_fields(data: Seq<char>) -> Option<Seq<(Seq<char>, FormInput)>>;

/// Calls `serde_json::from_str` on the submitted form text and gives the
/// fields of the JSON object it holds, each value converted to a `FormValue`
/// (a number through `Number::as_u64`, `Number::as_i64` and `Number::as_f64`
/// cast to a whole number); no fields when the text is JSON but not an
/// object, `None` when it is not JSON. The contract names the result and
/// claims nothing more of it.
#[verifier::external_body]
fn read_form_fields(data_json: &str) -> (r: Option<Vec<(String, FormValue)>>)
    ensures
        match r {
            Some(v) => form_fields(data_json@) == Some(fields_view(v@)),
            None => form_fields(data_json@) is None,
        },
{
    let map = match serde_json::from_str::<serde_json::Value>(data_json) {
        Ok(serde_json::Value::Object(map)) => map,
        Ok(_) => return Some(Vec::new()),
        Err(_) => return None,
    };
    Some(map.into_iter().map(|(k, v)| (k, match v {
        serde_json::Value::Bool(b) => FormValue::Bool(b),
        serde_json::Value::String(t) => FormValue::Text(t),
        serde_json::Value::Number(n) => FormValue::Number {
            as_u64: n.as_u64(), as_i64: n.as_i64(), whole: n.as_f64().map(|f| f as i64) },
        _ => FormValue::Other,
    })).collect())
}

/// The value of the first field named `key`, if any.
pub open spec fn field_named(fields: Seq<(Seq<char>, FormInput)>, key: Seq<char>) -> Option<FormInput>
    decreases fields.len(),
{
    if fields.len() == 0 {
        None
    } else if fields[0].0 == key {
        Some(fields[0].1)
    } else {
        field_named(fields.drop_first(), key)
    }
}

/// Past fields with another name, the first field named `key` is that of the
/// rest.
proof fn lemma_field_named_skip(fields: Seq<(Seq<char>, FormInput)>, key: Seq<char>, i: int)
    requires
        0 <= i <= fields.len(),
        forall|j: int| 0 <= j < i ==> fields[j].0 != key,
    ensures
        field_named(fields, key) == field_named(fields.skip(i), key),
    decreases i,
{
    if i > 0 {
        assert(fields.drop_first().skip(i - 1) =~= fields.skip(i));
        assert forall|j: int| 0 <= j < i - 1 implies fields.drop_first()[j].0 != key by {
            assert(fields.drop_first()[j] == fields[j + 1]);
        }
        assert(fields[0].0 != key);
        lemma_field_named_skip(fields.drop_first(), key, i - 1);
    } else {
        assert(fields.skip(0) =~= fields);
    }
}

/// The value of the first field named `key`, if any.
fn field_value<'a>(fields: &'a Vec<(String, FormValue)>, key: &str) -> (r: Option<&'a FormValue>)
    ensures
        match r {
            Some(v) => field_named(fields_view(fields@), key@) == Some(v@),
            None => field_named(fields_view(fields@), key@) is None,
        },
{
    let ghost fs = fields_view(fields@);
    let mut i: usize = 0;
    while i < fields.len()
        invariant
            i <= fields@.len(),
            fs == fields_view(fields@),
            forall|j: int| 0 <= j < i ==> fs[j].0 != key@,
        decreases fields@.len() - i,
    {
        if crate::text::str_eq(fields[i].0.as_str(), key) {
            proof {
                lemma_field_named_skip(fs, key@, i as int);
                assert(fs.skip(i as int)[0] == fs[i as int]);
            }
            return Some(&fields[i].1);
        }
        i = i + 1;
    }
    proof {
        lemma_field_named_skip(fs, key@, i as int);
    }
    None
}

/// The text of a field that holds a JSON string.
pub open spec fn text_of(value: Option<FormInput>) -> Option<Seq<char>> {
    match value {
        Some(FormInput::Text(s)) => Some(s),
        _ => None,
    }
}

/// The characters of an optional string.
pub open spec fn opt_chars(s: Option<String>) -> Option<Seq<char>> {
    match s {
        Some(t) => Some(t@),
        None => None,
    }
}

/// Reads a field that is expected to hold text.
fn text_field(value: Option<&FormValue>) -> (r: Option<String>)
    ensures
        opt_chars(r) == text_of(
            match value {
                Some(v) => Some(v@),
                None => None,
            },
        ),
{
    match value {
        Some(FormValue::Text(s)) => Some(s.clone()),
        _ => None,
    }
}

/// The whole number a numeric form field that holds a JSON number gives: a
/// signed 64-bit integer as it is, any other number as its floating-point
/// value cast to a whole number; nothing for any other value or a missing
/// field.
pub open spec fn number_field(value: Option<FormInput>) -> Option<i64> {
    match value {
        Some(FormInput::Number { as_i64: Some(n), .. }) => Some(n),
        Some(FormInput::Number { whole, .. }) => whole,
        _ => None,
    }
}

/// Reads a numeric input that arrived as a JSON number.
pub fn parse_number_field(value: Option<&FormValue>) -> (r: Option<i64>)
    ensures
        r == number_field(
            match value {
                Some(v) => Some(v@),
                None => None,
            },
        ),
{
    match value {
        Some(FormValue::Number { as_i64: Some(n), .. }) => Some(*n),
        Some(FormValue::Number { whole, .. }) => *whole,
        _ => None,
    }
}

/// The text of a numeric form field that arrived as text, without the white
/// space around it: the caller reads it as a floating-point number.
pub open spec fn numeric_text(value: Option<FormInput>) -> Option<Seq<char>> {
    match text_of(value) {
        Some(s) => Some(trimmed_ws(s)),
        None => None,
    }
}

/// Reads the text of a numeric input that arrived as text, trimmed.
fn numeric_text_field(value: Option<&FormValue>) -> (r: Option<String>)
    ensures
        opt_chars(r) == numeric_text(
            match value {
                Some(v) => Some(v@),
                None => None,
            },
        ),
{
    match value {
        Some(FormValue::Text(s)) => {
            let t = trim_chars(s.as_str());
            Some(string_of(&t))
        },
        _ => None,
    }
}

/// What a submitted settings form gives. The speed unit, theme and graph
/// style are the texts submitted, for the caller to map onto its own kinds;
/// the chart window is the size asked for, before it is clamped; an alert
/// threshold or sustain time that arrived as text is that text, trimmed, for
/// the caller to read as a floating-point number and hand to
/// `alert_threshold_bps` or `alert_sustain_secs`; every other setting is as
/// it is saved. A field left `None` keeps its current value.
pub struct FormSettings {
    pub speed_unit: Option<String>,
    pub chart_window: Option<u32>,
    pub apps_expanded: Option<bool>,
    pub apps_page: u32,
    pub theme: Option<String>,
    pub graph_style: Option<String>,
    pub selected_adapter: Option<u64>,
    pub alerts_enabled: Option<bool>,
    pub alert_threshold_bps: Option<u64>,
    pub alert_threshold_text: Option<String>,
    pub alert_sustain_secs: Option<u32>,
    pub alert_sustain_text: Option<String>,
}

/// What a settings form submission does to a widget's configuration.
pub enum SettingsFormUpdate {
    /// The form is empty or not JSON: the configuration stays as it is.
    KeepCurrent,
    /// The configuration takes the settings read from the form.
    Apply(FormSettings),
}

/// `u` is what the form fields `fields` give, for a widget whose adapter
/// selection is `current_adapter`: each setting read from its field, and the
/// apps list back on its first page.
pub open spec fn form_settings_from(
    fields: Seq<(Seq<char>, FormInput)>,
    current_adapter: Option<u64>,
    u: FormSettings,
) -> bool {
    &&& opt_chars(u.speed_unit) == text_of(field_named(fields, "speed_unit"@))
    &&& u.chart_window == match field_named(fields, "chart_window"@) {
        Some(v) => chart_window_request(v),
        None => None,
    }
    &&& u.apps_expanded == match field_named(fields, "apps_expanded"@) {
        Some(v) => Some(apps_flag(v)),
        None => None,
    }
    &&& u.apps_page == 0
    &&& opt_chars(u.theme) == text_of(field_named(fields, "theme"@))
    &&& opt_chars(u.graph_style) == text_of(field_named(fields, "graph_style"@))
    &&& u.selected_adapter == adapter_choice(
        text_of(field_named(fields, "adapter_luid"@)),
        current_adapter,
    )
    &&& u.alerts_enabled == bool_field(field_named(fields, "alerts_enabled"@))
    &&& u.alert_threshold_bps == match number_field(field_named(fields, "alert_threshold_mbps"@)) {
        Some(m) => Some(threshold_bps(m)),
        None => None,
    }
    &&& opt_chars(u.alert_threshold_text) == numeric_text(
        field_named(fields, "alert_threshold_mbps"@),
    )
    &&& u.alert_sustain_secs == match number_field(field_named(fields, "alert_sustain_secs"@)) {
        Some(s) => Some(sustain_secs(s)),
        None => None,
    }
    &&& opt_chars(u.alert_sustain_text) == numeric_text(field_named(fields, "alert_sustain_secs"@))
}

/// Each setting a form gives is read from its own field alone: two forms
/// whose fields of that name agree give the same setting, whatever their other
/// fields hold. The apps list always goes back to its first page.
pub proof fn lemma_each_setting_reads_its_own_field(
    f1: Seq<(Seq<char>, FormInput)>,
    f2: Seq<(Seq<char>, FormInput)>,
    current_adapter: Option<u64>,
    u1: FormSettings,
    u2: FormSettings,
)
    requires
        form_settings_from(f1, current_adapter, u1),
        form_settings_from(f2, current_adapter, u2),
    ensures
        field_named(f1, "speed_unit"@) == field_named(f2, "speed_unit"@) ==> opt_chars(
            u1.speed_unit,
        ) == opt_chars(u2.speed_unit),
        field_named(f1, "chart_window"@) == field_named(f2, "chart_window"@) ==> u1.chart_window
            == u2.chart_window,
        field_named(f1, "apps_expanded"@) == field_named(f2, "apps_expanded"@) ==> u1.apps_expanded
            == u2.apps_expanded,
        field_named(f1, "theme"@) == field_named(f2, "theme"@) ==> opt_chars(u1.theme) == opt_chars(
            u2.theme,
        ),
        field_named(f1, "graph_style"@) == field_named(f2, "graph_style"@) ==> opt_chars(
            u1.graph_style,
        ) == opt_chars(u2.graph_style),
        field_named(f1, "adapter_luid"@) == field_named(f2, "adapter_luid"@) ==> u1.selected_adapter
            == u2.selected_adapter,
        field_named(f1, "alerts_enabled"@) == field_named(f2, "alerts_enabled"@)
            ==> u1.alerts_enabled == u2.alerts_enabled,
        field_named(f1, "alert_threshold_mbps"@) == field_named(f2, "alert_threshold_mbps"@) ==> {
            &&& u1.alert_threshold_bps == u2.alert_threshold_bps
            &&& opt_chars(u1.alert_threshold_text) == opt_chars(u2.alert_threshold_text)
        },
        field_named(f1, "alert_sustain_secs"@) == field_named(f2, "alert_sustain_secs"@) ==> {
            &&& u1.alert_sustain_secs == u2.alert_sustain_secs
            &&& opt_chars(u1.alert_sustain_text) == opt_chars(u2.alert_sustain_text)
        },
        u1.apps_page == 0 && u2.apps_page == 0,
{
}

/// What the alert fields of a form give: a field that holds a whole JSON
/// number gives its reading (at least 1 MiB/s, or at least 1 s) and no text; a
/// field that holds text gives that text without the white space around it,
/// for reading as a floating-point number, and no reading; a missing field
/// gives neither, so the current setting stays. The threshold comes from
/// `alert_threshold_mbps` and the sustain time from `alert_sustain_secs`.
pub proof fn lemma_alert_fields(
    fields: Seq<(Seq<char>, FormInput)>,
    current_adapter: Option<u64>,
    u: FormSettings,
)
    requires
        form_settings_from(fields, current_adapter, u),
    ensures
        field_named(fields, "alert_threshold_mbps"@) matches Some(FormInput::Text(t)) ==> opt_chars(
            u.alert_threshold_text,
        ) == Some(trimmed_ws(t)) && u.alert_threshold_bps is None,
        field_named(fields, "alert_threshold_mbps"@) matches Some(
            FormInput::Number { as_i64: Some(n), .. },
        ) ==> u.alert_threshold_bps == Some(
            (((if n < 1 {
                1
            } else {
                n as int
            }) * 1048576) % 0x1_0000_0000_0000_0000) as u64,
        ) && u.alert_threshold_text is None,
        field_named(fields, "alert_threshold_mbps"@) is None ==> u.alert_threshold_bps is None
            && u.alert_threshold_text is None,
        field_named(fields, "alert_sustain_secs"@) matches Some(FormInput::Text(t)) ==> opt_chars(
            u.alert_sustain_text,
        ) == Some(trimmed_ws(t)) && u.alert_sustain_secs is None,
        field_named(fields, "alert_sustain_secs"@) matches Some(
            FormInput::Number { as_i64: Some(n), .. },
        ) ==> u.alert_sustain_secs == Some((if n < 1 {
            1
        } else {
            n
        }) as u32) && u.alert_sustain_text is None,
        field_named(fields, "alert_sustain_secs"@) is None ==> u.alert_sustain_secs is None
            && u.alert_sustain_text is None,
{
}

/// Reads the settings form submitted with the `save_settings` action, for a
/// widget whose adapter selection is `current_adapter`: empty text, or text
/// that is not JSON, keeps the current configuration; otherwise each setting
/// is read from its field and the apps list goes back to its first page.
pub fn settings_form_update(data_json: &str, current_adapter: Option<u64>) -> (r: SettingsFormUpdate)
    ensures
        data_json@.len() == 0 ==> r is KeepCurrent,
        data_json@.len() > 0 ==> match form_fields(data_json@) {
            None => r is KeepCurrent,
            Some(fs) => r matches SettingsFormUpdate::Apply(u) && form_settings_from(
                fs,
                current_adapter,
                u,
            ),
        },
{
    if data_json.is_empty() {
        return SettingsFormUpdate::KeepCurrent;
    }
    let fields = match read_form_fields(data_json) {
        Some(f) => f,
        None => return SettingsFormUpdate::KeepCurrent,
    };
    let chart_window = match field_value(&fields, "chart_window") {
        Some(v) => chart_window_field(v),
        None => None,
    };
    let apps_expanded = match field_value(&fields, "apps_expanded") {
        Some(v) => Some(apps_expanded_field(v)),
        None => None,
    };
    let adapter_text = text_field(field_value(&fields, "adapter_luid"));
    let selected_adapter = match &adapter_text {
        Some(t) => adapter_selection(Some(t.as_str()), current_adapter),
        None => adapter_selection(None, current_adapter),
    };
    let alert_threshold_bps = match parse_number_field(field_value(&fields, "alert_threshold_mbps")) {
        Some(m) => Some(alert_threshold_bps(m)),
        None => None,
    };
    let alert_sustain_secs = match parse_number_field(field_value(&fields, "alert_sustain_secs")) {
        Some(s) => Some(alert_sustain_secs(s)),
        None => None,
    };
    SettingsFormUpdate::Apply(
        FormSettings {
            speed_unit: text_field(field_value(&fields, "speed_unit")),
            chart_window,
            apps_expanded,
            apps_page: 0,
            theme: text_field(field_value(&fields, "theme")),
            graph_style: text_field(field_value(&fields, "graph_style")),
            selected_adapter,
            alerts_enabled: parse_bool_field(field_value(&fields, "alerts_enabled")),
            alert_threshold_bps,
            alert_threshold_text: numeric_text_field(field_value(&fields, "alert_threshold_mbps")),
            alert_sustain_secs,
            alert_sustain_text: numeric_text_field(field_value(&fields, "alert_sustain_secs")),
        },
    )
}

} // verus!
