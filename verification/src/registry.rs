//! The board's widget registry: which widgets the provider knows, their
//! customization state and what was last published to each.
//!
//! Each handler here makes the decisions of one provider callback and changes
//! the registry accordingly; what goes out to the widget host (cards, data,
//! waking the sampling worker) is left to the caller, which acts on what the
//! handler returns.
use std::time::Instant;
use vstd::prelude::*;
use vstd::string::StringExecFns;
use vstd::pervasive::VecAdditionalExecFns;

use crate::clock::{elapsed_nanos, now};
use crate::ids::{matches_widget_id, widget_ids_match};
use crate::kinds::{TemplateKind, WidgetSize};
use crate::publish::{compute_payload_hash, payload_hash};
use crate::text::str_eq;

verus! {

/// Per-widget settings. The registry reads and changes the apps list state
/// itself; every other preference is carried along as `preferences`.
pub struct WidgetConfig<P> {
    pub apps_expanded: bool,
    pub apps_page: u32,
    pub preferences: P,
}

/// `b` is a copy of `a`: the apps list state is equal and the preferences are a
/// clone.
pub open spec fn config_copy<P: Clone>(a: WidgetConfig<P>, b: WidgetConfig<P>) -> bool {
    a.apps_expanded == b.apps_expanded && a.apps_page == b.apps_page && cloned(
        a.preferences,
        b.preferences,
    )
}

impl<P: Clone> Clone for WidgetConfig<P> {
    fn clone(&self) -> (r: Self)
        ensures
            config_copy(*self, r),
    {
        WidgetConfig {
            apps_expanded: self.apps_expanded,
            apps_page: self.apps_page,
            preferences: self.preferences.clone(),
        }
    }
}

/// What the provider tracks of each widget instance on the board.
pub struct InternalWidgetInfo<P> {
    pub id: String,
    pub size: WidgetSize,
    pub is_active: bool,
    pub in_customization: bool,
    pub template_kind: TemplateKind,
    pub custom_state: WidgetConfig<P>,
    pub draft_state: Option<WidgetConfig<P>>,
    pub customization_requested_at: Option<Instant>,
    pub last_data_hash: Option<u64>,
    pub last_data_json: Option<String>,
    pub last_data_published_at: Option<Instant>,
    pub force_data_publish: bool,
}

/// What a widget records of its last publication hangs together: the stored
/// hash is the hash of the stored payload, and a payload is stored exactly
/// when its publication time is.
pub open spec fn publication_consistent<P>(w: InternalWidgetInfo<P>) -> bool {
    &&& w.last_data_hash == match w.last_data_json {
        Some(j) => Some(payload_hash(j@)),
        None => None,
    }
    &&& (w.last_data_json is Some) == (w.last_data_published_at is Some)
}

/// No two widgets in the registry have the same id.
pub open spec fn ids_unique<P>(ws: Seq<InternalWidgetInfo<P>>) -> bool {
    forall|i: int, j: int| 0 <= i < j < ws.len() ==> ws[i].id@ != ws[j].id@
}

/// Index of the first widget whose id matches `id` (see `widget_ids_match`),
/// or the number of widgets when none does.
pub open spec fn first_match<P>(ws: Seq<InternalWidgetInfo<P>>, id: Seq<char>) -> int
    decreases ws.len(),
{
    if ws.len() == 0 {
        0
    } else if widget_ids_match(ws[0].id@, id) {
        0
    } else {
        1 + first_match(ws.drop_first(), id)
    }
}

/// Index of the widget whose id is exactly `id`, or the number of widgets when
/// there is none.
pub open spec fn key_index<P>(ws: Seq<InternalWidgetInfo<P>>, id: Seq<char>) -> int
    decreases ws.len(),
{
    if ws.len() == 0 {
        0
    } else if ws[0].id@ == id {
        0
    } else {
        1 + key_index(ws.drop_first(), id)
    }
}

/// The widget a request for `id` lands on: the first whose id matches, or else
/// the only widget when there is exactly one.
pub open spec fn resolve_target<P>(ws: Seq<InternalWidgetInfo<P>>, id: Seq<char>) -> Option<int> {
    let i = first_match(ws, id);
    if i < ws.len() {
        Some(i)
    } else if ws.len() == 1 {
        Some(0)
    } else {
        None
    }
}

/// `first_match` is the first index whose id matches.
pub proof fn lemma_first_match<P>(ws: Seq<InternalWidgetInfo<P>>, id: Seq<char>)
    ensures
        0 <= first_match(ws, id) <= ws.len(),
        first_match(ws, id) < ws.len() ==> widget_ids_match(ws[first_match(ws, id)].id@, id),
        forall|j: int| 0 <= j < first_match(ws, id) ==> !widget_ids_match(ws[j].id@, id),
    decreases ws.len(),
{
    if ws.len() > 0 && !widget_ids_match(ws[0].id@, id) {
        lemma_first_match(ws.drop_first(), id);
        assert forall|j: int| 0 <= j < first_match(ws, id) implies !widget_ids_match(
            ws[j].id@,
            id,
        ) by {
            if j > 0 {
                assert(ws[j] == ws.drop_first()[j - 1]);
            }
        }
    }
}

/// An index with no match before it and a match at it (or the end) is
/// `first_match`.
pub proof fn lemma_first_match_at<P>(ws: Seq<InternalWidgetInfo<P>>, id: Seq<char>, i: int)
    requires
        0 <= i <= ws.len(),
        forall|j: int| 0 <= j < i ==> !widget_ids_match(ws[j].id@, id),
        i < ws.len() ==> widget_ids_match(ws[i].id@, id),
    ensures
        first_match(ws, id) == i,
    decreases i,
{
    if i > 0 {
        assert forall|j: int| 0 <= j < i - 1 implies !widget_ids_match(
            ws.drop_first()[j].id@,
            id,
        ) by {
            assert(ws.drop_first()[j] == ws[j + 1]);
        }
        lemma_first_match_at(ws.drop_first(), id, i - 1);
    }
}

/// `key_index` is the index of the widget with that id, if any.
pub proof fn lemma_key_index<P>(ws: Seq<InternalWidgetInfo<P>>, id: Seq<char>)
    ensures
        0 <= key_index(ws, id) <= ws.len(),
        key_index(ws, id) < ws.len() ==> ws[key_index(ws, id)].id@ == id,
        forall|j: int| 0 <= j < key_index(ws, id) ==> ws[j].id@ != id,
    decreases ws.len(),
{
    if ws.len() > 0 && ws[0].id@ != id {
        lemma_key_index(ws.drop_first(), id);
        assert forall|j: int| 0 <= j < key_index(ws, id) implies ws[j].id@ != id by {
            if j > 0 {
                assert(ws[j] == ws.drop_first()[j - 1]);
            }
        }
    }
}

/// An index with no such id before it and that id at it (or the end) is
/// `key_index`.
pub proof fn lemma_key_index_at<P>(ws: Seq<InternalWidgetInfo<P>>, id: Seq<char>, i: int)
    requires
        0 <= i <= ws.len(),
        forall|j: int| 0 <= j < i ==> ws[j].id@ != id,
        i < ws.len() ==> ws[i].id@ == id,
    ensures
        key_index(ws, id) == i,
    decreases i,
{
    if i > 0 {
        assert forall|j: int| 0 <= j < i - 1 implies ws.drop_first()[j].id@ != id by {
            assert(ws.drop_first()[j] == ws[j + 1]);
        }
        lemma_key_index_at(ws.drop_first(), id, i - 1);
    }
}

/// Index of the first widget whose id matches `id`, or the number of widgets.
fn find_match<P>(ws: &Vec<InternalWidgetInfo<P>>, id: &str) -> (r: usize)
    ensures
        r == first_match(ws@, id@),
{
    let mut i: usize = 0;
    while i < ws.len()
        invariant
            i <= ws@.len(),
            forall|j: int| 0 <= j < i ==> !widget_ids_match(ws@[j].id@, id@),
        decreases ws@.len() - i,
    {
        if matches_widget_id(ws[i].id.as_str(), id) {
            proof {
                lemma_first_match_at(ws@, id@, i as int);
            }
            return i;
        }
        i = i + 1;
    }
    proof {
        lemma_first_match_at(ws@, id@, i as int);
    }
    i
}

/// Index of the widget whose id is exactly `id`, or the number of widgets.
fn find_key<P>(ws: &Vec<InternalWidgetInfo<P>>, id: &str) -> (r: usize)
    ensures
        r == key_index(ws@, id@),
{
    let mut i: usize = 0;
    while i < ws.len()
        invariant
            i <= ws@.len(),
            forall|j: int| 0 <= j < i ==> ws@[j].id@ != id@,
        decreases ws@.len() - i,
    {
        if str_eq(ws[i].id.as_str(), id) {
            proof {
                lemma_key_index_at(ws@, id@, i as int);
            }
            return i;
        }
        i = i + 1;
    }
    proof {
        lemma_key_index_at(ws@, id@, i as int);
    }
    i
}

/// Everything the provider tracks across the widgets of the board.
pub struct WidgetRegistry<P> {
    pub widgets: Vec<InternalWidgetInfo<P>>,
    pub active_count: usize,
    pub has_had_widgets: bool,
    pub last_empty_at: Option<Instant>,
}

/// The fields of a widget as a handler leaves it, apart from its configuration:
/// id, size, activity, customization state, nothing published yet, and the
/// next data push forced.
pub open spec fn fresh_widget<P>(
    w: InternalWidgetInfo<P>,
    id: Seq<char>,
    size: WidgetSize,
    is_active: bool,
    in_customization: bool,
    template_kind: TemplateKind,
) -> bool {
    &&& w.id@ == id
    &&& w.size == size
    &&& w.is_active == is_active
    &&& w.in_customization == in_customization
    &&& w.template_kind == template_kind
    &&& w.last_data_hash is None
    &&& w.last_data_json is None
    &&& w.last_data_published_at is None
    &&& w.force_data_publish
}

/// `ws2` is `ws` with the widget at `i` replaced.
pub open spec fn replaced_at<P>(
    ws: Seq<InternalWidgetInfo<P>>,
    ws2: Seq<InternalWidgetInfo<P>>,
    i: int,
) -> bool {
    ws2.len() == ws.len() && forall|j: int| 0 <= j < ws.len() && j != i ==> ws2[j] == ws[j]
}

/// `ws2` is `ws` with one widget added at its end.
pub open spec fn appended<P>(ws: Seq<InternalWidgetInfo<P>>, ws2: Seq<InternalWidgetInfo<P>>) -> bool {
    ws2.len() == ws.len() + 1 && forall|j: int| 0 <= j < ws.len() ==> ws2[j] == ws[j]
}

/// A widget once it is activated with the given size.
pub open spec fn activated<P>(w: InternalWidgetInfo<P>, size: WidgetSize) -> InternalWidgetInfo<P> {
    InternalWidgetInfo {
        is_active: true,
        size,
        customization_requested_at: None,
        force_data_publish: true,
        ..w
    }
}

/// A widget once its apps list is expanded or collapsed (back on the first page).
pub open spec fn apps_toggled<P>(w: InternalWidgetInfo<P>) -> InternalWidgetInfo<P> {
    InternalWidgetInfo {
        custom_state: WidgetConfig {
            apps_expanded: !w.custom_state.apps_expanded,
            apps_page: 0,
            preferences: w.custom_state.preferences,
        },
        force_data_publish: true,
        ..w
    }
}

/// A widget once its apps list is on the given page.
pub open spec fn apps_paged<P>(w: InternalWidgetInfo<P>, page: u32) -> InternalWidgetInfo<P> {
    InternalWidgetInfo {
        custom_state: WidgetConfig {
            apps_expanded: w.custom_state.apps_expanded,
            apps_page: page,
            preferences: w.custom_state.preferences,
        },
        force_data_publish: true,
        ..w
    }
}

/// A widget whose next data push is forced.
pub open spec fn forced<P>(w: InternalWidgetInfo<P>) -> InternalWidgetInfo<P> {
    InternalWidgetInfo { force_data_publish: true, ..w }
}

/// A widget back on its live card: customization over, draft dropped, next
/// data push forced.
pub open spec fn settings_closed<P>(w: InternalWidgetInfo<P>) -> InternalWidgetInfo<P> {
    InternalWidgetInfo {
        in_customization: false,
        template_kind: TemplateKind::Live,
        draft_state: None,
        customization_requested_at: None,
        force_data_publish: true,
        ..w
    }
}

/// A widget whose live card is restored when it is deactivated outside the
/// customization flyout transition.
pub open spec fn customization_reset<P>(w: InternalWidgetInfo<P>) -> InternalWidgetInfo<P> {
    InternalWidgetInfo {
        in_customization: false,
        template_kind: TemplateKind::Live,
        draft_state: None,
        customization_requested_at: None,
        ..w
    }
}

/// A widget whose card shows the settings, with a draft copied from its
/// current configuration.
pub open spec fn settings_opened<P: Clone>(
    w: InternalWidgetInfo<P>,
    w2: InternalWidgetInfo<P>,
) -> bool {
    &&& w2.in_customization
    &&& w2.template_kind == TemplateKind::Settings
    &&& w2.customization_requested_at is None
    &&& w2.draft_state matches Some(d) && config_copy(w.custom_state, d)
    &&& w2 == InternalWidgetInfo {
        in_customization: true,
        template_kind: TemplateKind::Settings,
        draft_state: w2.draft_state,
        customization_requested_at: None,
        ..w
    }
}


/// Keeps the widgets whose id does not match `id`.
pub open spec fn unmatched<P>(id: Seq<char>) -> spec_fn(InternalWidgetInfo<P>) -> bool {
    |w: InternalWidgetInfo<P>| !widget_ids_match(w.id@, id)
}

/// Some widget whose id matches `id` is active.
pub open spec fn active_match<P>(ws: Seq<InternalWidgetInfo<P>>, id: Seq<char>, upto: int) -> bool {
    exists|j: int| 0 <= j < upto && widget_ids_match(ws[j].id@, id) && ws[j].is_active
}

/// `c` less one when `removed` holds and `c` is positive.
pub open spec fn count_after_removal(c: usize, removed: bool) -> int {
    if removed && c > 0 {
        c - 1
    } else {
        c as int
    }
}

/// Window, in nanoseconds (1.5 s), after a customization request within which
/// a deactivation is the host moving the widget into the customization flyout.
pub const FLYOUT_TRANSITION_WINDOW_NANOS: u128 = 1_500_000_000;

/// Decides whether a deactivation that comes `elapsed_nanos` after the
/// customization request is the flyout transition.
pub fn within_flyout_window(elapsed_nanos: u128) -> (r: bool)
    ensures
        r == (elapsed_nanos < FLYOUT_TRANSITION_WINDOW_NANOS),
{
    elapsed_nanos < FLYOUT_TRANSITION_WINDOW_NANOS
}

/// Whether a widget whose customization was requested at `requested_at` is
/// now moving into the customization flyout: the request was made less than
/// the transition window ago, as read from the clock. Never when no request
/// is pending.
pub fn flyout_transition_pending(requested_at: &Option<Instant>) -> (r: bool)
    ensures
        requested_at is None ==> !r,
{
    match since_request(requested_at) {
        Some(e) => within_flyout_window(e),
        None => false,
    }
}

/// How long ago, in nanoseconds, the instant `at` was, read from the clock;
/// `None` when no instant is recorded.
fn since_request(at: &Option<Instant>) -> (r: Option<u128>)
    ensures
        (r is Some) == (at is Some),
{
    match at {
        Some(t) => Some(elapsed_nanos(t)),
        None => None,
    }
}

/// A widget as a deactivation leaves it, given how long ago, in nanoseconds,
/// its customization was requested (`None` when no request is pending): it is
/// inactive; within the flyout transition window it keeps its customization
/// state, and otherwise its live card is restored.
pub open spec fn deactivated_after<P>(
    w: InternalWidgetInfo<P>,
    since_request: Option<u128>,
) -> InternalWidgetInfo<P> {
    let off = InternalWidgetInfo { is_active: false, ..w };
    if since_request matches Some(e) && e < FLYOUT_TRANSITION_WINDOW_NANOS {
        off
    } else {
        customization_reset(off)
    }
}

/// Deactivates one widget, given how long ago, in nanoseconds, its
/// customization was requested (`None` when no request is pending).
pub fn deactivated_widget<P>(w: InternalWidgetInfo<P>, since_request_nanos: Option<u128>) -> (r:
    InternalWidgetInfo<P>)
    ensures
        r == deactivated_after(w, since_request_nanos),
{
    let opening = match since_request_nanos {
        Some(e) => within_flyout_window(e),
        None => false,
    };
    let mut w = w;
    w.is_active = false;
    if !opening {
        w.in_customization = false;
        w.template_kind = TemplateKind::Live;
        w.draft_state = None;
        w.customization_requested_at = None;
    }
    w
}

/// A widget as a deactivation for it leaves it: `deactivated_after` at some
/// time since its customization request, which is pending exactly when a
/// request time is recorded. Which time that is, the clock decides.
pub open spec fn deactivated<P>(w: InternalWidgetInfo<P>, w2: InternalWidgetInfo<P>) -> bool {
    exists|since: Option<u128>|
        (since is Some) == (w.customization_requested_at is Some) && #[trigger] deactivated_after(
            w,
            since,
        ) == w2
}

/// Idle time, in nanoseconds, after which an empty provider shuts down: 30 s
/// once it has had widgets, 60 s before.
pub open spec fn idle_grace(has_had_widgets: bool) -> u128 {
    if has_had_widgets {
        30_000_000_000
    } else {
        60_000_000_000
    }
}

/// The provider shuts down: it holds no widget and has been empty for at least
/// the grace period (`since_empty`, in nanoseconds; `None` when no time is
/// recorded).
pub open spec fn idle_shutdown_at(is_empty: bool, has_had_widgets: bool, since_empty: Option<u128>) -> bool {
    is_empty && match since_empty {
        Some(e) => e >= idle_grace(has_had_widgets),
        None => false,
    }
}

/// An empty provider that has had widgets shuts down once it has been empty
/// for 30 s, one that never had any once it has been empty for 60 s; a
/// provider holding a widget, or with no empty time recorded, never does.
/// Having had widgets never delays the shutdown.
pub proof fn lemma_idle_shutdown_grace(has_had_widgets: bool, e: u128)
    ensures
        idle_shutdown_at(true, true, Some(e)) == (e >= 30_000_000_000),
        idle_shutdown_at(true, false, Some(e)) == (e >= 60_000_000_000),
        idle_shutdown_at(true, false, Some(e)) ==> idle_shutdown_at(true, true, Some(e)),
        !idle_shutdown_at(false, has_had_widgets, Some(e)),
        !idle_shutdown_at(true, has_had_widgets, None),
{
}

/// Decides whether the provider shuts down: it holds no widget and has been
/// empty for at least the grace period (`since_empty_nanos`, `None` when no
/// time was recorded).
pub fn idle_shutdown_decision(is_empty: bool, has_had_widgets: bool, since_empty_nanos: Option<u128>) -> (r: bool)
    ensures
        r == (is_empty && match since_empty_nanos {
            Some(e) => e >= idle_grace(has_had_widgets),
            None => false,
        }),
{
    if !is_empty {
        return false;
    }
    let grace: u128 = if has_had_widgets {
        30_000_000_000
    } else {
        60_000_000_000
    };
    match since_empty_nanos {
        Some(e) => e >= grace,
        None => false,
    }
}

/// What a card push for a widget needs: the widget it lands on and what
/// decides its card.
pub struct CardTarget<P> {
    pub actual_id: String,
    pub size: WidgetSize,
    pub config: WidgetConfig<P>,
    pub in_customization: bool,
    pub template_kind: TemplateKind,
}

impl<P> CardTarget<P> {
    /// The settings card is shown, rather than the live card, while the widget
    /// is in customization or has the settings template installed.
    pub fn shows_settings(&self) -> (r: bool)
        ensures
            r == (self.in_customization || self.template_kind == TemplateKind::Settings),
    {
        self.in_customization || match self.template_kind {
            TemplateKind::Settings => true,
            TemplateKind::Live => false,
        }
    }
}

/// Whether a card pushed to `actual_id` for a request made with
/// `requested_id` is also pushed under the requested id: the two differ and
/// the requested one is not empty.
pub fn mirrors_request(actual_id: &str, requested_id: &str) -> (r: bool)
    ensures
        r == (actual_id@ != requested_id@ && requested_id@.len() > 0),
{
    !str_eq(actual_id, requested_id) && !requested_id.is_empty()
}

/// What the sampling worker needs of an active widget to publish to it.
pub struct WidgetTarget<P> {
    pub id: String,
    pub size: WidgetSize,
    pub config: WidgetConfig<P>,
    pub template_kind: TemplateKind,
    pub in_customization: bool,
    pub last_data_hash: Option<u64>,
    pub last_data_json: Option<String>,
    pub last_data_published_at: Option<Instant>,
    pub force_data_publish: bool,
}

/// `t` is the worker's copy of widget `w`.
pub open spec fn target_of<P: Clone>(w: InternalWidgetInfo<P>, t: WidgetTarget<P>) -> bool {
    &&& t.id@ == w.id@
    &&& t.size == w.size
    &&& config_copy(w.custom_state, t.config)
    &&& t.template_kind == w.template_kind
    &&& t.in_customization == w.in_customization
    &&& t.last_data_hash == w.last_data_hash
    &&& match (t.last_data_json, w.last_data_json) {
        (Some(a), Some(b)) => a@ == b@,
        (None, None) => true,
        _ => false,
    }
    &&& t.last_data_published_at == w.last_data_published_at
    &&& t.force_data_publish == w.force_data_publish
}

/// Keeps the active widgets.
pub open spec fn is_active_widget<P>() -> spec_fn(InternalWidgetInfo<P>) -> bool {
    |w: InternalWidgetInfo<P>| w.is_active
}

impl<P> WidgetTarget<P> {
    /// Live data goes only to a widget showing its live card.
    pub fn receives_live_data(&self) -> (r: bool)
        ensures
            r == (!self.in_customization && self.template_kind == TemplateKind::Live),
    {
        !self.in_customization && match self.template_kind {
            TemplateKind::Live => true,
            TemplateKind::Settings => false,
        }
    }

    /// Whether the payload `data_json` (hash `current_hash`) is published to
    /// this widget: `should_publish_data` against what it last received,
    /// forced by a user interaction (`force_ui`) or by the widget itself.
    pub fn publish_needed(&self, force_ui: bool, current_hash: u64, data_json: &str) -> (r: bool)
        ensures
            (force_ui || self.force_data_publish || !crate::publish::payload_unchanged(
                current_hash,
                data_json@,
                self.last_data_hash,
                match self.last_data_json {
                    Some(s) => Some(s@),
                    None => None,
                },
            ) || self.last_data_published_at is None) ==> r,
    {
        let last_json: Option<&str> = match &self.last_data_json {
            Some(s) => Some(s.as_str()),
            None => None,
        };
        crate::publish::should_publish_data(
            force_ui || self.force_data_publish,
            current_hash,
            data_json,
            self.last_data_hash,
            last_json,
            self.last_data_published_at,
        )
    }

    /// Whether the worker publishes the payload `data_json` to this widget in
    /// a round: only when the publication cadence has come (`cadence_due`) and
    /// the widget shows its live card, and then when the payload check of
    /// `publish_needed` passes on the payload's hash. Forced, changed or never
    /// timed payloads are always published in such a round.
    pub fn publishes_in_round(&self, cadence_due: bool, force_ui: bool, data_json: &str) -> (r: bool)
        ensures
            r ==> cadence_due && !self.in_customization && self.template_kind == TemplateKind::Live,
            (cadence_due && !self.in_customization && self.template_kind == TemplateKind::Live && (
            force_ui || self.force_data_publish || !crate::publish::payload_unchanged(
                payload_hash(data_json@),
                data_json@,
                self.last_data_hash,
                match self.last_data_json {
                    Some(s) => Some(s@),
                    None => None,
                },
            ) || self.last_data_published_at is None)) ==> r,
            exists|since: Option<u128>|
                (since is Some) == (self.last_data_published_at is Some) && r
                    == #[trigger] self.round_publishes(cadence_due, force_ui, data_json@, since),
    {
        let since = since_request(&self.last_data_published_at);
        self.publishes_after(cadence_due, force_ui, data_json, since)
    }

    /// Whether the worker publishes the payload `data_json` to this widget in
    /// a round, given how long ago, in nanoseconds, its last publication was
    /// (`None` when it has none; see `round_publishes`).
    pub fn publishes_after(&self, cadence_due: bool, force_ui: bool, data_json: &str, since_publish: Option<u128>) -> (r: bool)
        ensures
            r == self.round_publishes(cadence_due, force_ui, data_json@, since_publish),
    {
        if !cadence_due || !self.receives_live_data() {
            return false;
        }
        let hash = compute_payload_hash(data_json);
        let last_json: Option<&str> = match &self.last_data_json {
            Some(s) => Some(s.as_str()),
            None => None,
        };
        crate::publish::publish_decision(
            force_ui || self.force_data_publish,
            hash,
            data_json,
            self.last_data_hash,
            last_json,
            since_publish,
        )
    }

    /// The worker publishes `data` to this widget in a round, `since_publish`
    /// nanoseconds after its last publication: the cadence has come, the widget
    /// shows its live card, and the payload is due (forced, changed, never
    /// timed, or unchanged for at least the heartbeat).
    pub open spec fn round_publishes(
        &self,
        cadence_due: bool,
        force_ui: bool,
        data: Seq<char>,
        since_publish: Option<u128>,
    ) -> bool {
        &&& cadence_due
        &&& !self.in_customization
        &&& self.template_kind == TemplateKind::Live
        &&& crate::publish::publish_due(
            force_ui || self.force_data_publish,
            crate::publish::payload_unchanged(
                payload_hash(data),
                data,
                self.last_data_hash,
                match self.last_data_json {
                    Some(s) => Some(s@),
                    None => None,
                },
            ),
            since_publish,
        )
    }
}


/// An action invoked on a widget card.
#[derive(Clone, Copy, Debug, PartialEq, Eq, Structural)]
pub enum WidgetVerb {
    SaveSettings,
    ToggleApps,
    NextAppsPage,
    PrevAppsPage,
    ResetSession,
    OpenSettings,
    CancelSettings,
    Unknown,
}

/// The action a card verb names; `cancel_settings`, `cancel`, `exit`,
/// `exitCustomization` and `dismiss` all close the settings.
pub open spec fn verb_of(verb: Seq<char>) -> WidgetVerb {
    if verb == "save_settings"@ {
        WidgetVerb::SaveSettings
    } else if verb == "toggle_apps"@ {
        WidgetVerb::ToggleApps
    } else if verb == "next_apps_page"@ {
        WidgetVerb::NextAppsPage
    } else if verb == "prev_apps_page"@ {
        WidgetVerb::PrevAppsPage
    } else if verb == "reset_session"@ {
        WidgetVerb::ResetSession
    } else if verb == "open_settings"@ {
        WidgetVerb::OpenSettings
    } else if verb == "cancel_settings"@ || verb == "cancel"@ || verb == "exit"@ || verb
        == "exitCustomization"@ || verb == "dismiss"@ {
        WidgetVerb::CancelSettings
    } else {
        WidgetVerb::Unknown
    }
}

/// Reads the verb of an invoked card action.
pub fn parse_verb(verb: &str) -> (r: WidgetVerb)
    ensures
        r == verb_of(verb@),
{
    if str_eq(verb, "save_settings") {
        WidgetVerb::SaveSettings
    } else if str_eq(verb, "toggle_apps") {
        WidgetVerb::ToggleApps
    } else if str_eq(verb, "next_apps_page") {
        WidgetVerb::NextAppsPage
    } else if str_eq(verb, "prev_apps_page") {
        WidgetVerb::PrevAppsPage
    } else if str_eq(verb, "reset_session") {
        WidgetVerb::ResetSession
    } else if str_eq(verb, "open_settings") {
        WidgetVerb::OpenSettings
    } else if str_eq(verb, "cancel_settings") || str_eq(verb, "cancel") || str_eq(verb, "exit")
        || str_eq(verb, "exitCustomization") || str_eq(verb, "dismiss") {
        WidgetVerb::CancelSettings
    } else {
        WidgetVerb::Unknown
    }
}


/// Two registries whose widgets have the same ids in the same order send every
/// request to the same widget.
pub proof fn lemma_same_ids_same_target<P>(
    ws: Seq<InternalWidgetInfo<P>>,
    ws2: Seq<InternalWidgetInfo<P>>,
    id: Seq<char>,
)
    requires
        ws.len() == ws2.len(),
        forall|j: int| 0 <= j < ws.len() ==> ws2[j].id@ == #[trigger] ws[j].id@,
    ensures
        first_match(ws, id) == first_match(ws2, id),
        resolve_target(ws, id) == resolve_target(ws2, id),
{
    lemma_first_match(ws, id);
    let i = first_match(ws, id);
    assert forall|j: int| 0 <= j < i implies !widget_ids_match(ws2[j].id@, id) by {
        assert(ws2[j].id@ == ws[j].id@);
    }
    if i < ws.len() {
        assert(ws2[i].id@ == ws[i].id@);
    }
    lemma_first_match_at(ws2, id, i);
}

/// A deactivation with no customization request pending always gives the
/// widget its live card back: inactive, out of customization, without a draft.
pub proof fn lemma_deactivate_without_request<P>(w: InternalWidgetInfo<P>, w2: InternalWidgetInfo<P>)
    requires
        w.customization_requested_at is None,
        deactivated(w, w2),
    ensures
        !w2.is_active,
        !w2.in_customization,
        w2.template_kind == TemplateKind::Live,
        w2.draft_state is None,
        w2.customization_requested_at is None,
        w2.custom_state == w.custom_state,
{
}

/// Once activation has completed the flyout transition (it clears the pending
/// customization request), the next deactivation restores the live card: a
/// dismissed flyout never leaves the widget stuck in its settings.
pub proof fn lemma_deactivate_after_activate<P>(
    w: InternalWidgetInfo<P>,
    size: WidgetSize,
    w2: InternalWidgetInfo<P>,
)
    requires
        deactivated(activated(w, size), w2),
    ensures
        !w2.is_active,
        !w2.in_customization,
        w2.template_kind == TemplateKind::Live,
        w2.draft_state is None,
        w2.custom_state == w.custom_state,
{
}

/// Cancelling the settings right after opening them leaves the widget as
/// cancelling alone would: the live card, its configuration untouched.
pub proof fn lemma_cancel_after_open<P: Clone>(w: InternalWidgetInfo<P>, w1: InternalWidgetInfo<P>)
    requires
        settings_opened(w, w1),
    ensures
        settings_closed(w1) == settings_closed(w),
        settings_closed(w1).custom_state == w.custom_state,
{
}

/// Saving settings ends customization: the widget shows its live card with
/// the submitted configuration and no draft.
pub proof fn lemma_save_ends_customization<P>(w: InternalWidgetInfo<P>, config: WidgetConfig<P>)
    ensures
        ({
            let w2 = InternalWidgetInfo { custom_state: config, ..settings_closed(w) };
            &&& !w2.in_customization
            &&& w2.template_kind == TemplateKind::Live
            &&& w2.draft_state is None
            &&& w2.custom_state == config
            &&& w2.force_data_publish
        }),
{
}

/// Toggling the apps list twice gives back its expansion, on the first page.
pub proof fn lemma_toggle_twice<P>(w: InternalWidgetInfo<P>)
    ensures
        apps_toggled(apps_toggled(w)).custom_state.apps_expanded == w.custom_state.apps_expanded,
        apps_toggled(apps_toggled(w)).custom_state.apps_page == 0,
        apps_toggled(apps_toggled(w)).custom_state.preferences == w.custom_state.preferences,
{
}

/// Once a payload's publication is recorded, the same payload is held back
/// unless forced until the heartbeat has passed, and published from then on.
pub proof fn lemma_recorded_payload_held_back<P>(
    w: InternalWidgetInfo<P>,
    json: String,
    since_publish: u128,
)
    requires
        w.last_data_hash == Some(crate::publish::payload_hash(json@)),
        w.last_data_json == Some(json),
    ensures
        crate::publish::publish_due(
            false,
            crate::publish::payload_unchanged(
                crate::publish::payload_hash(json@),
                json@,
                w.last_data_hash,
                match w.last_data_json {
                    Some(s) => Some(s@),
                    None => None,
                },
            ),
            Some(since_publish),
        ) == (since_publish >= crate::publish::REDUNDANT_UPDATE_HEARTBEAT_NANOS),
{
}


/// In a round that has come, a widget on its live card whose last payload is
/// `data`, with that payload's hash stored, and whose push is not forced, gets
/// `data` again exactly once the heartbeat has passed since that publication;
/// in a round that has not come, nothing is published, forced or not.
pub proof fn lemma_round_heartbeat<P>(t: WidgetTarget<P>, data: Seq<char>, e: u128, force_ui: bool)
    requires
        t.last_data_json matches Some(s) && s@ == data,
        t.last_data_hash == Some(payload_hash(data)),
        !t.force_data_publish,
        !t.in_customization,
        t.template_kind == TemplateKind::Live,
    ensures
        t.round_publishes(true, false, data, Some(e)) == (e
            >= crate::publish::REDUNDANT_UPDATE_HEARTBEAT_NANOS),
        t.round_publishes(true, true, data, Some(e)),
        !t.round_publishes(false, force_ui, data, Some(e)),
{
}

/// In a well-formed registry every widget stores the hash of exactly the
/// payload it stores, and has a publication time exactly when it stores one.
pub proof fn lemma_stored_hash_matches_payload<P>(reg: WidgetRegistry<P>, j: int)
    requires
        reg.wf(),
        0 <= j < reg.widgets@.len(),
    ensures
        match reg.widgets@[j].last_data_json {
            Some(s) => reg.widgets@[j].last_data_hash == Some(payload_hash(s@))
                && reg.widgets@[j].last_data_published_at is Some,
            None => reg.widgets@[j].last_data_hash is None && reg.widgets@[j].last_data_published_at is None,
        },
{
    assert(publication_consistent(reg.widgets@[j]));
}

/// After a deletion no widget left matches the deleted id, so no later request
/// for it lands on a match.
pub proof fn lemma_deleted_id_gone<P>(ws: Seq<InternalWidgetInfo<P>>, id: Seq<char>)
    ensures
        forall|j: int|
            0 <= j < ws.filter(unmatched(id)).len() ==> !widget_ids_match(
                #[trigger] ws.filter(unmatched(id))[j].id@,
                id,
            ),
        first_match(ws.filter(unmatched(id)), id) == ws.filter(unmatched(id)).len(),
{
    let f = ws.filter(unmatched(id));
    assert forall|j: int| 0 <= j < f.len() implies !widget_ids_match(f[j].id@, id) by {
        ws.lemma_filter_pred(unmatched(id), j);
    }
    lemma_first_match_at(f, id, f.len() as int);
}

impl<P> WidgetRegistry<P> {
    /// The provider shuts down with this registry when it has been empty for
    /// `since_empty` nanoseconds (see `idle_shutdown_at`).
    pub open spec fn shuts_down_after(&self, since_empty: Option<u128>) -> bool {
        idle_shutdown_at(self.widgets@.len() == 0, self.has_had_widgets, since_empty)
    }

    /// The registry is well formed: no two widgets share an id, and what each
    /// widget records of its last publication hangs together.
    pub open spec fn wf(&self) -> bool {
        &&& ids_unique(self.widgets@)
        &&& forall|j: int|
            0 <= j < self.widgets@.len() ==> publication_consistent(#[trigger] self.widgets@[j])
    }

    /// An empty registry, empty since now.
    pub fn new() -> (r: Self)
        ensures
            r.wf(),
            r.widgets@.len() == 0,
            r.active_count == 0,
            !r.has_had_widgets,
            r.last_empty_at is Some,
    {
        WidgetRegistry {
            widgets: Vec::new(),
            active_count: 0,
            has_had_widgets: false,
            last_empty_at: Some(now()),
        }
    }

    /// Number of widgets in the registry.
    pub fn len(&self) -> (r: usize)
        ensures
            r == self.widgets@.len(),
    {
        self.widgets.len()
    }

    /// Whether the registry holds no widget.
    pub fn is_empty(&self) -> (r: bool)
        ensures
            r == (self.widgets@.len() == 0),
    {
        self.widgets.len() == 0
    }

    /// The widget a request for `id` lands on (see `resolve_target`).
    fn resolve(&self, id: &str) -> (r: Option<usize>)
        ensures
            match r {
                Some(k) => k < self.widgets@.len() && resolve_target(self.widgets@, id@) == Some(
                    k as int,
                ),
                None => resolve_target(self.widgets@, id@) is None,
            },
    {
        proof {
            lemma_first_match(self.widgets@, id@);
        }
        let i = find_match(&self.widgets, id);
        if i < self.widgets.len() {
            Some(i)
        } else if self.widgets.len() == 1 {
            Some(0)
        } else {
            None
        }
    }
}

impl<P: Clone> WidgetRegistry<P> {
    /// Marks the widget `id` active with the given size (the `Activate`
    /// callback): the first widget whose id matches is activated, or a new
    /// active widget with `default_config` is added. Gives the id of the widget
    /// that was activated; the active count grows when a widget became active.
    pub fn activate(&mut self, id: &str, size: WidgetSize, default_config: WidgetConfig<P>) -> (target: String)
        requires
            old(self).wf(),
            old(self).active_count < usize::MAX,
        ensures
            final(self).wf(),
            final(self).has_had_widgets,
            final(self).last_empty_at is None,
            ({
                let ws = old(self).widgets@;
                let i = first_match(ws, id@);
                if i < ws.len() {
                    &&& final(self).widgets@ == ws.update(i, activated(ws[i], size))
                    &&& target@ == ws[i].id@
                    &&& final(self).active_count == old(self).active_count + if ws[i].is_active {
                        0int
                    } else {
                        1int
                    }
                } else {
                    &&& appended(ws, final(self).widgets@)
                    &&& fresh_widget(final(self).widgets@.last(), id@, size, true, false, TemplateKind::Live)
                    &&& final(self).widgets@.last().custom_state == default_config
                    &&& final(self).widgets@.last().draft_state is None
                    &&& final(self).widgets@.last().customization_requested_at is None
                    &&& target@ == id@
                    &&& final(self).active_count == old(self).active_count + 1
                }
            }),
    {
        proof {
            lemma_first_match(self.widgets@, id@);
        }
        self.has_had_widgets = true;
        self.last_empty_at = None;
        let i = find_match(&self.widgets, id);
        if i < self.widgets.len() {
            let became_active = !self.widgets[i].is_active;
            let target = self.widgets[i].id.clone();
            let w = &mut self.widgets[i];
            w.is_active = true;
            w.size = size;
            w.customization_requested_at = None;
            w.force_data_publish = true;
            if became_active {
                self.active_count = self.active_count + 1;
            }
            target
        } else {
            let info = InternalWidgetInfo {
                id: String::from_str(id),
                size,
                is_active: true,
                in_customization: false,
                template_kind: TemplateKind::Live,
                custom_state: default_config,
                draft_state: None,
                customization_requested_at: None,
                last_data_hash: None,
                last_data_json: None,
                last_data_published_at: None,
                force_data_publish: true,
            };
            self.widgets.push(info);
            self.active_count = self.active_count + 1;
            proof {
                assert forall|a: int, b: int| 0 <= a < b < self.widgets@.len() implies self.widgets@[a].id@
                    != self.widgets@[b].id@ by {
                    if b == self.widgets@.len() - 1 {
                        assert(!widget_ids_match(old(self).widgets@[a].id@, id@));
                    }
                }
            }
            String::from_str(id)
        }
    }

    /// Expands or collapses the apps list of the widget a request for `id` lands
    /// on (the `toggle_apps` action), back on its first page, and forces its
    /// next data push. Gives that widget's id, or `None` when the request lands
    /// on no widget.
    pub fn toggle_apps(&mut self, id: &str) -> (target: Option<String>)
        requires
            old(self).wf(),
        ensures
            final(self).wf(),
            match resolve_target(old(self).widgets@, id@) {
                None => *final(self) == *old(self) && target is None,
                Some(i) => {
                    &&& target matches Some(t) && t@ == old(self).widgets@[i].id@
                    &&& final(self).widgets@ == old(self).widgets@.update(i, apps_toggled(old(self).widgets@[i]))
                    &&& final(self).active_count == old(self).active_count
                    &&& final(self).has_had_widgets == old(self).has_had_widgets
                    &&& final(self).last_empty_at == old(self).last_empty_at
                },
            },
    {
        match self.resolve(id) {
            None => None,
            Some(i) => {
                let w = &mut self.widgets[i];
                w.custom_state.apps_expanded = !w.custom_state.apps_expanded;
                w.custom_state.apps_page = 0;
                w.force_data_publish = true;
                Some(w.id.clone())
            },
        }
    }

    /// Moves the apps list of the widget a request for `id` lands on one page
    /// forward (the `next_apps_page` action; the page number saturates) and
    /// forces its next data push. Gives that widget's id, or `None`.
    pub fn next_apps_page(&mut self, id: &str) -> (target: Option<String>)
        requires
            old(self).wf(),
        ensures
            final(self).wf(),
            match resolve_target(old(self).widgets@, id@) {
                None => *final(self) == *old(self) && target is None,
                Some(i) => {
                    let w = old(self).widgets@[i];
                    let page = if w.custom_state.apps_page == u32::MAX {
                        u32::MAX
                    } else {
                        (w.custom_state.apps_page + 1) as u32
                    };
                    &&& target matches Some(t) && t@ == w.id@
                    &&& final(self).widgets@ == old(self).widgets@.update(i, apps_paged(w, page))
                    &&& final(self).active_count == old(self).active_count
                    &&& final(self).has_had_widgets == old(self).has_had_widgets
                    &&& final(self).last_empty_at == old(self).last_empty_at
                },
            },
    {
        match self.resolve(id) {
            None => None,
            Some(i) => {
                let w = &mut self.widgets[i];
                w.custom_state.apps_page = w.custom_state.apps_page.saturating_add(1);
                w.force_data_publish = true;
                Some(w.id.clone())
            },
        }
    }

    /// Moves the apps list of the widget a request for `id` lands on one page
    /// back (the `prev_apps_page` action; it stays on the first page) and
    /// forces its next data push. Gives that widget's id, or `None`.
    pub fn prev_apps_page(&mut self, id: &str) -> (target: Option<String>)
        requires
            old(self).wf(),
        ensures
            final(self).wf(),
            match resolve_target(old(self).widgets@, id@) {
                None => *final(self) == *old(self) && target is None,
                Some(i) => {
                    let w = old(self).widgets@[i];
                    let page = if w.custom_state.apps_page == 0 {
                        0u32
                    } else {
                        (w.custom_state.apps_page - 1) as u32
                    };
                    &&& target matches Some(t) && t@ == w.id@
                    &&& final(self).widgets@ == old(self).widgets@.update(i, apps_paged(w, page))
                    &&& final(self).active_count == old(self).active_count
                    &&& final(self).has_had_widgets == old(self).has_had_widgets
                    &&& final(self).last_empty_at == old(self).last_empty_at
                },
            },
    {
        match self.resolve(id) {
            None => None,
            Some(i) => {
                let w = &mut self.widgets[i];
                w.custom_state.apps_page = w.custom_state.apps_page.saturating_sub(1);
                w.force_data_publish = true;
                Some(w.id.clone())
            },
        }
    }

    /// Forces the next data push of the widget a request for `id` lands on (the
    /// `reset_session` action; resetting the session totals themselves is the
    /// caller's). Gives that widget's id, or `None`.
    pub fn force_data_push(&mut self, id: &str) -> (target: Option<String>)
        requires
            old(self).wf(),
        ensures
            final(self).wf(),
            match resolve_target(old(self).widgets@, id@) {
                None => *final(self) == *old(self) && target is None,
                Some(i) => {
                    &&& target matches Some(t) && t@ == old(self).widgets@[i].id@
                    &&& final(self).widgets@ == old(self).widgets@.update(i, forced(old(self).widgets@[i]))
                    &&& final(self).active_count == old(self).active_count
                    &&& final(self).has_had_widgets == old(self).has_had_widgets
                    &&& final(self).last_empty_at == old(self).last_empty_at
                },
            },
    {
        match self.resolve(id) {
            None => None,
            Some(i) => {
                let w = &mut self.widgets[i];
                w.force_data_publish = true;
                Some(w.id.clone())
            },
        }
    }

    /// Opens the settings card on the widget a request for `id` lands on (the
    /// `open_settings` action): customization starts with a draft copied from
    /// its configuration. Gives that widget's id, or `None` when the request is
    /// ignored.
    pub fn open_settings(&mut self, id: &str) -> (target: Option<String>)
        requires
            old(self).wf(),
        ensures
            final(self).wf(),
            match resolve_target(old(self).widgets@, id@) {
                None => *final(self) == *old(self) && target is None,
                Some(i) => {
                    &&& target matches Some(t) && t@ == old(self).widgets@[i].id@
                    &&& replaced_at(old(self).widgets@, final(self).widgets@, i)
                    &&& settings_opened(old(self).widgets@[i], final(self).widgets@[i])
                    &&& final(self).active_count == old(self).active_count
                    &&& final(self).has_had_widgets == old(self).has_had_widgets
                    &&& final(self).last_empty_at == old(self).last_empty_at
                },
            },
    {
        match self.resolve(id) {
            None => None,
            Some(i) => {
                let draft = self.widgets[i].custom_state.clone();
                let w = &mut self.widgets[i];
                w.in_customization = true;
                w.template_kind = TemplateKind::Settings;
                w.draft_state = Some(draft);
                w.customization_requested_at = None;
                Some(w.id.clone())
            },
        }
    }

    /// Closes the settings card of the widget a request for `id` lands on (the
    /// `cancel_settings`, `cancel`, `exit`, `exitCustomization` and `dismiss`
    /// actions): back on the live card, draft dropped, next data push forced.
    /// Gives that widget's id, or `None` when the request is ignored.
    pub fn cancel_settings(&mut self, id: &str) -> (target: Option<String>)
        requires
            old(self).wf(),
        ensures
            final(self).wf(),
            match resolve_target(old(self).widgets@, id@) {
                None => *final(self) == *old(self) && target is None,
                Some(i) => {
                    &&& target matches Some(t) && t@ == old(self).widgets@[i].id@
                    &&& final(self).widgets@ == old(self).widgets@.update(i, settings_closed(old(self).widgets@[i]))
                    &&& final(self).active_count == old(self).active_count
                    &&& final(self).has_had_widgets == old(self).has_had_widgets
                    &&& final(self).last_empty_at == old(self).last_empty_at
                },
            },
    {
        match self.resolve(id) {
            None => None,
            Some(i) => {
                let w = &mut self.widgets[i];
                w.in_customization = false;
                w.template_kind = TemplateKind::Live;
                w.draft_state = None;
                w.customization_requested_at = None;
                w.force_data_publish = true;
                Some(w.id.clone())
            },
        }
    }

    /// Saves the settings submitted for the widget a request for `id` lands on
    /// (the second half of the `save_settings` action): its configuration
    /// becomes `new_config` and its live card is back, next data push forced.
    /// Gives that widget's id, or `None` when the request is ignored.
    pub fn apply_saved_settings(&mut self, id: &str, new_config: WidgetConfig<P>) -> (target: Option<String>)
        requires
            old(self).wf(),
        ensures
            final(self).wf(),
            match resolve_target(old(self).widgets@, id@) {
                None => *final(self) == *old(self) && target is None,
                Some(i) => {
                    &&& target matches Some(t) && t@ == old(self).widgets@[i].id@
                    &&& final(self).widgets@ == old(self).widgets@.update(
                        i,
                        InternalWidgetInfo { custom_state: new_config, ..settings_closed(old(self).widgets@[i]) },
                    )
                    &&& final(self).active_count == old(self).active_count
                    &&& final(self).has_had_widgets == old(self).has_had_widgets
                    &&& final(self).last_empty_at == old(self).last_empty_at
                },
            },
    {
        match self.resolve(id) {
            None => None,
            Some(i) => {
                let w = &mut self.widgets[i];
                w.custom_state = new_config;
                w.in_customization = false;
                w.template_kind = TemplateKind::Live;
                w.draft_state = None;
                w.customization_requested_at = None;
                w.force_data_publish = true;
                Some(w.id.clone())
            },
        }
    }

    /// The configuration that submitted settings are read against (the first
    /// half of the `save_settings` action): that of the widget a request for
    /// `id` lands on, with its id, or `default_config` with `id` itself.
    pub fn settings_base(&self, id: &str, default_config: WidgetConfig<P>) -> (r: (String, WidgetConfig<P>))
        ensures
            match resolve_target(self.widgets@, id@) {
                None => r.0@ == id@ && r.1 == default_config,
                Some(i) => r.0@ == self.widgets@[i].id@ && config_copy(self.widgets@[i].custom_state, r.1),
            },
    {
        match self.resolve(id) {
            None => (String::from_str(id), default_config),
            Some(i) => (self.widgets[i].id.clone(), self.widgets[i].custom_state.clone()),
        }
    }

    /// Records a new size for the first widget whose id matches `id` (the
    /// context-changed callback) and forces its next data push. Gives the id of
    /// the widget whose card is to be pushed again: that widget's, or `id`.
    pub fn change_size(&mut self, id: &str, new_size: WidgetSize) -> (target: String)
        requires
            old(self).wf(),
        ensures
            final(self).wf(),
            ({
                let ws = old(self).widgets@;
                let i = first_match(ws, id@);
                if i < ws.len() {
                    &&& final(self).widgets@ == ws.update(
                        i,
                        InternalWidgetInfo { size: new_size, force_data_publish: true, ..ws[i] },
                    )
                    &&& target@ == ws[i].id@
                } else {
                    &&& final(self).widgets@ == ws
                    &&& target@ == id@
                }
            }),
            final(self).active_count == old(self).active_count,
            final(self).has_had_widgets == old(self).has_had_widgets,
            final(self).last_empty_at == old(self).last_empty_at,
    {
        proof {
            lemma_first_match(self.widgets@, id@);
        }
        let i = find_match(&self.widgets, id);
        if i < self.widgets.len() {
            let w = &mut self.widgets[i];
            w.size = new_size;
            w.force_data_publish = true;
            w.id.clone()
        } else {
            String::from_str(id)
        }
    }

    /// Records that the payload `json` was just published to the widget whose
    /// id is exactly `id`: the payload, its hash, the time, and no push forced
    /// any more. Nothing changes when there is no such widget.
    pub fn record_publication(&mut self, id: &str, json: String)
        requires
            old(self).wf(),
        ensures
            final(self).wf(),
            ({
                let ws = old(self).widgets@;
                let k = key_index(ws, id@);
                if k < ws.len() {
                    &&& replaced_at(ws, final(self).widgets@, k)
                    &&& final(self).widgets@[k] == InternalWidgetInfo {
                        last_data_hash: Some(payload_hash(json@)),
                        last_data_json: Some(json),
                        last_data_published_at: final(self).widgets@[k].last_data_published_at,
                        force_data_publish: false,
                        ..ws[k]
                    }
                    &&& final(self).widgets@[k].last_data_published_at is Some
                } else {
                    final(self).widgets@ == ws
                }
            }),
            final(self).active_count == old(self).active_count,
            final(self).has_had_widgets == old(self).has_had_widgets,
            final(self).last_empty_at == old(self).last_empty_at,
    {
        proof {
            lemma_key_index(self.widgets@, id@);
        }
        let k = find_key(&self.widgets, id);
        if k < self.widgets.len() {
            let hash = compute_payload_hash(json.as_str());
            let at = now();
            let w = &mut self.widgets[k];
            w.last_data_hash = Some(hash);
            w.last_data_json = Some(json);
            w.last_data_published_at = Some(at);
            w.force_data_publish = false;
        }
    }


    /// Registers the widget `id` (the `CreateWidget` callback): it replaces the
    /// widget with exactly that id, keeping that widget's configuration, or is
    /// added with `default_config`; it starts inactive on its live card, with
    /// nothing published and its next data push forced. Gives the
    /// configuration its first card is rendered with.
    pub fn create_widget(&mut self, id: &str, size: WidgetSize, default_config: WidgetConfig<P>) -> (config: WidgetConfig<P>)
        requires
            old(self).wf(),
        ensures
            final(self).wf(),
            final(self).has_had_widgets,
            final(self).last_empty_at is None,
            final(self).active_count == old(self).active_count,
            ({
                let ws = old(self).widgets@;
                let k = key_index(ws, id@);
                let fs = final(self).widgets@;
                if k < ws.len() {
                    &&& replaced_at(ws, fs, k)
                    &&& fresh_widget(fs[k], id@, size, false, false, TemplateKind::Live)
                    &&& fs[k].draft_state is None
                    &&& fs[k].customization_requested_at is None
                    &&& config_copy(ws[k].custom_state, config)
                    &&& config_copy(config, fs[k].custom_state)
                } else {
                    &&& appended(ws, fs)
                    &&& fresh_widget(fs.last(), id@, size, false, false, TemplateKind::Live)
                    &&& fs.last().draft_state is None
                    &&& fs.last().customization_requested_at is None
                    &&& config == default_config
                    &&& config_copy(config, fs.last().custom_state)
                }
            }),
    {
        proof {
            lemma_key_index(self.widgets@, id@);
        }
        let k = find_key(&self.widgets, id);
        let config = if k < self.widgets.len() {
            self.widgets[k].custom_state.clone()
        } else {
            default_config
        };
        self.has_had_widgets = true;
        self.last_empty_at = None;
        let info = InternalWidgetInfo {
            id: String::from_str(id),
            size,
            is_active: false,
            in_customization: false,
            template_kind: TemplateKind::Live,
            custom_state: config.clone(),
            draft_state: None,
            customization_requested_at: None,
            last_data_hash: None,
            last_data_json: None,
            last_data_published_at: None,
            force_data_publish: true,
        };
        if k < self.widgets.len() {
            self.widgets.set(k, info);
            proof {
                assert forall|a: int, b: int| 0 <= a < b < self.widgets@.len() implies self.widgets@[a].id@
                    != self.widgets@[b].id@ by {
                    if a != k as int && b != k as int {
                        assert(old(self).widgets@[a].id@ != old(self).widgets@[b].id@);
                    }
                }
            }
        } else {
            self.widgets.push(info);
        }
        config
    }

    /// The widget the `OnCustomizationRequested` callback starts from: the
    /// first widget whose id matches `id`, with a copy of its configuration.
    pub fn customization_base(&self, id: &str) -> (r: Option<(String, WidgetConfig<P>)>)
        ensures
            ({
                let ws = self.widgets@;
                let i = first_match(ws, id@);
                if i < ws.len() {
                    r matches Some(p) && p.0@ == ws[i].id@ && config_copy(ws[i].custom_state, p.1)
                } else {
                    r is None
                }
            }),
    {
        proof {
            lemma_first_match(self.widgets@, id@);
        }
        let i = find_match(&self.widgets, id);
        if i < self.widgets.len() {
            Some((self.widgets[i].id.clone(), self.widgets[i].custom_state.clone()))
        } else {
            None
        }
    }

    /// Puts the widget `id` into customization (the second half of the
    /// `OnCustomizationRequested` callback): the first widget whose id matches
    /// takes `config` as its configuration and as its draft and shows the
    /// settings card from now on; when none matches, such a widget is added,
    /// active, with the size the host reports. Gives the id whose board card is
    /// rendered (that widget's, or `target_hint`), the size it is rendered at,
    /// and `config`.
    pub fn begin_customization(
        &mut self,
        id: &str,
        target_hint: String,
        config: WidgetConfig<P>,
        host_size: WidgetSize,
    ) -> (r: (String, WidgetSize, WidgetConfig<P>))
        requires
            old(self).wf(),
        ensures
            final(self).wf(),
            final(self).has_had_widgets,
            final(self).last_empty_at is None,
            final(self).active_count == old(self).active_count,
            r.2 == config,
            ({
                let ws = old(self).widgets@;
                let fs = final(self).widgets@;
                let i = first_match(ws, id@);
                if i < ws.len() {
                    &&& replaced_at(ws, fs, i)
                    &&& fs[i] == InternalWidgetInfo {
                        in_customization: true,
                        template_kind: TemplateKind::Settings,
                        customization_requested_at: fs[i].customization_requested_at,
                        draft_state: fs[i].draft_state,
                        custom_state: fs[i].custom_state,
                        ..ws[i]
                    }
                    &&& fs[i].customization_requested_at is Some
                    &&& fs[i].draft_state matches Some(d) && config_copy(config, d)
                    &&& config_copy(config, fs[i].custom_state)
                    &&& r.0@ == ws[i].id@
                    &&& r.1 == ws[i].size
                } else {
                    &&& appended(ws, fs)
                    &&& fresh_widget(fs.last(), id@, host_size, true, true, TemplateKind::Settings)
                    &&& fs.last().customization_requested_at is Some
                    &&& fs.last().draft_state matches Some(d) && config_copy(config, d)
                    &&& config_copy(config, fs.last().custom_state)
                    &&& r.0 == target_hint
                    &&& r.1 == host_size
                }
            }),
    {
        proof {
            lemma_first_match(self.widgets@, id@);
        }
        self.has_had_widgets = true;
        self.last_empty_at = None;
        let i = find_match(&self.widgets, id);
        if i < self.widgets.len() {
            let draft = config.clone();
            let current = config.clone();
            let at = now();
            let w = &mut self.widgets[i];
            w.in_customization = true;
            w.template_kind = TemplateKind::Settings;
            w.customization_requested_at = Some(at);
            w.draft_state = Some(draft);
            w.custom_state = current;
            (w.id.clone(), w.size, config)
        } else {
            let info = InternalWidgetInfo {
                id: String::from_str(id),
                size: host_size,
                is_active: true,
                in_customization: true,
                template_kind: TemplateKind::Settings,
                custom_state: config.clone(),
                draft_state: Some(config.clone()),
                customization_requested_at: Some(now()),
                last_data_hash: None,
                last_data_json: None,
                last_data_published_at: None,
                force_data_publish: true,
            };
            self.widgets.push(info);
            proof {
                assert forall|a: int, b: int| 0 <= a < b < self.widgets@.len() implies self.widgets@[a].id@
                    != self.widgets@[b].id@ by {
                    if b == self.widgets@.len() - 1 {
                        assert(!widget_ids_match(old(self).widgets@[a].id@, id@));
                    }
                }
            }
            (target_hint, host_size, config)
        }
    }

    /// Adds a widget found pinned on the board at startup: it replaces the
    /// widget with exactly that id or is added, on its live card with the
    /// stored configuration, nothing published and its next data push forced;
    /// the active count grows when it is active.
    pub fn restore_widget(&mut self, id: &str, size: WidgetSize, is_active: bool, config: WidgetConfig<P>)
        requires
            old(self).wf(),
            is_active ==> old(self).active_count < usize::MAX,
        ensures
            final(self).wf(),
            final(self).has_had_widgets == old(self).has_had_widgets,
            final(self).last_empty_at == old(self).last_empty_at,
            final(self).active_count == old(self).active_count + if is_active {
                1int
            } else {
                0int
            },
            ({
                let ws = old(self).widgets@;
                let k = key_index(ws, id@);
                let fs = final(self).widgets@;
                let j = if k < ws.len() {
                    k
                } else {
                    ws.len() as int
                };
                &&& (if k < ws.len() {
                    replaced_at(ws, fs, k)
                } else {
                    appended(ws, fs)
                })
                &&& fresh_widget(fs[j], id@, size, is_active, false, TemplateKind::Live)
                &&& fs[j].custom_state == config
                &&& fs[j].draft_state is None
                &&& fs[j].customization_requested_at is None
            }),
    {
        proof {
            lemma_key_index(self.widgets@, id@);
        }
        let k = find_key(&self.widgets, id);
        if is_active {
            self.active_count = self.active_count + 1;
        }
        let info = InternalWidgetInfo {
            id: String::from_str(id),
            size,
            is_active,
            in_customization: false,
            template_kind: TemplateKind::Live,
            custom_state: config,
            draft_state: None,
            customization_requested_at: None,
            last_data_hash: None,
            last_data_json: None,
            last_data_published_at: None,
            force_data_publish: true,
        };
        if k < self.widgets.len() {
            self.widgets.set(k, info);
            proof {
                assert forall|a: int, b: int| 0 <= a < b < self.widgets@.len() implies self.widgets@[a].id@
                    != self.widgets@[b].id@ by {
                    if a != k as int && b != k as int {
                        assert(old(self).widgets@[a].id@ != old(self).widgets@[b].id@);
                    }
                }
            }
        } else {
            self.widgets.push(info);
        }
    }

    /// Ends the startup scan of pinned widgets: the registry has had widgets
    /// exactly when it holds some, and it is empty since now when it holds none.
    pub fn finish_restore(&mut self)
        ensures
            final(self).widgets == old(self).widgets,
            final(self).active_count == old(self).active_count,
            final(self).has_had_widgets == (old(self).widgets@.len() > 0),
            (old(self).widgets@.len() == 0) == (final(self).last_empty_at is Some),
    {
        let empty = self.widgets.len() == 0;
        self.has_had_widgets = !empty;
        self.last_empty_at = if empty {
            Some(now())
        } else {
            None
        };
    }


    /// Removes every widget whose id matches `id` (the `DeleteWidget`
    /// callback). The active count drops by one when a removed widget was
    /// active, and an emptied registry is empty since now.
    pub fn delete_widget(&mut self, id: &str)
        requires
            old(self).wf(),
        ensures
            final(self).wf(),
            final(self).widgets@ == old(self).widgets@.filter(unmatched(id@)),
            final(self).active_count == count_after_removal(
                old(self).active_count,
                active_match(old(self).widgets@, id@, old(self).widgets@.len() as int),
            ),
            final(self).has_had_widgets == old(self).has_had_widgets,
            final(self).widgets@.len() == 0 ==> final(self).last_empty_at is Some,
            final(self).widgets@.len() > 0 ==> final(self).last_empty_at == old(self).last_empty_at,
    {
        let mut rest: Vec<InternalWidgetInfo<P>> = Vec::new();
        std::mem::swap(&mut rest, &mut self.widgets);
        let ghost orig = rest@;
        let mut kept: Vec<InternalWidgetInfo<P>> = Vec::new();
        let mut removed_active = false;
        let ghost mut k: int = 0;
        assert(orig.take(0) =~= Seq::<InternalWidgetInfo<P>>::empty());
        assert(orig.skip(0) =~= orig);
        while rest.len() > 0
            invariant
                orig == old(self).widgets@,
                ids_unique(orig),
                forall|j: int| 0 <= j < orig.len() ==> publication_consistent(#[trigger] orig[j]),
                forall|j: int| 0 <= j < kept@.len() ==> publication_consistent(#[trigger] kept@[j]),
                0 <= k <= orig.len(),
                rest@ == orig.skip(k),
                kept@ == orig.take(k).filter(unmatched(id@)),
                ids_unique(kept@),
                forall|a: int, b: int|
                    0 <= a < kept@.len() && 0 <= b < rest@.len() ==> kept@[a].id@ != rest@[b].id@,
                removed_active == active_match(orig, id@, k),
            decreases rest@.len(),
        {
            let ghost before = rest@;
            let w = rest.remove(0);
            proof {
                reveal_with_fuel(Seq::<_>::filter, 1);
                assert(orig.take(k + 1).drop_last() =~= orig.take(k));
                assert(orig.take(k + 1).last() == orig[k]);
                assert(rest@ =~= orig.skip(k + 1));
                assert(w == orig[k]);
                assert forall|a: int, b: int| 0 <= a < b < rest@.len() implies rest@[a].id@
                    != rest@[b].id@ by {
                    assert(rest@[a] == orig[k + 1 + a]);
                    assert(rest@[b] == orig[k + 1 + b]);
                }
            }
            if matches_widget_id(w.id.as_str(), id) {
                if w.is_active {
                    removed_active = true;
                }
            } else {
                proof {
                    assert forall|a: int| 0 <= a < kept@.len() implies kept@[a].id@ != w.id@ by {
                        assert(before[0] == w);
                    }
                }
                kept.push(w);
            }
            proof {
                assert forall|a: int, b: int|
                    0 <= a < kept@.len() && 0 <= b < rest@.len() implies kept@[a].id@
                    != rest@[b].id@ by {
                    assert(rest@[b] == before[b + 1]);
                    if a == kept@.len() - 1 && !widget_ids_match(w.id@, id@) {
                        assert(before[0].id@ != before[b + 1].id@) by {
                            assert(before[0] == orig[k]);
                            assert(before[b + 1] == orig[k + 1 + b]);
                        }
                    }
                }
                if active_match(orig, id@, k + 1) && !active_match(orig, id@, k) {
                    let j = choose|j: int|
                        0 <= j < k + 1 && widget_ids_match(orig[j].id@, id@) && orig[j].is_active;
                    assert(j == k);
                }
                k = k + 1;
            }
        }
        proof {
            assert(orig.take(k) =~= orig);
        }
        self.widgets = kept;
        if removed_active && self.active_count > 0 {
            self.active_count = self.active_count - 1;
        }
        if self.widgets.len() == 0 {
            self.last_empty_at = Some(now());
        }
    }

    /// Marks every widget whose id matches `id` inactive (the `Deactivate`
    /// callback): each goes through `deactivated_widget` with the time since
    /// its customization request, read from the clock. A widget whose
    /// customization was requested within the flyout transition window keeps
    /// its customization state; every other one gets its live card back. The
    /// active count drops by one when one of them was active.
    pub fn deactivate(&mut self, id: &str)
        requires
            old(self).wf(),
        ensures
            final(self).wf(),
            final(self).widgets@.len() == old(self).widgets@.len(),
            forall|j: int|
                0 <= j < old(self).widgets@.len() ==> if widget_ids_match(
                    #[trigger] old(self).widgets@[j].id@,
                    id@,
                ) {
                    deactivated(old(self).widgets@[j], final(self).widgets@[j])
                } else {
                    final(self).widgets@[j] == old(self).widgets@[j]
                },
            final(self).active_count == count_after_removal(
                old(self).active_count,
                active_match(old(self).widgets@, id@, old(self).widgets@.len() as int),
            ),
            final(self).has_had_widgets == old(self).has_had_widgets,
            final(self).last_empty_at == old(self).last_empty_at,
    {
        let mut became_inactive = false;
        let mut i: usize = 0;
        while i < self.widgets.len()
            invariant
                self.widgets@.len() == old(self).widgets@.len(),
                i <= self.widgets@.len(),
                forall|j: int|
                    0 <= j < self.widgets@.len() ==> self.widgets@[j].id@ == old(self).widgets@[j].id@,
                forall|j: int|
                    0 <= j < i ==> if widget_ids_match(#[trigger] old(self).widgets@[j].id@, id@) {
                        deactivated(old(self).widgets@[j], self.widgets@[j])
                    } else {
                        self.widgets@[j] == old(self).widgets@[j]
                    },
                forall|j: int| i <= j < self.widgets@.len() ==> self.widgets@[j] == old(self).widgets@[j],
                became_inactive == active_match(old(self).widgets@, id@, i as int),
                self.active_count == old(self).active_count,
                self.has_had_widgets == old(self).has_had_widgets,
                self.last_empty_at == old(self).last_empty_at,
            decreases self.widgets@.len() - i,
        {
            if matches_widget_id(self.widgets[i].id.as_str(), id) {
                let since = since_request(&self.widgets[i].customization_requested_at);
                if self.widgets[i].is_active {
                    became_inactive = true;
                }
                let ghost before = self.widgets@;
                let w = self.widgets.remove(i);
                let w2 = deactivated_widget(w, since);
                self.widgets.insert(i, w2);
                proof {
                    assert(self.widgets@ =~= before.update(i as int, w2));
                    assert(deactivated(old(self).widgets@[i as int], self.widgets@[i as int]));
                }
            }
            proof {
                if active_match(old(self).widgets@, id@, i + 1) && !active_match(
                    old(self).widgets@,
                    id@,
                    i as int,
                ) {
                    let j = choose|j: int|
                        0 <= j < i + 1 && widget_ids_match(old(self).widgets@[j].id@, id@)
                            && old(self).widgets@[j].is_active;
                    assert(j == i);
                }
            }
            i = i + 1;
        }
        if became_inactive && self.active_count > 0 {
            self.active_count = self.active_count - 1;
        }
    }

    /// The widget a card push for `id` lands on (see `resolve_target`), with
    /// what decides its card, or `None` when the push is ignored.
    pub fn card_target(&self, id: &str) -> (r: Option<CardTarget<P>>)
        ensures
            match resolve_target(self.widgets@, id@) {
                None => r is None,
                Some(i) => r matches Some(t) && {
                    let w = self.widgets@[i];
                    &&& t.actual_id@ == w.id@
                    &&& t.size == w.size
                    &&& config_copy(w.custom_state, t.config)
                    &&& t.in_customization == w.in_customization
                    &&& t.template_kind == w.template_kind
                },
            },
    {
        match self.resolve(id) {
            None => None,
            Some(i) => {
                let w = &self.widgets[i];
                Some(
                    CardTarget {
                        actual_id: w.id.clone(),
                        size: w.size,
                        config: w.custom_state.clone(),
                        in_customization: w.in_customization,
                        template_kind: w.template_kind,
                    },
                )
            },
        }
    }

    /// The worker's copies of the active widgets, in registry order.
    pub fn live_targets(&self) -> (r: Vec<WidgetTarget<P>>)
        ensures
            r@.len() == self.widgets@.filter(is_active_widget()).len(),
            forall|j: int|
                0 <= j < r@.len() ==> target_of(self.widgets@.filter(is_active_widget())[j], #[trigger] r@[j]),
    {
        let mut out: Vec<WidgetTarget<P>> = Vec::new();
        let mut i: usize = 0;
        assert(self.widgets@.take(0) =~= Seq::<InternalWidgetInfo<P>>::empty());
        while i < self.widgets.len()
            invariant
                i <= self.widgets@.len(),
                out@.len() == self.widgets@.take(i as int).filter(is_active_widget()).len(),
                forall|j: int|
                    0 <= j < out@.len() ==> target_of(
                        self.widgets@.take(i as int).filter(is_active_widget())[j],
                        #[trigger] out@[j],
                    ),
            decreases self.widgets@.len() - i,
        {
            proof {
                reveal_with_fuel(Seq::<_>::filter, 1);
                assert(self.widgets@.take(i + 1).drop_last() =~= self.widgets@.take(i as int));
            }
            let w = &self.widgets[i];
            if w.is_active {
                let json = match &w.last_data_json {
                    Some(s) => Some(s.clone()),
                    None => None,
                };
                out.push(
                    WidgetTarget {
                        id: w.id.clone(),
                        size: w.size,
                        config: w.custom_state.clone(),
                        template_kind: w.template_kind,
                        in_customization: w.in_customization,
                        last_data_hash: w.last_data_hash,
                        last_data_json: json,
                        last_data_published_at: w.last_data_published_at,
                        force_data_publish: w.force_data_publish,
                    },
                );
            }
            i = i + 1;
        }
        proof {
            assert(self.widgets@.take(i as int) =~= self.widgets@);
        }
        out
    }


    /// Whether the provider shuts down now: it holds no widget and the time
    /// since it became empty, read from the clock, is at least the grace
    /// period (see `idle_shutdown_decision`).
    pub fn idle_shutdown_due(&self) -> (r: bool)
        ensures
            r ==> self.widgets@.len() == 0 && self.last_empty_at is Some,
            exists|since: Option<u128>|
                (since is Some) == (self.last_empty_at is Some) && r == #[trigger] self.shuts_down_after(
                    since,
                ),
    {
        let since = since_request(&self.last_empty_at);
        self.idle_shutdown_after(since)
    }

    /// Whether the provider shuts down, given how long ago, in nanoseconds, it
    /// became empty (`None` when no time is recorded).
    pub fn idle_shutdown_after(&self, since: Option<u128>) -> (r: bool)
        ensures
            r == self.shuts_down_after(since),
    {
        idle_shutdown_decision(self.widgets.len() == 0, self.has_had_widgets, since)
    }

}

} // verus!
