//! When telemetry data is sent to the widget host: payload identity, the
//! heartbeat for unchanged payloads, and the adaptive publication cadence.
use std::collections::hash_map::DefaultHasher;
use std::hash::Hasher;
use std::time::{Duration, Instant};
use vstd::prelude::*;
use vstd::std_specs::hash::DefaultHasherAdditionalSpecFns;

use crate::clock::{duration_nanos, elapsed_nanos};
use crate::text::str_eq;

verus! {

/// Longest time, in nanoseconds (15 s), for which an unchanged data payload is
/// held back before it is published again anyway.
pub const REDUNDANT_UPDATE_HEARTBEAT_NANOS: u128 = 15_000_000_000;

/// Cadence, in nanoseconds (1.5 s), below which a fresh burst of traffic is
/// published as soon as the cadence has passed since the last publication.
pub const TRAFFIC_SPIKE_CADENCE_NANOS: u128 = 1_500_000_000;

/// The 64-bit hash of a payload: what std's `DefaultHasher` gives for the
/// string, that is for its UTF-8 bytes followed by the byte `0xff`.
pub open spec fn payload_hash(data: Seq<char>) -> u64 {
    DefaultHasher::spec_finish(seq![vstd::utf8::encode_utf8(data), seq![0xffu8]])
}

/// Computes a fast 64-bit hash of a serialized data payload.
///
/// A `str` hashes as its bytes followed by `0xff`; those two writes are made
/// here one after the other on a fresh `DefaultHasher`.
pub fn compute_payload_hash(data: &str) -> (h: u64)
    ensures
        h == payload_hash(data@),
{
    let mut hasher = DefaultHasher::new();
    hasher.write(data.as_bytes());
    let tail: [u8; 1] = [0xffu8];
    hasher.write(tail.as_slice());
    proof {
        assert(tail@ =~= seq![0xffu8]);
        assert(hasher@ =~= seq![vstd::utf8::encode_utf8(data@), seq![0xffu8]]);
    }
    hasher.finish()
}

/// The payload about to be sent is the one last published: same hash and the
/// very same characters.
pub open spec fn payload_unchanged(
    current_hash: u64,
    current_json: Seq<char>,
    last_hash: Option<u64>,
    last_json: Option<Seq<char>>,
) -> bool {
    last_hash == Some(current_hash) && last_json == Some(current_json)
}

/// A payload is published when forced, when it differs from the last one, when
/// the last one has no publication time, or when the heartbeat has passed since
/// the last publication (`since_publish`, in nanoseconds).
pub open spec fn publish_due(force: bool, unchanged: bool, since_publish: Option<u128>) -> bool {
    force || !unchanged || match since_publish {
        None => true,
        Some(e) => e >= REDUNDANT_UPDATE_HEARTBEAT_NANOS,
    }
}

/// Decides whether a data payload is published, given how long ago, in
/// nanoseconds, the last one was (`None` when it has no publication time).
pub fn publish_decision(
    force: bool,
    current_hash: u64,
    current_json: &str,
    last_hash: Option<u64>,
    last_json: Option<&str>,
    since_publish_nanos: Option<u128>,
) -> (r: bool)
    ensures
        r == publish_due(
            force,
            payload_unchanged(
                current_hash,
                current_json@,
                last_hash,
                match last_json {
                    Some(s) => Some(s@),
                    None => None,
                },
            ),
            since_publish_nanos,
        ),
{
    if force {
        return true;
    }
    match (last_hash, last_json) {
        (Some(lh), Some(lj)) => {
            if lh == current_hash && str_eq(lj, current_json) {
                match since_publish_nanos {
                    Some(e) => e >= REDUNDANT_UPDATE_HEARTBEAT_NANOS,
                    None => true,
                }
            } else {
                true
            }
        },
        _ => true,
    }
}

/// Determines whether dynamic telemetry data should be published to the widget
/// host.
///
/// Publishes when `force` is set, when the payload differs from the last one
/// (hash or characters), or when the last one has no publication time; an
/// unchanged payload is otherwise published only once the heartbeat has passed
/// since `last_published_at`, which is read from the clock.
pub fn should_publish_data(
    force: bool,
    current_hash: u64,
    current_json: &str,
    last_hash: Option<u64>,
    last_json: Option<&str>,
    last_published_at: Option<Instant>,
) -> (r: bool)
    ensures
        (force || !payload_unchanged(
            current_hash,
            current_json@,
            last_hash,
            match last_json {
                Some(s) => Some(s@),
                None => None,
            },
        ) || last_published_at is None) ==> r,
{
    let since = match &last_published_at {
        Some(t) => Some(elapsed_nanos(t)),
        None => None,
    };
    publish_decision(force, current_hash, current_json, last_hash, last_json, since)
}

/// The publication cadence has come: a user interaction forces it, the
/// adaptive interval has passed since the last generation, or the interval is
/// below the traffic-spike cadence and has passed since the last publication.
/// All spans are in nanoseconds.
pub open spec fn cadence_due(
    force_ui: bool,
    interval: u128,
    since_generation: u128,
    since_publish: u128,
) -> bool {
    force_ui || since_generation >= interval || (interval < TRAFFIC_SPIKE_CADENCE_NANOS
        && since_publish >= interval)
}

/// Decides whether the publication cadence has come, from the adaptive interval
/// and the times since the last generation and the last publication, all in
/// nanoseconds.
pub fn publication_cadence_decision(
    force_ui: bool,
    interval_nanos: u128,
    since_generation_nanos: u128,
    since_publish_nanos: u128,
) -> (r: bool)
    ensures
        r == cadence_due(force_ui, interval_nanos, since_generation_nanos, since_publish_nanos),
{
    if force_ui {
        return true;
    }
    let traffic_spiked = interval_nanos < TRAFFIC_SPIKE_CADENCE_NANOS && since_publish_nanos
        >= interval_nanos;
    since_generation_nanos >= interval_nanos || traffic_spiked
}

/// Determines whether the adaptive data publication cadence has elapsed or
/// should be bypassed: `force_ui` bypasses it at once; otherwise the times since
/// `last_generation_at` and `last_data_published_at` are read from the clock and
/// judged by `publication_cadence_decision`.
pub fn is_publication_cadence_due(
    force_ui: bool,
    adaptive_interval: Duration,
    last_generation_at: Instant,
    last_data_published_at: Instant,
) -> (r: bool)
    ensures
        force_ui ==> r,
{
    if force_ui {
        return true;
    }
    let interval = duration_nanos(&adaptive_interval);
    let since_publish = elapsed_nanos(&last_data_published_at);
    let since_generation = elapsed_nanos(&last_generation_at);
    publication_cadence_decision(false, interval, since_generation, since_publish)
}

/// Equal payloads hash alike.
pub proof fn lemma_payload_hash_consistent(a: Seq<char>, b: Seq<char>)
    requires
        a == b,
    ensures
        payload_hash(a) == payload_hash(b),
{
}

/// The publication rules: a forced payload is always published, a changed one
/// always, an unchanged one once the heartbeat has passed, and an unchanged one
/// that is not forced is held back while the heartbeat has not passed.
pub proof fn lemma_publish_rules(force: bool, unchanged: bool, since_publish: Option<u128>)
    ensures
        force ==> publish_due(force, unchanged, since_publish),
        !unchanged ==> publish_due(force, unchanged, since_publish),
        (since_publish matches Some(e) && e >= REDUNDANT_UPDATE_HEARTBEAT_NANOS) ==> publish_due(
            force,
            unchanged,
            since_publish,
        ),
        (!force && unchanged && (since_publish matches Some(e) && e
            < REDUNDANT_UPDATE_HEARTBEAT_NANOS)) ==> !publish_due(force, unchanged, since_publish),
{
}

/// The cadence rules: a user interaction publishes at once; a fast cadence
/// (below the traffic-spike cadence) publishes as soon as it has passed since
/// the last publication; any cadence publishes once it has passed since the
/// last generation; and a slow cadence that has not passed since the last
/// generation waits, whatever the time since the last publication.
pub proof fn lemma_cadence_rules(
    force_ui: bool,
    interval: u128,
    since_generation: u128,
    since_publish: u128,
)
    ensures
        force_ui ==> cadence_due(force_ui, interval, since_generation, since_publish),
        since_generation >= interval ==> cadence_due(force_ui, interval, since_generation, since_publish),
        (interval < TRAFFIC_SPIKE_CADENCE_NANOS && since_publish >= interval) ==> cadence_due(
            force_ui,
            interval,
            since_generation,
            since_publish,
        ),
        (!force_ui && interval >= TRAFFIC_SPIKE_CADENCE_NANOS && since_generation < interval) ==> !cadence_due(
            force_ui,
            interval,
            since_generation,
            since_publish,
        ),
{
}

} // verus!
