//! The decisions of one tick of the orchestration loop.
//!
//! Each tick asks the schedule resolver for a fresh snapshot. On success
//! the snapshot is processed and the poll cadence adapted; on failure the
//! legacy timestamp comparison takes the resolver's place at the base
//! cadence. A fetched video list reaches the sync state only when its
//! fetch fully succeeded, and the player is restarted exactly when
//! content changed or its subprocess died. The surrounding binary runs
//! the loop: it performs each decided action and feeds the outcome back,
//! so no single failed tick ends the loop.

use crate::ids::PlaylistId;
use crate::schedule::{ScheduleSnapshot, BASE_POLL_INTERVAL_SECS};
use crate::sync_state::{
    spec_apply_legacy_sync, spec_apply_playlist_sync, spec_legacy_update_needed,
    spec_process_snapshot, spec_snapshot_directives, SyncState, SyncStateModel,
};
use crate::videos::Video;
use vstd::prelude::*;

verus! {

/// Seconds the loop settles after a player check before the next tick,
/// bounding respawn churn.
pub const SETTLE_DELAY_SECS: u64 = 10;

/// Seconds between readiness probes while the remote endpoint is down.
pub const HEALTH_RETRY_SECS: u64 = 1;

/// Seconds the startup probe backs off after the endpoint reported an
/// internal error.
pub const HEALTH_BACKOFF_SECS: u64 = 120;

/// Why the schedule resolver failed.
#[derive(Clone, Copy, PartialEq, Eq, Structural, Debug)]
pub enum ScheduleError {
    /// The endpoint could not be reached in time.
    TransportError,
    /// The endpoint answered, but with a bad status or a malformed body.
    ProtocolError,
}

/// Why a content fetch or its local application failed.
#[derive(Clone, Copy, PartialEq, Eq, Structural, Debug)]
pub enum ContentError {
    /// The video list could not be retrieved.
    FetchError,
    /// The local filesystem failed while writing the manifest or assets.
    IoError,
}

/// Which update source this tick runs on.
#[derive(Clone, Copy, PartialEq, Eq, Structural, Debug)]
pub enum SyncDecision {
    /// Fetch and apply this playlist's videos.
    SyncPlaylist(PlaylistId),
    /// The resolver failed: probe the legacy sync endpoint instead.
    LegacyProbe,
    /// Nothing to fetch this tick.
    NoSync,
}

/// What one tick does after the schedule phase.
#[derive(Clone, Copy, PartialEq, Eq, Structural, Debug)]
pub struct TickPlan {
    /// The content work this tick performs.
    pub sync: SyncDecision,
    /// Whether pending update flags are acknowledged, best effort.
    pub acknowledge: bool,
    /// The cadence until the next tick, in seconds.
    pub poll_secs: u64,
}

/// The plan the schedule phase yields: on a fresh snapshot, the resolved
/// transition at the adaptive cadence; on a resolver failure, the legacy
/// probe at the base cadence.
pub open spec fn spec_schedule_phase_plan(
    m: SyncStateModel,
    fetched: Result<ScheduleSnapshot, ScheduleError>,
    now: i64,
) -> TickPlan {
    match fetched {
        Ok(snap) => TickPlan {
            sync: match spec_snapshot_directives(m, snap).sync_target {
                Some(target) => SyncDecision::SyncPlaylist(target),
                None => SyncDecision::NoSync,
            },
            acknowledge: spec_snapshot_directives(m, snap).acknowledge,
            poll_secs: crate::schedule::spec_poll_interval(snap, now),
        },
        Err(_) => TickPlan {
            sync: SyncDecision::LegacyProbe,
            acknowledge: false,
            poll_secs: BASE_POLL_INTERVAL_SECS,
        },
    }
}

/// The state after the schedule phase: refreshed from the snapshot where
/// one arrived, untouched where the resolver failed.
pub open spec fn spec_schedule_phase_state(
    m: SyncStateModel,
    fetched: Result<ScheduleSnapshot, ScheduleError>,
) -> SyncStateModel {
    match fetched {
        Ok(snap) => spec_process_snapshot(m, snap),
        Err(_) => m,
    }
}

/// Runs the schedule phase of one tick on the resolver's outcome: a
/// failed resolution never ends the loop, it only reroutes the tick to
/// the legacy source.
pub fn schedule_phase(
    state: &mut SyncState,
    fetched: Result<ScheduleSnapshot, ScheduleError>,
    now: i64,
) -> (plan: TickPlan)
    ensures
        final(state)@ == spec_schedule_phase_state(old(state)@, fetched),
        plan == spec_schedule_phase_plan(old(state)@, fetched, now),
        final(state)@.well_formed() == old(state)@.well_formed(),
{
    match fetched {
        Ok(snap) => {
            let directives = state.process_snapshot(&snap);
            let poll_secs = crate::schedule::calculate_poll_interval(&snap, now);
            TickPlan {
                sync: match directives.sync_target {
                    Some(target) => SyncDecision::SyncPlaylist(target),
                    None => SyncDecision::NoSync,
                },
                acknowledge: directives.acknowledge,
                poll_secs,
            }
        },
        Err(_) => TickPlan {
            sync: SyncDecision::LegacyProbe,
            acknowledge: false,
            poll_secs: BASE_POLL_INTERVAL_SECS,
        },
    }
}

/// Whether the legacy probe's answer calls for a full resync: the server
/// reports a newer instant (or nothing was ever applied), or a content
/// refresh stands requested.
pub open spec fn spec_legacy_sync_needed(m: SyncStateModel, server_updated: Option<i64>) -> bool {
    spec_legacy_update_needed(server_updated, m.last_update) || m.update_content_requested
}

/// Decides the legacy phase from the probe's reported instant.
pub fn legacy_phase(state: &SyncState, server_updated: Option<i64>) -> (do_sync: bool)
    ensures
        do_sync == spec_legacy_sync_needed(state@, server_updated),
{
    state.legacy_update_needed(server_updated) || state.update_content_requested
}

/// Applies the outcome of a playlist fetch: on success the state takes
/// the videos and the tick counts as a content update; on failure the
/// state is left untouched — no partial commit — and the next tick
/// retries.
pub fn apply_playlist_outcome(
    state: &mut SyncState,
    target: PlaylistId,
    fetched: Result<Vec<Video>, ContentError>,
    now: i64,
) -> (updated: bool)
    ensures
        fetched matches Ok(v) ==> updated && final(state)@ == spec_apply_playlist_sync(
            old(state)@,
            target,
            v@,
            now,
        ) && final(state)@.well_formed(),
        fetched is Err ==> !updated && final(state)@ == old(state)@,
{
    match fetched {
        Ok(videos) => {
            state.apply_playlist_sync(target, videos, now);
            true
        },
        Err(_) => false,
    }
}

/// Applies the outcome of a legacy full resync in the same way: success
/// commits, failure leaves the last-known-good state.
pub fn apply_legacy_outcome(
    state: &mut SyncState,
    fetched: Result<Vec<Video>, ContentError>,
    server_updated: Option<i64>,
) -> (updated: bool)
    ensures
        fetched matches Ok(v) ==> updated && final(state)@ == spec_apply_legacy_sync(
            old(state)@,
            v@,
            server_updated,
        ) && final(state)@.well_formed(),
        fetched is Err ==> !updated && final(state)@ == old(state)@,
{
    match fetched {
        Ok(videos) => {
            state.apply_legacy_sync(videos, server_updated);
            true
        },
        Err(_) => false,
    }
}

/// The player is restarted exactly when content changed (the player
/// cannot reload in place) or its subprocess died.
pub open spec fn spec_should_restart_player(content_updated: bool, player_alive: bool) -> bool {
    content_updated || !player_alive
}

/// Decides the player phase of one tick.
pub fn should_restart_player(content_updated: bool, player_alive: bool) -> (r: bool)
    ensures
        r == spec_should_restart_player(content_updated, player_alive),
{
    content_updated || !player_alive
}

/// What the startup readiness probe does with one answer.
#[derive(Clone, Copy, PartialEq, Eq, Structural, Debug)]
pub enum HealthProbeAction {
    /// The endpoint is ready: startup proceeds.
    Proceed,
    /// No usable answer yet: probe again shortly.
    RetryShortly,
    /// The endpoint reported an internal error: back off before probing
    /// again.
    BackOff,
}

/// Decides the readiness probe from the endpoint's status, if any
/// answer arrived at all.
pub fn health_probe_action(status: Option<u16>) -> (a: HealthProbeAction)
    ensures
        status == Some(200u16) ==> a is Proceed,
        status == Some(500u16) ==> a is BackOff,
        !(status == Some(200u16)) && !(status == Some(500u16)) ==> a is RetryShortly,
{
    match status {
        Some(200u16) => HealthProbeAction::Proceed,
        Some(500u16) => HealthProbeAction::BackOff,
        _ => HealthProbeAction::RetryShortly,
    }
}

/// The operating-system signals the loop listens for.
#[derive(Clone, Copy, PartialEq, Eq, Structural, Debug)]
pub enum AgentSignal {
    /// Termination request.
    Terminate,
    /// Keyboard interrupt.
    Interrupt,
    /// Reload request.
    Hangup,
}

/// How the loop answers a signal.
#[derive(Clone, Copy, PartialEq, Eq, Structural, Debug)]
pub enum SignalAction {
    /// Kill the player, then exit the process with status 0.
    KillPlayerAndExit,
    /// Re-read configuration and sync state; the loop and the player
    /// keep running.
    ReloadConfigAndState,
}

/// Decides the loop's answer to a signal: termination and interrupt end
/// the process after the player is killed, a hangup only reloads.
pub fn signal_action(signal: AgentSignal) -> (a: SignalAction)
    ensures
        signal is Terminate ==> a is KillPlayerAndExit,
        signal is Interrupt ==> a is KillPlayerAndExit,
        signal is Hangup ==> a is ReloadConfigAndState,
{
    match signal {
        AgentSignal::Terminate => SignalAction::KillPlayerAndExit,
        AgentSignal::Interrupt => SignalAction::KillPlayerAndExit,
        AgentSignal::Hangup => SignalAction::ReloadConfigAndState,
    }
}

/// After a successful content pass, the manifest lists exactly the videos
/// the sync state holds, one entry per video in manifest order — the
/// state's videos being the fetched ones, sorted. The manifest is written
/// from this very state, so the two cannot drift apart; which files then
/// survive the prune is stated by
/// [`crate::manifest::lemma_prune_keeps_exactly_referenced`].
pub proof fn lemma_sync_pass_manifest_matches_state(
    m: SyncStateModel,
    target: PlaylistId,
    fetched: Seq<Video>,
    now: i64,
    dir: Seq<char>,
)
    ensures
        ({
            let after = spec_apply_playlist_sync(m, target, fetched, now);
            let entries = crate::manifest::spec_manifest_entries(after.videos, dir);
            &&& entries.len() == after.videos.len()
            &&& forall|i: int|
                0 <= i < entries.len() ==> entries[i] == dir + after.videos[i].asset_name@
            &&& crate::videos::sorted_by_order(after.videos)
            &&& after.videos.to_multiset() == fetched.to_multiset()
        }),
{
    crate::videos::lemma_sort_by_order_sorts(fetched);
    crate::videos::lemma_sort_by_order_permutes(fetched);
}

/// Re-processing an identical snapshot right after its decided sync was
/// carried out (or none was due) asks for no further content fetch, and
/// with the player alive and no content change the player phase asks for
/// no respawn: a stable schedule costs nothing per tick.
pub proof fn lemma_identical_snapshot_reprocessed_is_quiet(
    m: SyncStateModel,
    snap: ScheduleSnapshot,
    fetched: Seq<Video>,
    now: i64,
)
    ensures
        ({
            let first = spec_snapshot_directives(m, snap);
            let after_process = spec_process_snapshot(m, snap);
            let after_tick = match first.sync_target {
                Some(target) => spec_apply_playlist_sync(after_process, target, fetched, now),
                None => after_process,
            };
            spec_snapshot_directives(after_tick, snap).sync_target is None
        }),
        !spec_should_restart_player(false, true),
{
}

} // verus!
