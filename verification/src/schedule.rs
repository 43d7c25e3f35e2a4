//! The schedule endpoint's response and the decisions drawn from it.
//!
//! Each poll fetches a fresh snapshot of the timeline schedule. From it the
//! resolver decides which playlist the device should show and how soon the
//! next poll is due. The snapshot is ephemeral: only its derived effects
//! reach the durable sync state.

use crate::clock::{now_timestamp, parse_optional_timestamp, spec_parse_optional_timestamp};
use crate::ids::{parse_optional_playlist_id, spec_parse_optional_playlist_id, PlaylistId};
use vstd::prelude::*;

verus! {

/// Base poll cadence, in seconds, when no schedule boundary is near.
pub const BASE_POLL_INTERVAL_SECS: u64 = 20;

/// Poll cadence when a schedule boundary is imminent.
pub const FAST_POLL_INTERVAL_SECS: u64 = 10;

/// Poll cadence when a schedule boundary is approaching.
pub const NEAR_POLL_INTERVAL_SECS: u64 = 30;

/// A boundary within this many seconds of now counts as imminent.
pub const IMMINENT_WINDOW_SECS: i64 = 300;

/// A boundary within this many seconds of now counts as approaching.
pub const APPROACHING_WINDOW_SECS: i64 = 1800;

/// Pending server-side update flags, as the schedule endpoint reports them
/// and as the acknowledgement endpoint expects them back.
#[derive(Debug)]
pub struct ClientUpdateFlagsResponse {
    pub playlist_update_needed: bool,
    pub schedule_update_needed: bool,
    pub content_update_needed: bool,
    pub layout_change: bool,
    pub current_layout: Option<String>,
    pub current_rotation: Option<i32>,
}

/// The schedule endpoint's response as the wire carries it: identities and
/// instants still in their string form.
#[derive(Debug)]
pub struct ClientTimelineScheduleResponse {
    pub active_playlist_id: Option<String>,
    pub fallback_playlist_id: Option<String>,
    pub schedule_ends_at: Option<String>,
    pub next_schedule_starts_at: Option<String>,
    pub next_playlist_id: Option<String>,
    pub update_flags: Option<ClientUpdateFlagsResponse>,
    pub layout: Option<String>,
    pub rotation: Option<i32>,
}

/// A schedule snapshot with identities and instants in parsed form: what
/// the resolver and the poll-interval rule work on. A field whose string
/// was absent or malformed is `None`.
#[derive(Debug)]
pub struct ScheduleSnapshot {
    pub active_playlist_id: Option<PlaylistId>,
    pub fallback_playlist_id: Option<PlaylistId>,
    pub schedule_ends_at: Option<i64>,
    pub next_schedule_starts_at: Option<i64>,
    pub next_playlist_id: Option<PlaylistId>,
    pub update_flags: Option<ClientUpdateFlagsResponse>,
}

/// The snapshot a raw response stands for.
pub open spec fn spec_parse_schedule_response(r: ClientTimelineScheduleResponse) -> ScheduleSnapshot {
    ScheduleSnapshot {
        active_playlist_id: spec_parse_optional_playlist_id(r.active_playlist_id),
        fallback_playlist_id: spec_parse_optional_playlist_id(r.fallback_playlist_id),
        schedule_ends_at: spec_parse_optional_timestamp(r.schedule_ends_at),
        next_schedule_starts_at: spec_parse_optional_timestamp(r.next_schedule_starts_at),
        next_playlist_id: spec_parse_optional_playlist_id(r.next_playlist_id),
        update_flags: r.update_flags,
    }
}

impl ClientTimelineScheduleResponse {
    /// Parses the identities and instants out of the raw response. A
    /// field that is absent or malformed parses to `None`, the same as a
    /// reply that carries no such schedule boundary at all.
    pub fn parse(self) -> (snap: ScheduleSnapshot)
        ensures
            snap == spec_parse_schedule_response(self),
    {
        ScheduleSnapshot {
            active_playlist_id: parse_optional_playlist_id(&self.active_playlist_id),
            fallback_playlist_id: parse_optional_playlist_id(&self.fallback_playlist_id),
            schedule_ends_at: parse_optional_timestamp(&self.schedule_ends_at),
            next_schedule_starts_at: parse_optional_timestamp(&self.next_schedule_starts_at),
            next_playlist_id: parse_optional_playlist_id(&self.next_playlist_id),
            update_flags: self.update_flags,
        }
    }
}

/// Holds when `at` is a boundary no more than `window` seconds after
/// `now` (a boundary already passed also counts: polling stays fast until
/// the server moves the schedule on).
pub open spec fn within_window(at: Option<i64>, now: i64, window: i64) -> bool {
    match at {
        Some(t) => t - now <= window,
        None => false,
    }
}

/// The poll interval a snapshot calls for at instant `now`: the first
/// matching rule wins, the next schedule's start checked before the
/// current schedule's end, the imminent window before the approaching one.
pub open spec fn spec_poll_interval(snap: ScheduleSnapshot, now: i64) -> u64 {
    if within_window(snap.next_schedule_starts_at, now, IMMINENT_WINDOW_SECS) {
        FAST_POLL_INTERVAL_SECS
    } else if within_window(snap.next_schedule_starts_at, now, APPROACHING_WINDOW_SECS) {
        NEAR_POLL_INTERVAL_SECS
    } else if within_window(snap.schedule_ends_at, now, IMMINENT_WINDOW_SECS) {
        FAST_POLL_INTERVAL_SECS
    } else if within_window(snap.schedule_ends_at, now, APPROACHING_WINDOW_SECS) {
        NEAR_POLL_INTERVAL_SECS
    } else {
        BASE_POLL_INTERVAL_SECS
    }
}

/// For every snapshot and every instant, the poll interval is one of
/// exactly three values: fast, near, or the base cadence.
pub proof fn lemma_poll_interval_three_values(snap: ScheduleSnapshot, now: i64)
    ensures
        spec_poll_interval(snap, now) == FAST_POLL_INTERVAL_SECS || spec_poll_interval(snap, now)
            == NEAR_POLL_INTERVAL_SECS || spec_poll_interval(snap, now)
            == BASE_POLL_INTERVAL_SECS,
{
}

/// Computes the poll interval a snapshot calls for at instant `now`.
pub fn calculate_poll_interval(snap: &ScheduleSnapshot, now: i64) -> (secs: u64)
    ensures
        secs == spec_poll_interval(*snap, now),
{
    if let Some(t) = snap.next_schedule_starts_at {
        let until: i128 = (t as i128) - (now as i128);
        if until <= IMMINENT_WINDOW_SECS as i128 {
            return FAST_POLL_INTERVAL_SECS;
        }
        if until <= APPROACHING_WINDOW_SECS as i128 {
            return NEAR_POLL_INTERVAL_SECS;
        }
    }
    if let Some(t) = snap.schedule_ends_at {
        let until: i128 = (t as i128) - (now as i128);
        if until <= IMMINENT_WINDOW_SECS as i128 {
            return FAST_POLL_INTERVAL_SECS;
        }
        if until <= APPROACHING_WINDOW_SECS as i128 {
            return NEAR_POLL_INTERVAL_SECS;
        }
    }
    BASE_POLL_INTERVAL_SECS
}

/// Computes the poll interval against the clock's present reading. Of the
/// hidden reading only this much can be said: the result is one of the
/// three cadences, and a snapshot without boundaries always polls at base.
pub fn current_poll_interval(snap: &ScheduleSnapshot) -> (secs: u64)
    ensures
        secs == FAST_POLL_INTERVAL_SECS || secs == NEAR_POLL_INTERVAL_SECS || secs
            == BASE_POLL_INTERVAL_SECS,
        snap.next_schedule_starts_at is None && snap.schedule_ends_at is None ==> secs
            == BASE_POLL_INTERVAL_SECS,
{
    let now = now_timestamp();
    calculate_poll_interval(snap, now)
}

/// The playlist the snapshot wants shown: the active one if the schedule
/// names one, else the fallback, else none.
pub open spec fn spec_desired_playlist(snap: ScheduleSnapshot) -> Option<PlaylistId> {
    if snap.active_playlist_id is Some {
        snap.active_playlist_id
    } else {
        snap.fallback_playlist_id
    }
}

/// What the resolver decides for one snapshot against the playlist the
/// device currently shows.
#[derive(Clone, Copy, PartialEq, Eq, Structural, Debug)]
pub struct PlaylistTransition {
    /// Whether the desired playlist differs from the current one.
    pub changed: bool,
    /// The playlist to synchronize now, if any.
    pub sync_target: Option<PlaylistId>,
    /// The current playlist after the transition: the desired one where a
    /// sync is due, else unchanged — a schedule naming no playlist leaves
    /// the last known content playing.
    pub new_current: Option<PlaylistId>,
}

/// The transition a snapshot calls for: sync the desired playlist exactly
/// where it differs from the current one and the schedule names one.
pub open spec fn spec_resolve_playlist_transition(
    current: Option<PlaylistId>,
    snap: ScheduleSnapshot,
) -> PlaylistTransition {
    let desired = spec_desired_playlist(snap);
    let changed = desired != current;
    PlaylistTransition {
        changed,
        sync_target: if changed && desired is Some {
            desired
        } else {
            None
        },
        new_current: if changed && desired is Some {
            desired
        } else {
            current
        },
    }
}

/// Compares two optional playlist identities.
fn playlist_ids_equal(a: Option<PlaylistId>, b: Option<PlaylistId>) -> (r: bool)
    ensures
        r == (a == b),
{
    match (a, b) {
        (None, None) => true,
        (Some(x), Some(y)) => x.0 == y.0,
        _ => false,
    }
}

/// Decides the playlist transition for one snapshot: which playlist to
/// synchronize, and what the current playlist becomes.
pub fn resolve_playlist_transition(current: Option<PlaylistId>, snap: &ScheduleSnapshot) -> (t:
    PlaylistTransition)
    ensures
        t == spec_resolve_playlist_transition(current, *snap),
{
    let desired = if snap.active_playlist_id.is_some() {
        snap.active_playlist_id
    } else {
        snap.fallback_playlist_id
    };
    let changed = !playlist_ids_equal(desired, current);
    PlaylistTransition {
        changed,
        sync_target: if changed && desired.is_some() {
            desired
        } else {
            None
        },
        new_current: if changed && desired.is_some() {
            desired
        } else {
            current
        },
    }
}

/// The body of the best-effort acknowledgement: every flag asked back to
/// false. Failure to deliver it is logged, not retried within the tick;
/// the server re-reports the flags on the next poll if they still stand.
pub fn acknowledgement_flags() -> (f: ClientUpdateFlagsResponse)
    ensures
        !f.playlist_update_needed,
        !f.schedule_update_needed,
        !f.content_update_needed,
        !f.layout_change,
        f.current_layout is None,
        f.current_rotation is None,
{
    ClientUpdateFlagsResponse {
        playlist_update_needed: false,
        schedule_update_needed: false,
        content_update_needed: false,
        layout_change: false,
        current_layout: None,
        current_rotation: None,
    }
}

} // verus!
