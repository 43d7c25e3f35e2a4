//! The durable sync state and the two ways it changes.
//!
//! The state records the last successfully applied playlist and its
//! videos. Schedule metadata is refreshed from every snapshot, but the
//! videos, the applied playlist and the update timestamp move only when a
//! fetch has fully succeeded: a failed fetch leaves the state at its
//! last-known-good value, and the next tick retries from scratch.

use crate::ids::PlaylistId;
use crate::schedule::{
    resolve_playlist_transition, spec_resolve_playlist_transition, ScheduleSnapshot,
};
use crate::videos::{sort_by_order, sort_videos, sorted_by_order, Video};
use vstd::prelude::*;

verus! {

/// The durable record of what the device shows: the videos of the last
/// successfully applied playlist, and the schedule metadata of the last
/// processed snapshot.
#[derive(Debug)]
pub struct SyncState {
    /// The applied playlist's videos, in manifest order.
    pub videos: Vec<Video>,
    /// When content was last applied: epoch seconds, `None` before the
    /// first successful sync.
    pub last_update: Option<i64>,
    /// The playlist the videos were fetched for.
    pub current_playlist: Option<PlaylistId>,
    /// When the active schedule ends, from the last snapshot.
    pub active_schedule_ends: Option<i64>,
    /// When the next schedule starts, from the last snapshot.
    pub next_schedule_starts: Option<i64>,
    /// The playlist the next schedule will show, from the last snapshot.
    pub next_playlist_id: Option<PlaylistId>,
    /// The playlist to show when no schedule is active, from the last
    /// snapshot.
    pub fallback_playlist_id: Option<PlaylistId>,
    /// Whether the server has asked for a content refresh that is not yet
    /// applied.
    pub update_content_requested: bool,
}

/// The mathematical shadow of [`SyncState`].
pub ghost struct SyncStateModel {
    pub videos: Seq<Video>,
    pub last_update: Option<i64>,
    pub current_playlist: Option<PlaylistId>,
    pub active_schedule_ends: Option<i64>,
    pub next_schedule_starts: Option<i64>,
    pub next_playlist_id: Option<PlaylistId>,
    pub fallback_playlist_id: Option<PlaylistId>,
    pub update_content_requested: bool,
}

impl View for SyncState {
    type V = SyncStateModel;

    open spec fn view(&self) -> SyncStateModel {
        SyncStateModel {
            videos: self.videos@,
            last_update: self.last_update,
            current_playlist: self.current_playlist,
            active_schedule_ends: self.active_schedule_ends,
            next_schedule_starts: self.next_schedule_starts,
            next_playlist_id: self.next_playlist_id,
            fallback_playlist_id: self.fallback_playlist_id,
            update_content_requested: self.update_content_requested,
        }
    }
}

impl SyncStateModel {
    /// The state on first run: nothing applied yet.
    pub open spec fn empty() -> SyncStateModel {
        SyncStateModel {
            videos: Seq::empty(),
            last_update: None,
            current_playlist: None,
            active_schedule_ends: None,
            next_schedule_starts: None,
            next_playlist_id: None,
            fallback_playlist_id: None,
            update_content_requested: false,
        }
    }

    /// The state is well formed when its videos stand in manifest order;
    /// every mutation below keeps them so.
    pub open spec fn well_formed(self) -> bool {
        sorted_by_order(self.videos)
    }
}

/// What one processed snapshot asks the loop to do next.
#[derive(Clone, Copy, PartialEq, Eq, Structural, Debug)]
pub struct SnapshotDirectives {
    /// The playlist to fetch and apply now, if any.
    pub sync_target: Option<PlaylistId>,
    /// Whether pending update flags should be acknowledged.
    pub acknowledge: bool,
}

/// The state after a snapshot is processed: schedule metadata refreshed,
/// content fields untouched.
pub open spec fn spec_process_snapshot(m: SyncStateModel, snap: ScheduleSnapshot) -> SyncStateModel {
    SyncStateModel {
        active_schedule_ends: snap.schedule_ends_at,
        next_schedule_starts: snap.next_schedule_starts_at,
        next_playlist_id: snap.next_playlist_id,
        fallback_playlist_id: snap.fallback_playlist_id,
        ..m
    }
}

/// The directives a snapshot yields against a given current playlist.
pub open spec fn spec_snapshot_directives(m: SyncStateModel, snap: ScheduleSnapshot) -> SnapshotDirectives {
    SnapshotDirectives {
        sync_target: spec_resolve_playlist_transition(m.current_playlist, snap).sync_target,
        acknowledge: snap.update_flags is Some,
    }
}

/// The state after a playlist's fetched videos are applied: the videos in
/// manifest order, the playlist recorded as current, the update instant
/// set, the refresh request cleared.
pub open spec fn spec_apply_playlist_sync(
    m: SyncStateModel,
    target: PlaylistId,
    fetched: Seq<Video>,
    now: i64,
) -> SyncStateModel {
    SyncStateModel {
        videos: sort_by_order(fetched),
        last_update: Some(now),
        current_playlist: Some(target),
        update_content_requested: false,
        ..m
    }
}

/// The state after a legacy full resync is applied: the videos in
/// manifest order, the server's reported instant recorded, the refresh
/// request cleared, the current playlist left as it was (the legacy
/// endpoint has no playlist identity).
pub open spec fn spec_apply_legacy_sync(
    m: SyncStateModel,
    fetched: Seq<Video>,
    server_updated: Option<i64>,
) -> SyncStateModel {
    SyncStateModel {
        videos: sort_by_order(fetched),
        last_update: server_updated,
        update_content_requested: false,
        ..m
    }
}

/// Whether the legacy comparison calls for a full resync: the server
/// reports an instant, and either nothing was ever applied locally or the
/// server's instant is strictly newer.
pub open spec fn spec_legacy_update_needed(
    server_updated: Option<i64>,
    last_update: Option<i64>,
) -> bool {
    match server_updated {
        Some(t) => match last_update {
            Some(l) => t > l,
            None => true,
        },
        None => false,
    }
}

impl SyncState {
    /// The state on first run: nothing applied yet.
    pub fn new() -> (s: SyncState)
        ensures
            s@ == SyncStateModel::empty(),
            s@.well_formed(),
    {
        SyncState {
            videos: Vec::new(),
            last_update: None,
            current_playlist: None,
            active_schedule_ends: None,
            next_schedule_starts: None,
            next_playlist_id: None,
            fallback_playlist_id: None,
            update_content_requested: false,
        }
    }

    /// Processes one schedule snapshot: refreshes the schedule metadata
    /// and decides what the loop does next. Content fields are untouched;
    /// they move only when the decided fetch succeeds.
    pub fn process_snapshot(&mut self, snap: &ScheduleSnapshot) -> (d: SnapshotDirectives)
        ensures
            final(self)@ == spec_process_snapshot(old(self)@, *snap),
            d == spec_snapshot_directives(old(self)@, *snap),
            final(self)@.well_formed() == old(self)@.well_formed(),
    {
        let transition = resolve_playlist_transition(self.current_playlist, snap);
        self.active_schedule_ends = snap.schedule_ends_at;
        self.next_schedule_starts = snap.next_schedule_starts_at;
        self.next_playlist_id = snap.next_playlist_id;
        self.fallback_playlist_id = snap.fallback_playlist_id;
        SnapshotDirectives {
            sync_target: transition.sync_target,
            acknowledge: snap.update_flags.is_some(),
        }
    }

    /// Applies the videos fetched for `target`, with `now` as the update
    /// instant. To be called only after the fetch fully succeeded: a
    /// failed fetch never reaches the state.
    pub fn apply_playlist_sync(&mut self, target: PlaylistId, fetched: Vec<Video>, now: i64)
        ensures
            final(self)@ == spec_apply_playlist_sync(old(self)@, target, fetched@, now),
            final(self)@.well_formed(),
    {
        let mut fetched = fetched;
        let ghost unsorted = fetched@;
        sort_videos(&mut fetched);
        proof {
            crate::videos::lemma_sort_by_order_sorts(unsorted);
        }
        self.videos = fetched;
        self.last_update = Some(now);
        self.current_playlist = Some(target);
        self.update_content_requested = false;
    }

    /// Applies the videos of a legacy full resync, recording the server's
    /// reported instant. To be called only after the fetch fully
    /// succeeded.
    pub fn apply_legacy_sync(&mut self, fetched: Vec<Video>, server_updated: Option<i64>)
        ensures
            final(self)@ == spec_apply_legacy_sync(old(self)@, fetched@, server_updated),
            final(self)@.well_formed(),
    {
        let mut fetched = fetched;
        let ghost unsorted = fetched@;
        sort_videos(&mut fetched);
        proof {
            crate::videos::lemma_sort_by_order_sorts(unsorted);
        }
        self.videos = fetched;
        self.last_update = server_updated;
        self.update_content_requested = false;
    }

    /// Whether the legacy comparison against the server's reported
    /// "last updated" instant calls for a full resync.
    pub fn legacy_update_needed(&self, server_updated: Option<i64>) -> (r: bool)
        ensures
            r == spec_legacy_update_needed(server_updated, self@.last_update),
    {
        match server_updated {
            Some(t) => match self.last_update {
                Some(l) => t > l,
                None => true,
            },
            None => false,
        }
    }
}

} // verus!
