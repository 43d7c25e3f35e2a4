//! Synchronization and playback orchestration for a digital-signage agent.
//!
//! The library holds the decision logic of the agent: which playlist the
//! schedule selects, how often to poll, how a fetched video list is applied
//! to the durable sync state, which files of the asset directory survive a
//! prune, and how the player subprocess is supervised. All network, file
//! and process work is left to the surrounding binary, which feeds plain
//! values in and carries the decided actions out.

pub mod clock;
pub mod config;
pub mod ids;
pub mod manifest;
pub mod metrics;
pub mod orchestrator;
pub mod player;
pub mod schedule;
pub mod sync_state;
pub mod videos;
