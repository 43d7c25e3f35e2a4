use signage_agent::ids::{is_valid_uuid, parse_playlist_id, PlaylistId};
use signage_agent::clock::parse_timestamp;
use signage_agent::schedule::{
    acknowledgement_flags, calculate_poll_interval, current_poll_interval,
    resolve_playlist_transition, ClientTimelineScheduleResponse, ClientUpdateFlagsResponse,
    ScheduleSnapshot, BASE_POLL_INTERVAL_SECS, FAST_POLL_INTERVAL_SECS, NEAR_POLL_INTERVAL_SECS,
};

fn empty_snapshot() -> ScheduleSnapshot {
    ScheduleSnapshot {
        active_playlist_id: None,
        fallback_playlist_id: None,
        schedule_ends_at: None,
        next_schedule_starts_at: None,
        next_playlist_id: None,
        update_flags: None,
    }
}

#[test]
fn parses_playlist_id_to_uuid_value() {
    let id = parse_playlist_id("550e8400-e29b-41d4-a716-446655440000");
    assert_eq!(id, Some(PlaylistId(0x550e8400e29b41d4a716446655440000)));
}

#[test]
fn playlist_id_parse_ignores_hex_case() {
    let lower = parse_playlist_id("a1a2a3a4-b1b2-c1c2-d1d2-d3d4d5d6d7d8");
    let upper = parse_playlist_id("A1A2A3A4-B1B2-C1C2-D1D2-D3D4D5D6D7D8");
    assert!(lower.is_some());
    assert_eq!(lower, upper);
}

#[test]
fn malformed_playlist_id_parses_to_none() {
    assert_eq!(parse_playlist_id("not-a-uuid"), None);
    assert_eq!(parse_playlist_id(""), None);
}

#[test]
fn client_id_validity_follows_uuid_shape() {
    assert!(is_valid_uuid("550e8400-e29b-41d4-a716-446655440000"));
    assert!(!is_valid_uuid("device-7"));
}

#[test]
fn parses_rfc3339_to_epoch_seconds() {
    assert_eq!(parse_timestamp("1970-01-01T00:02:00Z"), Some(120));
    assert_eq!(parse_timestamp("1970-01-02T00:00:00Z"), Some(86400));
    assert_eq!(parse_timestamp("yesterday-ish"), None);
}

#[test]
fn response_parse_handles_absent_and_malformed_fields() {
    let raw = ClientTimelineScheduleResponse {
        active_playlist_id: Some("550e8400-e29b-41d4-a716-446655440000".to_string()),
        fallback_playlist_id: Some("garbled".to_string()),
        schedule_ends_at: Some("1970-01-01T01:00:00Z".to_string()),
        next_schedule_starts_at: None,
        next_playlist_id: None,
        update_flags: None,
        layout: None,
        rotation: None,
    };
    let snap = raw.parse();
    assert_eq!(
        snap.active_playlist_id,
        Some(PlaylistId(0x550e8400e29b41d4a716446655440000))
    );
    assert_eq!(snap.fallback_playlist_id, None);
    assert_eq!(snap.schedule_ends_at, Some(3600));
    assert_eq!(snap.next_schedule_starts_at, None);
    assert_eq!(snap.next_playlist_id, None);
}

#[test]
fn scenario_active_playlist_over_empty_current() {
    let mut snap = empty_snapshot();
    snap.active_playlist_id = Some(PlaylistId(1));
    let t = resolve_playlist_transition(None, &snap);
    assert!(t.changed);
    assert_eq!(t.sync_target, Some(PlaylistId(1)));
    assert_eq!(t.new_current, Some(PlaylistId(1)));
}

#[test]
fn scenario_fallback_playlist_over_empty_current() {
    let mut snap = empty_snapshot();
    snap.fallback_playlist_id = Some(PlaylistId(2));
    let t = resolve_playlist_transition(None, &snap);
    assert!(t.changed);
    assert_eq!(t.sync_target, Some(PlaylistId(2)));
    assert_eq!(t.new_current, Some(PlaylistId(2)));
}

#[test]
fn scenario_empty_schedule_keeps_last_content() {
    let snap = empty_snapshot();
    let t = resolve_playlist_transition(Some(PlaylistId(1)), &snap);
    assert!(t.changed);
    assert_eq!(t.sync_target, None);
    assert_eq!(t.new_current, Some(PlaylistId(1)));
}

#[test]
fn unchanged_playlist_triggers_no_sync() {
    let mut snap = empty_snapshot();
    snap.active_playlist_id = Some(PlaylistId(7));
    let t = resolve_playlist_transition(Some(PlaylistId(7)), &snap);
    assert!(!t.changed);
    assert_eq!(t.sync_target, None);
    assert_eq!(t.new_current, Some(PlaylistId(7)));
}

#[test]
fn active_playlist_shadows_fallback() {
    let mut snap = empty_snapshot();
    snap.active_playlist_id = Some(PlaylistId(1));
    snap.fallback_playlist_id = Some(PlaylistId(2));
    let t = resolve_playlist_transition(None, &snap);
    assert_eq!(t.sync_target, Some(PlaylistId(1)));
}

#[test]
fn scenario_imminent_next_start_wins_over_far_end() {
    let now: i64 = 1_000_000;
    let mut snap = empty_snapshot();
    snap.next_schedule_starts_at = Some(now + 180);
    snap.schedule_ends_at = Some(now + 2400);
    assert_eq!(calculate_poll_interval(&snap, now), FAST_POLL_INTERVAL_SECS);
}

#[test]
fn poll_interval_base_without_boundaries() {
    let snap = empty_snapshot();
    assert_eq!(calculate_poll_interval(&snap, 0), BASE_POLL_INTERVAL_SECS);
}

#[test]
fn poll_interval_window_boundaries() {
    let now: i64 = 50_000;
    let mut snap = empty_snapshot();
    snap.next_schedule_starts_at = Some(now + 300);
    assert_eq!(calculate_poll_interval(&snap, now), FAST_POLL_INTERVAL_SECS);
    snap.next_schedule_starts_at = Some(now + 301);
    assert_eq!(calculate_poll_interval(&snap, now), NEAR_POLL_INTERVAL_SECS);
    snap.next_schedule_starts_at = Some(now + 1800);
    assert_eq!(calculate_poll_interval(&snap, now), NEAR_POLL_INTERVAL_SECS);
    snap.next_schedule_starts_at = Some(now + 1801);
    assert_eq!(calculate_poll_interval(&snap, now), BASE_POLL_INTERVAL_SECS);
}

#[test]
fn clocked_poll_interval_is_base_without_boundaries() {
    // whatever the clock reads, a snapshot without boundaries polls at base
    let snap = empty_snapshot();
    assert_eq!(current_poll_interval(&snap), BASE_POLL_INTERVAL_SECS);
}

#[test]
fn poll_interval_past_boundary_counts_as_imminent() {
    let now: i64 = 50_000;
    let mut snap = empty_snapshot();
    snap.schedule_ends_at = Some(now - 10);
    assert_eq!(calculate_poll_interval(&snap, now), FAST_POLL_INTERVAL_SECS);
}

#[test]
fn poll_interval_near_end_when_next_start_far() {
    let now: i64 = 50_000;
    let mut snap = empty_snapshot();
    snap.next_schedule_starts_at = Some(now + 4000);
    snap.schedule_ends_at = Some(now + 900);
    assert_eq!(calculate_poll_interval(&snap, now), NEAR_POLL_INTERVAL_SECS);
}

#[test]
fn poll_interval_is_deterministic_for_fixed_now() {
    let now: i64 = 123_456;
    let mut snap = empty_snapshot();
    snap.next_schedule_starts_at = Some(now + 180);
    let first = calculate_poll_interval(&snap, now);
    let second = calculate_poll_interval(&snap, now);
    assert_eq!(first, second);
    assert_eq!(first, FAST_POLL_INTERVAL_SECS);
}

#[test]
fn acknowledgement_clears_every_flag() {
    let f: ClientUpdateFlagsResponse = acknowledgement_flags();
    assert!(!f.playlist_update_needed);
    assert!(!f.schedule_update_needed);
    assert!(!f.content_update_needed);
    assert!(!f.layout_change);
    assert!(f.current_layout.is_none());
    assert!(f.current_rotation.is_none());
}
