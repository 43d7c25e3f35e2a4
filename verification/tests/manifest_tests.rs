use signage_agent::manifest::{manifest_entries, prune_plan, referenced_names};
use signage_agent::videos::Video;

fn video(id: &str, order: u8, name: &str) -> Video {
    Video {
        id: id.to_string(),
        asset_url: format!("https://s3.amazonaws.com/media/{}", name),
        asset_order: order,
        asset_name: name.to_string(),
    }
}

#[test]
fn manifest_lists_each_video_in_order() {
    let videos = vec![video("a", 1, "first.mp4"), video("b", 2, "second.png")];
    let entries = manifest_entries(&videos, "/home/kiosk/.local/share/signage/assets/");
    assert_eq!(
        entries,
        vec![
            "/home/kiosk/.local/share/signage/assets/first.mp4".to_string(),
            "/home/kiosk/.local/share/signage/assets/second.png".to_string(),
        ]
    );
}

#[test]
fn manifest_of_no_videos_is_empty() {
    let entries = manifest_entries(&Vec::new(), "/assets/");
    assert!(entries.is_empty());
}

#[test]
fn referenced_names_are_the_asset_names() {
    let videos = vec![video("a", 1, "first.mp4"), video("b", 2, "second.png")];
    assert_eq!(
        referenced_names(&videos),
        vec!["first.mp4".to_string(), "second.png".to_string()]
    );
}

#[test]
fn prune_deletes_only_unreferenced_strangers() {
    let dir = vec![
        "first.mp4".to_string(),
        "stale.mp4".to_string(),
        "playlist.txt".to_string(),
        "data.json".to_string(),
        "second.png".to_string(),
        "leftover.bin".to_string(),
    ];
    let referenced = vec!["first.mp4".to_string(), "second.png".to_string()];
    let doomed = prune_plan(
        &dir,
        &referenced,
        &"playlist.txt".to_string(),
        &"data.json".to_string(),
    );
    assert_eq!(doomed, vec!["stale.mp4".to_string(), "leftover.bin".to_string()]);
}

#[test]
fn prune_of_fully_referenced_directory_is_empty() {
    let dir = vec!["a.mp4".to_string(), "playlist.txt".to_string(), "data.json".to_string()];
    let referenced = vec!["a.mp4".to_string()];
    let doomed = prune_plan(
        &dir,
        &referenced,
        &"playlist.txt".to_string(),
        &"data.json".to_string(),
    );
    assert!(doomed.is_empty());
}

#[test]
fn sync_pass_directory_converges_to_manifest() {
    // after a sync, the survivors of the prune are exactly the referenced
    // files plus the manifest and the state file
    let videos = vec![video("a", 1, "a.mp4"), video("b", 2, "b.png")];
    let referenced = referenced_names(&videos);
    let dir = vec![
        "a.mp4".to_string(),
        "old.mp4".to_string(),
        "b.png".to_string(),
        "playlist.txt".to_string(),
        "data.json".to_string(),
    ];
    let doomed = prune_plan(
        &dir,
        &referenced,
        &"playlist.txt".to_string(),
        &"data.json".to_string(),
    );
    let survivors: Vec<&String> = dir.iter().filter(|f| !doomed.contains(f)).collect();
    assert_eq!(
        survivors,
        vec![&"a.mp4".to_string(), &"b.png".to_string(), &"playlist.txt".to_string(), &"data.json".to_string()]
    );
}

#[test]
fn whitelist_accepts_the_approved_host() {
    let v = video("a", 1, "a.mp4");
    assert!(v.in_whitelist());
}

#[test]
fn whitelist_rejects_other_hosts() {
    let mut v = video("a", 1, "a.mp4");
    v.asset_url = "https://example.com/media/a.mp4".to_string();
    assert!(!v.in_whitelist());
    v.asset_url = String::new();
    assert!(!v.in_whitelist());
}

#[test]
fn local_asset_name_takes_extension_from_url() {
    let mut v = video("abc123", 1, "x");
    v.asset_url = "https://s3.amazonaws.com/media/clip.mp4".to_string();
    assert_eq!(v.local_asset_name(), "abc123.mp4");
}

#[test]
fn local_asset_name_defaults_to_bin() {
    let mut v = video("abc123", 1, "x");
    v.asset_url = "https://s3.amazonaws.com/media/noextension".to_string();
    assert_eq!(v.local_asset_name(), "abc123.bin");
    v.asset_url = "https://s3.amazonaws.com/media/.hidden".to_string();
    assert_eq!(v.local_asset_name(), "abc123.bin");
}
