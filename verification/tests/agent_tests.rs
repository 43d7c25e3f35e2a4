use signage_agent::config::{Apikey, Config};
use signage_agent::metrics::{first_nonempty, player_status_label, Metrics};
use signage_agent::orchestrator::{
    health_probe_action, signal_action, AgentSignal, HealthProbeAction, SignalAction,
    HEALTH_BACKOFF_SECS, HEALTH_RETRY_SECS, SETTLE_DELAY_SECS,
};
use signage_agent::player::{
    player_command_args, player_environment, PlayerSupervisor, PLAYER_IMAGE_DISPLAY_SECS,
};

#[test]
fn blank_config_has_no_credentials() {
    let c = Config::new();
    assert_eq!(c.url, "");
    assert_eq!(c.id, "");
    assert_eq!(c.username, "");
    assert_eq!(c.password, "");
    assert!(c.key.is_none());
    let d = Config::default();
    assert_eq!(d.url, "");
    assert!(d.key.is_none());
}

#[test]
fn api_key_carries_its_string() {
    let k = Apikey { key: "fresh-key-1".to_string() };
    assert_eq!(k.key, "fresh-key-1");
}

#[test]
fn supervisor_starts_stopped_and_tracks_the_lifecycle() {
    let mut p = PlayerSupervisor::new();
    assert!(p.can_start());
    p.begin_start();
    assert!(!p.can_start());
    p.confirm_spawned();
    assert!(!p.can_start());
    p.confirm_exit();
    assert!(p.can_start());
}

#[test]
fn failed_spawn_is_recoverable() {
    let mut p = PlayerSupervisor::new();
    p.begin_start();
    p.spawn_failed();
    assert!(p.can_start());
}

#[test]
fn stop_is_idempotent_and_start_follows() {
    let mut p = PlayerSupervisor::new();
    p.stop();
    p.stop();
    assert!(p.can_start());
    p.begin_start();
    p.confirm_spawned();
    // a content change: stop, then start again
    p.stop();
    assert!(p.can_start());
}

#[test]
fn shutdown_is_terminal() {
    let mut p = PlayerSupervisor::new();
    p.begin_start();
    p.confirm_spawned();
    p.shutdown();
    assert!(!p.can_start());
}

#[test]
fn player_args_point_at_the_manifest() {
    let args = player_command_args("/home/kiosk");
    assert_eq!(args.len(), 7);
    assert_eq!(args[0], "--loop-playlist=inf");
    assert_eq!(args[1], "--volume=-1");
    assert_eq!(args[2], "--no-terminal");
    assert_eq!(args[3], "--fullscreen");
    assert_eq!(args[4], "--input-ipc-server=/tmp/mpvsocket");
    assert_eq!(args[5], format!("--image-display-duration={}", PLAYER_IMAGE_DISPLAY_SECS));
    assert_eq!(args[6], "--playlist=/home/kiosk/.local/share/signage/playlist.txt");
}

#[test]
fn player_environment_names_the_display() {
    let env = player_environment();
    assert_eq!(env, vec![("DISPLAY".to_string(), ":0".to_string())]);
}

#[test]
fn health_probe_reads_the_status() {
    assert_eq!(health_probe_action(Some(200)), HealthProbeAction::Proceed);
    assert_eq!(health_probe_action(Some(500)), HealthProbeAction::BackOff);
    assert_eq!(health_probe_action(Some(404)), HealthProbeAction::RetryShortly);
    assert_eq!(health_probe_action(None), HealthProbeAction::RetryShortly);
    assert!(HEALTH_BACKOFF_SECS > HEALTH_RETRY_SECS);
}

#[test]
fn signals_kill_or_reload() {
    assert_eq!(signal_action(AgentSignal::Terminate), SignalAction::KillPlayerAndExit);
    assert_eq!(signal_action(AgentSignal::Interrupt), SignalAction::KillPlayerAndExit);
    assert_eq!(signal_action(AgentSignal::Hangup), SignalAction::ReloadConfigAndState);
    assert_eq!(SETTLE_DELAY_SECS, 10);
}

#[test]
fn metrics_report_keeps_its_readings() {
    let m = Metrics::new(
        "id".to_string(),
        "41.2".to_string(),
        "3.1".to_string(),
        "55.0".to_string(),
        "61".to_string(),
        "0.0".to_string(),
        "12:04".to_string(),
        "running".to_string(),
        "x86_64".to_string(),
        "Linux".to_string(),
    );
    assert_eq!(m.client_id, "id");
    assert_eq!(m.temp, "41.2");
    assert_eq!(m.processes, "3.1");
    assert_eq!(m.memory, "55.0");
    assert_eq!(m.diskusage, "61");
    assert_eq!(m.swapusage, "0.0");
    assert_eq!(m.uptime, "12:04");
    assert_eq!(m.mpvstatus, "running");
    assert_eq!(m.chip_architecture, "x86_64");
    assert_eq!(m.os, "Linux");
}

#[test]
fn player_status_label_reads_the_listing() {
    assert_eq!(player_status_label(""), "not running");
    assert_eq!(player_status_label("kiosk 4242 mpv --fullscreen"), "running");
}

#[test]
fn fallback_chain_picks_the_first_usable_reading() {
    let chain = vec!["".to_string(), "".to_string(), "arm64".to_string(), "ignored".to_string()];
    assert_eq!(first_nonempty(&chain, "unknown".to_string()), "arm64");
}

#[test]
fn fallback_chain_defaults_when_all_readings_fail() {
    let chain = vec!["".to_string(), "".to_string()];
    assert_eq!(first_nonempty(&chain, "unknown".to_string()), "unknown");
    assert_eq!(first_nonempty(&Vec::new(), "unknown".to_string()), "unknown");
}
