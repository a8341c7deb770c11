use syncplay::config::{ServerConfig, SyncplayConfig, UnpauseAction, UserPreferences};
use syncplay::sync::SyncEngine;

#[test]
fn test_default_config() {
    let config = SyncplayConfig::default();
    assert_eq!(config.server.host, "syncplay.pl");
    assert_eq!(config.server.port, 8999);
    assert_eq!(config.user.default_room, "default");
}

#[test]
fn test_validate_empty_host() {
    let mut config = SyncplayConfig::default();
    config.server.host = String::new();
    assert!(config.validate().is_err());
}

#[test]
fn test_validate_valid_config() {
    let mut config = SyncplayConfig::default();
    config.user.username = String::new();
    assert!(config.validate().is_ok());
}

#[test]
fn test_default_public_servers() {
    let config = SyncplayConfig::default();
    assert!(!config.public_servers.is_empty());
    assert!(config
        .public_servers
        .iter()
        .any(|entry| entry.address == "syncplay.pl:8999"));
}

#[test]
fn test_add_recent_server() {
    let mut config = SyncplayConfig::default();
    let server = ServerConfig {
        host: "example.com".to_string(),
        port: 8999,
        password: None,
    };

    config.add_recent_server(server.clone());
    assert_eq!(config.recent_servers.len(), 3);
    assert_eq!(config.recent_servers[0].host, "example.com");
}

#[test]
fn test_recent_servers_limit() {
    let mut config = SyncplayConfig::default();

    for i in 0..15 {
        config.add_recent_server(ServerConfig {
            host: format!("server{}.com", i),
            port: 8999,
            password: None,
        });
    }

    assert_eq!(config.recent_servers.len(), 10);
}

#[test]
fn recent_server_moves_to_front_without_duplicate() {
    let mut config = SyncplayConfig::new();
    config.add_recent_server(ServerConfig { host: "syncplay.pl".to_string(), port: 8995, password: None });
    assert_eq!(config.recent_servers.len(), 2);
    assert_eq!(config.recent_servers[0].port, 8995);
    assert_eq!(config.recent_servers[1].port, 8999);
    // Same host, other port: a different entry.
    config.add_recent_server(ServerConfig { host: "syncplay.pl".to_string(), port: 1, password: None });
    assert_eq!(config.recent_servers.len(), 3);
}

#[test]
fn each_validation_error_is_reported() {
    let base = SyncplayConfig::default();
    let cases: Vec<(Box<dyn Fn(&mut SyncplayConfig)>, &str)> = vec![
        (Box::new(|c| c.server.port = 0), "Server port must be greater than 0"),
        (Box::new(|c| c.user.seek_threshold_rewind = 0), "Seek threshold rewind must be positive"),
        (Box::new(|c| c.user.seek_threshold_fastforward = -1), "Seek threshold fastforward must be positive"),
        (Box::new(|c| c.user.slowdown_threshold = 0), "Slowdown threshold must be positive"),
        (Box::new(|c| c.user.slowdown_rate = 1000), "Slowdown rate must be between 0 and 1"),
        (Box::new(|c| c.user.slowdown_rate = 0), "Slowdown rate must be between 0 and 1"),
        (Box::new(|c| c.user.osd_duration = 0), "OSD duration must be positive"),
        (Box::new(|c| c.user.chat_max_lines = 0), "Chat max lines must be positive"),
        (Box::new(|c| c.user.autoplay_min_users = -2), "Autoplay min users must be >= -1"),
        (Box::new(|c| c.server.host = String::new()), "Server host cannot be empty"),
    ];
    for (change, message) in cases {
        let mut c = base.clone();
        change(&mut c);
        assert_eq!(c.validate(), Err(message.to_string()));
    }
}

#[test]
fn default_preferences() {
    let p = UserPreferences::default();
    assert_eq!(p.seek_threshold_rewind, 4_000);
    assert_eq!(p.slowdown_rate, 950);
    assert_eq!(p.unpause_action, UnpauseAction::IfOthersReady);
    assert_eq!(p.autoplay_min_users, -1);
    assert_eq!(p.trusted_domains, vec!["youtube.com".to_string(), "youtu.be".to_string()]);
    assert_eq!(p.side_panel_layout, "rows");
}

#[test]
fn engine_takes_preferences() {
    let mut p = UserPreferences::default();
    p.slowdown_rate = 900;
    p.dont_slow_down_with_me = true;
    let mut engine = SyncEngine::new();
    assert!(engine.update_from_config(&p));
    assert_eq!(engine.slowdown_rate(), 900);
    p.seek_threshold_rewind = i64::MAX;
    p.slowdown_rate = 800;
    assert!(!engine.update_from_config(&p));
    assert_eq!(engine.slowdown_rate(), 900);
}
