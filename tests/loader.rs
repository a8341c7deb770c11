use syncplay::config::PlayerConfig;
use syncplay::loader::{
    after_load, build_player_arguments, media_search_dirs, plan_load, resolve_player_path, LoadError,
    LoadTarget,
};
use syncplay::session::SuppressionFlags;

#[test]
fn load_plans() {
    let trusted = vec!["youtube.com".to_string()];
    assert_eq!(plan_load("https://youtube.com/watch?v=1", &trusted, true), Ok(LoadTarget::Url));
    assert_eq!(plan_load("https://example.com/a.mp4", &trusted, true), Err(LoadError::UntrustedUrl));
    assert_eq!(plan_load("https://example.com/a.mp4", &trusted, false), Ok(LoadTarget::Url));
    assert_eq!(plan_load("movie.mkv", &trusted, true), Ok(LoadTarget::File));
    assert_eq!(plan_load("PRIVACY_HIDDEN_FILENAME", &trusted, true), Err(LoadError::FileNotFound));
}

#[test]
fn search_dirs_and_suppression() {
    let dirs = vec![" /media ".to_string(), "   ".to_string(), "/srv/films".to_string()];
    assert_eq!(media_search_dirs(&dirs), vec!["/media".to_string(), "/srv/films".to_string()]);
    let mut flags = SuppressionFlags::new();
    assert!(after_load(&mut flags, true));
    assert!(!flags.next_file_update);
    assert!(!after_load(&mut flags, false));
    assert!(flags.next_file_update);
}

#[test]
fn player_path_and_arguments() {
    assert_eq!(resolve_player_path("  "), "mpv");
    assert_eq!(resolve_player_path("custom"), "mpv");
    assert_eq!(resolve_player_path(" /usr/bin/vlc "), "/usr/bin/vlc");
    let mut config = PlayerConfig::default();
    config.player_arguments = vec!["--fs".to_string()];
    config.per_player_arguments = vec![
        ("vlc".to_string(), vec!["--no-video-title".to_string()]),
        ("vlc".to_string(), vec!["--ignored".to_string()]),
    ];
    assert_eq!(
        build_player_arguments(&config, &"vlc".to_string()),
        vec!["--fs".to_string(), "--no-video-title".to_string()]
    );
    assert_eq!(build_player_arguments(&config, &"mpv".to_string()), vec!["--fs".to_string()]);
}
