use syncplay::player::{parse_flag_word, parse_mpc_variable, MpcVariable};
use syncplay::player::{
    default_player_path_for_kind, parse_mplayer_version, parse_mpv_version, parse_response,
    parse_vlc_line, parse_vlc_version, player_kind_from_path, player_kind_from_path_or_default,
    PlayerKind, ResponseKey, VlcReply,
};

#[test]
fn kinds_from_paths() {
    assert_eq!(player_kind_from_path("/usr/bin/mpv"), PlayerKind::Mpv);
    assert_eq!(player_kind_from_path("C:\\Program Files\\mpv.net\\mpvnet.exe"), PlayerKind::MpvNet);
    assert_eq!(player_kind_from_path("/Applications/VLC.app"), PlayerKind::Vlc);
    assert_eq!(player_kind_from_path("/Applications/IINA.app"), PlayerKind::Iina);
    assert_eq!(player_kind_from_path("C:\\MPC-HC\\mpc-hc64.exe"), PlayerKind::MpcHc);
    assert_eq!(player_kind_from_path("C:\\MPC-BE\\mpc-be64.exe"), PlayerKind::MpcBe);
    assert_eq!(player_kind_from_path("/usr/bin/MPlayer"), PlayerKind::Mplayer);
    assert_eq!(player_kind_from_path("/usr/bin/totem"), PlayerKind::Unknown);
    assert_eq!(player_kind_from_path_or_default("   "), PlayerKind::Mpv);
    assert_eq!(player_kind_from_path_or_default(""), PlayerKind::Mpv);
    assert_eq!(player_kind_from_path_or_default("vlc"), PlayerKind::Vlc);
}

#[test]
fn names_and_default_paths() {
    assert_eq!(PlayerKind::MpcHc.display_name(), "MPC-HC");
    assert_eq!(PlayerKind::MpvNet.display_name(), "mpv.net");
    assert_eq!(default_player_path_for_kind(PlayerKind::Iina), "mpv");
    assert_eq!(default_player_path_for_kind(PlayerKind::Mplayer), "mplayer");
    assert_eq!(default_player_path_for_kind(PlayerKind::Unknown), "mpv");
}

#[test]
fn versions_from_output() {
    assert_eq!(parse_mpv_version("mpv 0.35.0 Copyright (c)\nmore"), Some("0.35.0".to_string()));
    assert_eq!(parse_mpv_version("mpv"), None);
    assert_eq!(parse_mpv_version(""), None);
    assert_eq!(parse_vlc_version("VLC media player 3.0.18 Vetinari\r\n"), Some("player".to_string()));
    assert_eq!(
        parse_mplayer_version("banner\nMPlayer 1.5-12 (C) 2000\n"),
        Some("1.5-12".to_string())
    );
    assert_eq!(parse_mplayer_version("nothing here"), None);
}

#[test]
fn mplayer_replies() {
    assert_eq!(
        parse_response("  ANS_TIME_POSITION=12.5 \n"),
        Some((ResponseKey::Position, "12.5".to_string()))
    );
    assert_eq!(
        parse_response("ANS_FILENAME='x'"),
        Some((ResponseKey::Path, "'x'".to_string()))
    );
    assert_eq!(
        parse_response("ANS_FILE_NAME=\"movie.mkv\""),
        Some((ResponseKey::Filename, "movie.mkv".to_string()))
    );
    assert_eq!(parse_response("ANS_pause=yes"), Some((ResponseKey::Pause, "yes".to_string())));
    assert_eq!(parse_response("ANS_speed=1.00"), Some((ResponseKey::Speed, "1.00".to_string())));
    assert_eq!(parse_response("ANS_LENGTH=60"), Some((ResponseKey::Duration, "60".to_string())));
    assert_eq!(parse_response("Playing movie.mkv"), None);
}

#[test]
fn vlc_lines() {
    assert_eq!(parse_vlc_line("time: 42"), Some(VlcReply::Time("42".to_string())));
    assert_eq!(parse_vlc_line("length: 100 "), Some(VlcReply::Length("100".to_string())));
    assert_eq!(parse_vlc_line("state playing"), Some(VlcReply::Paused(false)));
    assert_eq!(parse_vlc_line("state: stopped"), Some(VlcReply::Paused(true)));
    assert_eq!(parse_vlc_line("state buffering"), None);
    assert_eq!(parse_vlc_line("rate: 0.95"), Some(VlcReply::Rate("0.95".to_string())));
    assert_eq!(
        parse_vlc_line("file: /media/a b.mkv"),
        Some(VlcReply::File("/media/a b.mkv".to_string()))
    );
    assert_eq!(parse_vlc_line("status change"), None);
}

#[test]
fn mpc_variables_and_flag_words() {
    assert_eq!(parse_flag_word(" yes "), Some(true));
    assert_eq!(parse_flag_word("0"), Some(false));
    assert_eq!(parse_flag_word("maybe"), None);
    assert_eq!(parse_mpc_variable("position = 1234"), Some(MpcVariable::Position("1234".to_string())));
    assert_eq!(parse_mpc_variable("duration=5000"), Some(MpcVariable::Duration("5000".to_string())));
    assert_eq!(
        parse_mpc_variable("filepath=C:\\a=b.mkv"),
        Some(MpcVariable::FilePath("C:\\a=b.mkv".to_string()))
    );
    assert_eq!(parse_mpc_variable("paused=true"), Some(MpcVariable::Paused(Some(true))));
    assert_eq!(parse_mpc_variable("paused=2"), Some(MpcVariable::Paused(None)));
    assert_eq!(parse_mpc_variable("speed=1.0"), Some(MpcVariable::Speed("1.0".to_string())));
    assert_eq!(parse_mpc_variable("volume=80"), None);
    assert_eq!(parse_mpc_variable("position"), Some(MpcVariable::Position(String::new())));
}

#[test]
fn detected_players_carry_parsed_versions() {
    let p = syncplay::player::detected_player(PlayerKind::Vlc, "/usr/bin/vlc".to_string(), "VLC version 3.0.20 Vetinari");
    assert_eq!(p.name, "VLC");
    assert_eq!(p.version, Some("3.0.20".to_string()));
    let p = syncplay::player::detected_player(PlayerKind::Mpv, "mpv".to_string(), "mpv 0.36.0\n");
    assert_eq!(p.name, "MPV");
    assert_eq!(p.version, Some("0.36.0".to_string()));
    let p = syncplay::player::detected_player(PlayerKind::Mplayer, "mplayer".to_string(), "");
    assert_eq!(p.version, None);
    assert!(syncplay::control::ConnectionState::Authenticated.is_connected());
    assert!(!syncplay::control::ConnectionState::Connecting.is_connected());
}
