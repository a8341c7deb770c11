//! User configuration: server, preferences, player, and the recent-server
//! list. Times are in milliseconds; rates in thousandths of normal speed.
use vstd::prelude::*;
use crate::text::to_owned_text;

verus! {

#[derive(Debug, Clone, Copy, PartialEq, Eq, Structural)]
pub enum PrivacyMode {
    SendRaw,
    SendHashed,
    DoNotSend,
}

#[derive(Debug, Clone, Copy, PartialEq, Eq, Structural)]
pub enum UnpauseAction {
    IfAlreadyReady,
    IfOthersReady,
    IfMinUsersReady,
    Always,
}

#[derive(Debug, Clone, Copy, PartialEq, Eq, Structural)]
pub enum ChatInputPosition {
    Top,
    Middle,
    Bottom,
}

#[derive(Debug, Clone, Copy, PartialEq, Eq, Structural)]
pub enum ChatOutputMode {
    Chatroom,
    Scrolling,
}

#[derive(Debug, Clone, Copy, PartialEq, Eq, Structural)]
pub enum TransparencyMode {
    Off,
    Low,
    High,
}

impl Default for TransparencyMode {
    fn default() -> (r: Self)
        ensures
            r == TransparencyMode::Off,
    {
        TransparencyMode::Off
    }
}

/// A server to connect to.
#[derive(Debug)]
pub struct ServerConfig {
    pub host: String,
    pub port: u16,
    pub password: Option<String>,
}

impl Clone for ServerConfig {
    fn clone(&self) -> (r: Self)
        ensures
            r == *self,
    {
        ServerConfig {
            host: self.host.clone(),
            port: self.port,
            password: match &self.password {
                Some(p) => Some(p.clone()),
                None => None,
            },
        }
    }
}

pub const DEFAULT_HOST: &'static str = "syncplay.pl";

pub const DEFAULT_PORT: u16 = 8999;

impl Default for ServerConfig {
    fn default() -> (r: Self)
        ensures
            r.host@ == DEFAULT_HOST@,
            r.port == DEFAULT_PORT,
            r.password is None,
    {
        ServerConfig { host: to_owned_text(DEFAULT_HOST), port: DEFAULT_PORT, password: None }
    }
}

/// Everything the user can set.
#[derive(Debug, Clone)]
pub struct UserPreferences {
    pub username: String,
    pub default_room: String,
    pub room_list: Vec<String>,
    pub theme: String,
    pub transparency_mode: TransparencyMode,
    pub seek_threshold_rewind: i64,
    pub seek_threshold_fastforward: i64,
    pub slowdown_threshold: i64,
    pub slowdown_reset_threshold: i64,
    pub slowdown_rate: u32,
    pub slow_on_desync: bool,
    pub rewind_on_desync: bool,
    pub fastforward_on_desync: bool,
    pub dont_slow_down_with_me: bool,
    pub ready_at_start: bool,
    pub pause_on_leave: bool,
    pub unpause_action: UnpauseAction,
    pub autoplay_enabled: bool,
    pub autoplay_min_users: i32,
    pub autoplay_require_same_filenames: bool,
    pub filename_privacy_mode: PrivacyMode,
    pub filesize_privacy_mode: PrivacyMode,
    pub only_switch_to_trusted_domains: bool,
    pub trusted_domains: Vec<String>,
    pub show_osd: bool,
    pub osd_duration: u64,
    pub show_osd_warnings: bool,
    pub show_slowdown_osd: bool,
    pub show_different_room_osd: bool,
    pub show_same_room_osd: bool,
    pub show_non_controller_osd: bool,
    pub show_duration_notification: bool,
    pub chat_input_enabled: bool,
    pub chat_direct_input: bool,
    pub chat_input_font_family: String,
    pub chat_input_relative_font_size: u32,
    pub chat_input_font_weight: u32,
    pub chat_input_font_underline: bool,
    pub chat_input_font_color: String,
    pub chat_input_position: ChatInputPosition,
    pub chat_output_enabled: bool,
    pub chat_output_font_family: String,
    pub chat_output_relative_font_size: u32,
    pub chat_output_font_weight: u32,
    pub chat_output_font_underline: bool,
    pub chat_output_mode: ChatOutputMode,
    pub chat_max_lines: u32,
    pub chat_top_margin: u32,
    pub chat_left_margin: u32,
    pub chat_bottom_margin: u32,
    pub chat_move_osd: bool,
    pub chat_osd_margin: u32,
    pub notification_timeout: u32,
    pub alert_timeout: u32,
    pub chat_timeout: u32,
    pub autosave_joins_to_list: bool,
    pub shared_playlist_enabled: bool,
    pub loop_at_end_of_playlist: bool,
    pub loop_single_files: bool,
    pub show_playlist: bool,
    pub side_panel_layout: String,
    pub auto_connect: bool,
    pub force_gui_prompt: bool,
    pub check_for_updates_automatically: Option<bool>,
    pub debug: bool,
}

pub fn default_side_panel_layout() -> (r: String)
    ensures
        r@ == "rows"@,
{
    to_owned_text("rows")
}

impl Default for UserPreferences {
    fn default() -> (r: Self)
        ensures
            r.username@.len() == 0,
            r.default_room@ == "default"@,
            r.room_list@.len() == 0,
            r.seek_threshold_rewind == 4000,
            r.seek_threshold_fastforward == 5000,
            r.slowdown_threshold == 1500,
            r.slowdown_reset_threshold == 100,
            r.slowdown_rate == 950,
            r.slow_on_desync && r.rewind_on_desync && r.fastforward_on_desync,
            !r.dont_slow_down_with_me,
            !r.ready_at_start && !r.pause_on_leave,
            r.unpause_action == UnpauseAction::IfOthersReady,
            !r.autoplay_enabled,
            r.autoplay_min_users == -1,
            r.autoplay_require_same_filenames,
            r.filename_privacy_mode == PrivacyMode::SendRaw,
            r.filesize_privacy_mode == PrivacyMode::SendRaw,
            r.only_switch_to_trusted_domains,
            r.trusted_domains@.len() == 2,
            r.trusted_domains@[0]@ == "youtube.com"@,
            r.trusted_domains@[1]@ == "youtu.be"@,
            r.show_osd && r.osd_duration == 3000 && r.show_osd_warnings && r.show_slowdown_osd,
            !r.show_different_room_osd && r.show_same_room_osd && !r.show_non_controller_osd,
            r.show_duration_notification,
            r.chat_output_enabled,
            r.chat_max_lines == 7,
            r.autosave_joins_to_list && r.shared_playlist_enabled,
            !r.loop_at_end_of_playlist && !r.loop_single_files,
            r.side_panel_layout@ == "rows"@,
    {
        UserPreferences {
            username: String::new(),
            default_room: to_owned_text("default"),
            room_list: Vec::new(),
            theme: to_owned_text("dark"),
            transparency_mode: TransparencyMode::Off,
            seek_threshold_rewind: 4000,
            seek_threshold_fastforward: 5000,
            slowdown_threshold: 1500,
            slowdown_reset_threshold: 100,
            slowdown_rate: 950,
            slow_on_desync: true,
            rewind_on_desync: true,
            fastforward_on_desync: true,
            dont_slow_down_with_me: false,
            ready_at_start: false,
            pause_on_leave: false,
            unpause_action: UnpauseAction::IfOthersReady,
            autoplay_enabled: false,
            autoplay_min_users: -1,
            autoplay_require_same_filenames: true,
            filename_privacy_mode: PrivacyMode::SendRaw,
            filesize_privacy_mode: PrivacyMode::SendRaw,
            only_switch_to_trusted_domains: true,
            trusted_domains: vec![to_owned_text("youtube.com"), to_owned_text("youtu.be")],
            show_osd: true,
            osd_duration: 3000,
            show_osd_warnings: true,
            show_slowdown_osd: true,
            show_different_room_osd: false,
            show_same_room_osd: true,
            show_non_controller_osd: false,
            show_duration_notification: true,
            chat_input_enabled: true,
            chat_direct_input: false,
            chat_input_font_family: to_owned_text("sans-serif"),
            chat_input_relative_font_size: 24,
            chat_input_font_weight: 1,
            chat_input_font_underline: false,
            chat_input_font_color: to_owned_text("#FFFF00"),
            chat_input_position: ChatInputPosition::Top,
            chat_output_enabled: true,
            chat_output_font_family: to_owned_text("sans-serif"),
            chat_output_relative_font_size: 24,
            chat_output_font_weight: 1,
            chat_output_font_underline: false,
            chat_output_mode: ChatOutputMode::Chatroom,
            chat_max_lines: 7,
            chat_top_margin: 25,
            chat_left_margin: 20,
            chat_bottom_margin: 30,
            chat_move_osd: true,
            chat_osd_margin: 110,
            notification_timeout: 3,
            alert_timeout: 5,
            chat_timeout: 7,
            autosave_joins_to_list: true,
            shared_playlist_enabled: true,
            loop_at_end_of_playlist: false,
            loop_single_files: false,
            show_playlist: true,
            side_panel_layout: default_side_panel_layout(),
            auto_connect: false,
            force_gui_prompt: true,
            check_for_updates_automatically: None,
            debug: false,
        }
    }
}

/// Where and how the media player is run.
#[derive(Debug, Clone)]
pub struct PlayerConfig {
    pub player_path: String,
    pub mpv_socket_path: String,
    pub media_directories: Vec<String>,
    pub player_arguments: Vec<String>,
    pub per_player_arguments: Vec<(String, Vec<String>)>,
}

pub const DEFAULT_MPV_SOCKET: &'static str = "/tmp/mpvsocket";

impl Default for PlayerConfig {
    fn default() -> (r: Self)
        ensures
            r.player_path@ == "mpv"@,
            r.mpv_socket_path@ == DEFAULT_MPV_SOCKET@,
            r.media_directories@.len() == 0,
            r.player_arguments@.len() == 0,
            r.per_player_arguments@.len() == 0,
    {
        PlayerConfig {
            player_path: to_owned_text("mpv"),
            mpv_socket_path: to_owned_text(DEFAULT_MPV_SOCKET),
            media_directories: Vec::new(),
            player_arguments: Vec::new(),
            per_player_arguments: Vec::new(),
        }
    }
}

/// An entry of the public server list.
#[derive(Debug, Clone)]
pub struct PublicServer {
    pub name: String,
    pub address: String,
}

/// The whole persisted configuration.
#[derive(Debug, Clone)]
pub struct SyncplayConfig {
    pub server: ServerConfig,
    pub user: UserPreferences,
    pub player: PlayerConfig,
    pub recent_servers: Vec<ServerConfig>,
    pub public_servers: Vec<PublicServer>,
}

/// The recent-server list holds at most this many entries.
pub const MAX_RECENT_SERVERS: usize = 10;

fn public_server(port: &str) -> (r: PublicServer)
    ensures
        r.name@ == "syncplay.pl:"@ + port@ + " (France)"@,
        r.address@ == "syncplay.pl:"@ + port@,
{
    let mut address = to_owned_text("syncplay.pl:");
    address.append(port);
    let mut name = address.clone();
    name.append(" (France)");
    PublicServer { name, address }
}

impl Default for SyncplayConfig {
    fn default() -> (r: Self)
        ensures
            r.server.host@ == DEFAULT_HOST@,
            r.server.port == DEFAULT_PORT,
            r.user.default_room@ == "default"@,
            r.recent_servers@.len() == 2,
            r.recent_servers@[0].host@ == DEFAULT_HOST@ && r.recent_servers@[0].port == 8999,
            r.recent_servers@[1].host@ == DEFAULT_HOST@ && r.recent_servers@[1].port == 8995,
            r.public_servers@.len() == 5,
            r.public_servers@[4].address@ == "syncplay.pl:"@ + "8999"@,
    {
        let mut public_servers: Vec<PublicServer> = Vec::new();
        public_servers.push(public_server("8995"));
        public_servers.push(public_server("8996"));
        public_servers.push(public_server("8997"));
        public_servers.push(public_server("8998"));
        public_servers.push(public_server("8999"));
        SyncplayConfig {
            server: ServerConfig::default(),
            user: UserPreferences::default(),
            player: PlayerConfig::default(),
            recent_servers: vec![
                ServerConfig::default(),
                ServerConfig { host: to_owned_text(DEFAULT_HOST), port: 8995, password: None },
            ],
            public_servers,
        }
    }
}

/// Why a configuration is refused, in the order the checks run; `None` when
/// it is valid.
pub open spec fn config_error(c: SyncplayConfig) -> Option<Seq<char>> {
    if c.server.host@.len() == 0 {
        Some("Server host cannot be empty"@)
    } else if c.server.port == 0 {
        Some("Server port must be greater than 0"@)
    } else if c.user.seek_threshold_rewind <= 0 {
        Some("Seek threshold rewind must be positive"@)
    } else if c.user.seek_threshold_fastforward <= 0 {
        Some("Seek threshold fastforward must be positive"@)
    } else if c.user.slowdown_threshold <= 0 {
        Some("Slowdown threshold must be positive"@)
    } else if c.user.slowdown_rate == 0 || c.user.slowdown_rate >= 1000 {
        Some("Slowdown rate must be between 0 and 1"@)
    } else if c.user.osd_duration == 0 {
        Some("OSD duration must be positive"@)
    } else if c.user.chat_max_lines == 0 {
        Some("Chat max lines must be positive"@)
    } else if c.user.autoplay_min_users < -1 {
        Some("Autoplay min users must be >= -1"@)
    } else {
        None
    }
}

/// `servers` without the entries for `host` and `port`.
pub open spec fn without_server(servers: Seq<ServerConfig>, host: Seq<char>, port: u16) -> Seq<
    ServerConfig,
>
    decreases servers.len(),
{
    if servers.len() == 0 {
        Seq::empty()
    } else {
        let rest = without_server(servers.drop_last(), host, port);
        if servers.last().host@ == host && servers.last().port == port {
            rest
        } else {
            rest.push(servers.last())
        }
    }
}

/// The recent-server list after using `server`: it goes first, its older
/// entry leaves, and the list is cut to [`MAX_RECENT_SERVERS`].
pub open spec fn recent_after(servers: Seq<ServerConfig>, server: ServerConfig) -> Seq<ServerConfig> {
    let s = seq![server] + without_server(servers, server.host@, server.port);
    if s.len() > MAX_RECENT_SERVERS {
        s.subrange(0, MAX_RECENT_SERVERS as int)
    } else {
        s
    }
}

impl SyncplayConfig {
    pub fn new() -> (r: Self)
        ensures
            r.server.host@ == DEFAULT_HOST@,
            r.server.port == DEFAULT_PORT,
            r.recent_servers@.len() == 2,
            r.public_servers@.len() == 5,
    {
        SyncplayConfig::default()
    }

    /// Checks the configuration; the error names the first problem found.
    pub fn validate(&self) -> (r: Result<(), String>)
        ensures
            r is Ok <==> config_error(*self) is None,
            r is Err ==> config_error(*self) == Some(r->Err_0@),
    {
        if self.server.host.as_str().unicode_len() == 0 {
            return Err(to_owned_text("Server host cannot be empty"));
        }
        if self.server.port == 0 {
            return Err(to_owned_text("Server port must be greater than 0"));
        }
        if self.user.seek_threshold_rewind <= 0 {
            return Err(to_owned_text("Seek threshold rewind must be positive"));
        }
        if self.user.seek_threshold_fastforward <= 0 {
            return Err(to_owned_text("Seek threshold fastforward must be positive"));
        }
        if self.user.slowdown_threshold <= 0 {
            return Err(to_owned_text("Slowdown threshold must be positive"));
        }
        if self.user.slowdown_rate == 0 || self.user.slowdown_rate >= 1000 {
            return Err(to_owned_text("Slowdown rate must be between 0 and 1"));
        }
        if self.user.osd_duration == 0 {
            return Err(to_owned_text("OSD duration must be positive"));
        }
        if self.user.chat_max_lines == 0 {
            return Err(to_owned_text("Chat max lines must be positive"));
        }
        if self.user.autoplay_min_users < -1 {
            return Err(to_owned_text("Autoplay min users must be >= -1"));
        }
        Ok(())
    }

    /// Puts `server` first in the recent-server list; see [`recent_after`].
    pub fn add_recent_server(&mut self, server: ServerConfig)
        ensures
            final(self).recent_servers@ == recent_after(old(self).recent_servers@, server),
            final(self).server == old(self).server,
            final(self).user == old(self).user,
            final(self).player == old(self).player,
            final(self).public_servers == old(self).public_servers,
    {
        let mut kept: Vec<ServerConfig> = Vec::new();
        kept.push(server.clone());
        let ghost old_list = self.recent_servers@;
        let mut i: usize = 0;
        while i < self.recent_servers.len()
            invariant
                i <= self.recent_servers@.len(),
                self.recent_servers@ == old_list,
                kept@ == seq![server] + without_server(old_list.subrange(0, i as int), server.host@, server.port),
            decreases self.recent_servers@.len() - i,
        {
            proof {
                assert(old_list.subrange(0, i + 1).drop_last() =~= old_list.subrange(0, i as int));
            }
            let s = &self.recent_servers[i];
            if !(s.host == server.host && s.port == server.port) {
                let c = s.clone();
                kept.push(c);
                proof {
                    assert(kept@ =~= seq![server] + without_server(
                        old_list.subrange(0, i + 1),
                        server.host@,
                        server.port,
                    ));
                }
            }
            i = i + 1;
        }
        proof {
            assert(old_list.subrange(0, old_list.len() as int) =~= old_list);
        }
        kept.truncate(MAX_RECENT_SERVERS);
        proof {
            assert(kept@ =~= recent_after(old_list, server));
        }
        self.recent_servers = kept;
    }
}

} // verus!
