//! Player kinds, picked from the executable's path, and the text replies of
//! the line-oriented player interfaces.
use vstd::prelude::*;
use crate::text::{
    after_prefix, ascii_lower, ascii_lowercase, contains_run, contains_text, is_blank,
    is_space_char, lines, split_lines, split_words, strings_view, strip_prefix_text, to_owned_text,
    trim, trim_char, trim_quotes, trim_text, words,
};

verus! {

#[derive(Debug, Clone, Copy, PartialEq, Eq, Structural)]
pub enum PlayerKind {
    Mpv,
    MpvNet,
    Vlc,
    Iina,
    Mplayer,
    MpcHc,
    MpcBe,
    Unknown,
}

pub open spec fn display_name_of(k: PlayerKind) -> Seq<char> {
    match k {
        PlayerKind::Mpv => "MPV"@,
        PlayerKind::MpvNet => "mpv.net"@,
        PlayerKind::Vlc => "VLC"@,
        PlayerKind::Iina => "IINA"@,
        PlayerKind::Mplayer => "MPlayer"@,
        PlayerKind::MpcHc => "MPC-HC"@,
        PlayerKind::MpcBe => "MPC-BE"@,
        PlayerKind::Unknown => "Unknown"@,
    }
}

impl PlayerKind {
    pub fn display_name(self) -> (r: &'static str)
        ensures
            r@ == display_name_of(self),
    {
        match self {
            PlayerKind::Mpv => "MPV",
            PlayerKind::MpvNet => "mpv.net",
            PlayerKind::Vlc => "VLC",
            PlayerKind::Iina => "IINA",
            PlayerKind::Mplayer => "MPlayer",
            PlayerKind::MpcHc => "MPC-HC",
            PlayerKind::MpcBe => "MPC-BE",
            PlayerKind::Unknown => "Unknown",
        }
    }
}

/// The kind named by a lowered path: the first of these substrings that
/// occurs decides.
pub open spec fn kind_of_lowered(l: Seq<char>) -> PlayerKind {
    if contains_run(l, "mpvnet"@) || contains_run(l, "mpv.net"@) {
        PlayerKind::MpvNet
    } else if contains_run(l, "mpv"@) {
        PlayerKind::Mpv
    } else if contains_run(l, "vlc"@) {
        PlayerKind::Vlc
    } else if contains_run(l, "iina"@) {
        PlayerKind::Iina
    } else if contains_run(l, "mpc-hc"@) || contains_run(l, "mpchc"@) || contains_run(
        l,
        "shoukaku"@,
    ) {
        PlayerKind::MpcHc
    } else if contains_run(l, "mpc-be"@) {
        PlayerKind::MpcBe
    } else if contains_run(l, "mplayer"@) {
        PlayerKind::Mplayer
    } else {
        PlayerKind::Unknown
    }
}

/// Picks the player kind from the executable's path, ignoring ASCII case.
pub fn player_kind_from_path(path: &str) -> (r: PlayerKind)
    ensures
        r == kind_of_lowered(ascii_lower(path@)),
{
    let lower = ascii_lowercase(path);
    let l = lower.as_str();
    if contains_text(l, "mpvnet") || contains_text(l, "mpv.net") {
        PlayerKind::MpvNet
    } else if contains_text(l, "mpv") {
        PlayerKind::Mpv
    } else if contains_text(l, "vlc") {
        PlayerKind::Vlc
    } else if contains_text(l, "iina") {
        PlayerKind::Iina
    } else if contains_text(l, "mpc-hc") || contains_text(l, "mpchc") || contains_text(
        l,
        "shoukaku",
    ) {
        PlayerKind::MpcHc
    } else if contains_text(l, "mpc-be") {
        PlayerKind::MpcBe
    } else if contains_text(l, "mplayer") {
        PlayerKind::Mplayer
    } else {
        PlayerKind::Unknown
    }
}

/// Like [`player_kind_from_path`], but a blank path means MPV.
pub fn player_kind_from_path_or_default(path: &str) -> (r: PlayerKind)
    ensures
        (forall|k: int| 0 <= k < path@.len() ==> is_space_char(#[trigger] path@[k])) ==> r
            == PlayerKind::Mpv,
        !(forall|k: int| 0 <= k < path@.len() ==> is_space_char(#[trigger] path@[k])) ==> r
            == kind_of_lowered(ascii_lower(path@)),
{
    if is_blank(path) {
        return PlayerKind::Mpv;
    }
    player_kind_from_path(path)
}

pub open spec fn default_path_of(k: PlayerKind) -> Seq<char> {
    match k {
        PlayerKind::Mpv | PlayerKind::MpvNet | PlayerKind::Iina => "mpv"@,
        PlayerKind::Vlc => "vlc"@,
        PlayerKind::Mplayer => "mplayer"@,
        PlayerKind::MpcHc => "mpc-hc"@,
        PlayerKind::MpcBe => "mpc-be"@,
        PlayerKind::Unknown => "mpv"@,
    }
}

/// The executable to run for `kind` when no path is configured.
pub fn default_player_path_for_kind(kind: PlayerKind) -> (r: &'static str)
    ensures
        r@ == default_path_of(kind),
{
    match kind {
        PlayerKind::Mpv | PlayerKind::MpvNet | PlayerKind::Iina => "mpv",
        PlayerKind::Vlc => "vlc",
        PlayerKind::Mplayer => "mplayer",
        PlayerKind::MpcHc => "mpc-hc",
        PlayerKind::MpcBe => "mpc-be",
        PlayerKind::Unknown => "mpv",
    }
}

/// A player found on this machine.
#[derive(Debug, Clone)]
pub struct DetectedPlayer {
    pub name: String,
    pub path: String,
    pub version: Option<String>,
}

/// The players found, and when (milliseconds since the Unix epoch).
#[derive(Debug, Clone)]
pub struct PlayerDetectionCache {
    pub players: Vec<DetectedPlayer>,
    pub updated_at: Option<i64>,
}

/// The version that a player's `--version` output gives, by kind.
pub open spec fn version_of(kind: PlayerKind, output: Seq<char>) -> Option<Seq<char>> {
    match kind {
        PlayerKind::Vlc => word_of_first_line(output, 2),
        PlayerKind::Mplayer => mplayer_version(output),
        _ => word_of_first_line(output, 1),
    }
}

pub open spec fn opt_text(o: Option<String>) -> Option<Seq<char>> {
    match o {
        Some(s) => Some(s@),
        None => None,
    }
}

/// The entry for a player of `kind` found at `path`, whose `--version`
/// printed `output`.
pub fn detected_player(kind: PlayerKind, path: String, output: &str) -> (r: DetectedPlayer)
    ensures
        r.name@ == display_name_of(kind),
        r.path == path,
        opt_text(r.version) == version_of(kind, output@),
{
    let version = match kind {
        PlayerKind::Vlc => parse_vlc_version(output),
        PlayerKind::Mplayer => parse_mplayer_version(output),
        _ => parse_mpv_version(output),
    };
    DetectedPlayer { name: to_owned_text(kind.display_name()), path, version }
}

/// Word `n` of the first line of `s`, if both exist.
pub open spec fn word_of_first_line(s: Seq<char>, n: int) -> Option<Seq<char>> {
    if lines(s).len() > 0 && words(lines(s)[0]).len() > n {
        Some(words(lines(s)[0])[n])
    } else {
        None
    }
}

fn word_of_first_line_exec(output: &str, n: usize) -> (r: Option<String>)
    ensures
        match r {
            Some(v) => word_of_first_line(output@, n as int) == Some(v@),
            None => word_of_first_line(output@, n as int) is None,
        },
{
    let ls = split_lines(output);
    if ls.len() == 0 {
        return None;
    }
    let ws = split_words(ls[0].as_str());
    proof {
        assert(strings_view(ls@)[0] == ls@[0]@);
    }
    if ws.len() > n {
        proof {
            assert(strings_view(ws@)[n as int] == ws@[n as int]@);
        }
        Some(ws[n].clone())
    } else {
        None
    }
}

/// The version in `mpv --version` output: the second word of its first line.
pub fn parse_mpv_version(output: &str) -> (r: Option<String>)
    ensures
        match r {
            Some(v) => word_of_first_line(output@, 1) == Some(v@),
            None => word_of_first_line(output@, 1) is None,
        },
{
    word_of_first_line_exec(output, 1)
}

/// The version in `vlc --version` output: the third word of its first line.
pub fn parse_vlc_version(output: &str) -> (r: Option<String>)
    ensures
        match r {
            Some(v) => word_of_first_line(output@, 2) == Some(v@),
            None => word_of_first_line(output@, 2) is None,
        },
{
    word_of_first_line_exec(output, 2)
}

/// The index of the first line that mentions MPlayer, in any ASCII case.
pub open spec fn first_mplayer_line(ls: Seq<Seq<char>>) -> Option<int> {
    if exists|k: int| 0 <= k < ls.len() && contains_run(ascii_lower(#[trigger] ls[k]), "mplayer"@) {
        Some(
            choose|k: int|
                0 <= k < ls.len() && contains_run(ascii_lower(#[trigger] ls[k]), "mplayer"@)
                    && forall|j: int| 0 <= j < k ==> !contains_run(ascii_lower(#[trigger] ls[j]), "mplayer"@),
        )
    } else {
        None
    }
}

/// The version in MPlayer's banner: the second word of the first line that
/// mentions MPlayer.
pub open spec fn mplayer_version(s: Seq<char>) -> Option<Seq<char>> {
    match first_mplayer_line(lines(s)) {
        Some(k) => if words(lines(s)[k]).len() > 1 {
            Some(words(lines(s)[k])[1])
        } else {
            None
        },
        None => None,
    }
}

pub fn parse_mplayer_version(output: &str) -> (r: Option<String>)
    ensures
        match r {
            Some(v) => mplayer_version(output@) == Some(v@),
            None => mplayer_version(output@) is None,
        },
{
    let ls = split_lines(output);
    let ghost v = strings_view(ls@);
    let mut i: usize = 0;
    while i < ls.len()
        invariant
            i <= ls@.len(),
            v == strings_view(ls@),
            v == lines(output@),
            forall|j: int| 0 <= j < i ==> !contains_run(ascii_lower(#[trigger] v[j]), "mplayer"@),
        decreases ls@.len() - i,
    {
        let lower = ascii_lowercase(ls[i].as_str());
        if contains_text(lower.as_str(), "mplayer") {
            proof {
                assert(v[i as int] == ls@[i as int]@);
                let k = first_mplayer_line(v)->0;
                assert(k == i) by {
                    if k < i {
                    }
                    if k > i {
                        assert(contains_run(ascii_lower(v[i as int]), "mplayer"@));
                    }
                }
            }
            let ws = split_words(ls[i].as_str());
            if ws.len() > 1 {
                proof {
                    assert(strings_view(ws@)[1] == ws@[1]@);
                }
                return Some(ws[1].clone());
            } else {
                return None;
            }
        }
        proof {
            assert(v[i as int] == ls@[i as int]@);
        }
        i = i + 1;
    }
    None
}

/// What an MPlayer `ANS_*` reply reports.
#[derive(Debug, Clone, Copy, PartialEq, Eq, Structural)]
pub enum ResponseKey {
    Position,
    Duration,
    Filename,
    Path,
    Pause,
    Speed,
}

/// An MPlayer reply line, trimmed, read as a key and its value text; file
/// names and paths lose their surrounding quotes.
pub open spec fn mplayer_reply(line: Seq<char>) -> Option<(ResponseKey, Seq<char>)> {
    let t = trim(line);
    if after_prefix(t, "ANS_TIME_POSITION="@) is Some {
        Some((ResponseKey::Position, after_prefix(t, "ANS_TIME_POSITION="@)->0))
    } else if after_prefix(t, "ANS_LENGTH="@) is Some {
        Some((ResponseKey::Duration, after_prefix(t, "ANS_LENGTH="@)->0))
    } else if after_prefix(t, "ANS_FILENAME="@) is Some {
        Some((ResponseKey::Path, trim_char(after_prefix(t, "ANS_FILENAME="@)->0, '"')))
    } else if after_prefix(t, "ANS_FILE_NAME="@) is Some {
        Some((ResponseKey::Filename, trim_char(after_prefix(t, "ANS_FILE_NAME="@)->0, '"')))
    } else if after_prefix(t, "ANS_PATH="@) is Some {
        Some((ResponseKey::Path, trim_char(after_prefix(t, "ANS_PATH="@)->0, '"')))
    } else if after_prefix(t, "ANS_pause="@) is Some {
        Some((ResponseKey::Pause, after_prefix(t, "ANS_pause="@)->0))
    } else if after_prefix(t, "ANS_speed="@) is Some {
        Some((ResponseKey::Speed, after_prefix(t, "ANS_speed="@)->0))
    } else {
        None
    }
}

/// Reads one MPlayer reply line; see [`mplayer_reply`].
pub fn parse_response(line: &str) -> (r: Option<(ResponseKey, String)>)
    ensures
        match r {
            Some((k, v)) => mplayer_reply(line@) == Some((k, v@)),
            None => mplayer_reply(line@) is None,
        },
{
    let t = trim_text(line);
    let t = t.as_str();
    if let Some(v) = strip_prefix_text(t, "ANS_TIME_POSITION=") {
        return Some((ResponseKey::Position, v));
    }
    if let Some(v) = strip_prefix_text(t, "ANS_LENGTH=") {
        return Some((ResponseKey::Duration, v));
    }
    if let Some(v) = strip_prefix_text(t, "ANS_FILENAME=") {
        return Some((ResponseKey::Path, trim_quotes(v.as_str())));
    }
    if let Some(v) = strip_prefix_text(t, "ANS_FILE_NAME=") {
        return Some((ResponseKey::Filename, trim_quotes(v.as_str())));
    }
    if let Some(v) = strip_prefix_text(t, "ANS_PATH=") {
        return Some((ResponseKey::Path, trim_quotes(v.as_str())));
    }
    if let Some(v) = strip_prefix_text(t, "ANS_pause=") {
        return Some((ResponseKey::Pause, v));
    }
    if let Some(v) = strip_prefix_text(t, "ANS_speed=") {
        return Some((ResponseKey::Speed, v));
    }
    None
}

/// What a VLC console line reports. Numbers stay text; pause states are
/// already read.
#[derive(Debug, Clone, PartialEq)]
pub enum VlcReply {
    Time(String),
    Length(String),
    Paused(bool),
    Rate(String),
    File(String),
}

pub enum VlcReplyView {
    Time(Seq<char>),
    Length(Seq<char>),
    Paused(bool),
    Rate(Seq<char>),
    File(Seq<char>),
}

impl View for VlcReply {
    type V = VlcReplyView;

    open spec fn view(&self) -> VlcReplyView {
        match self {
            VlcReply::Time(s) => VlcReplyView::Time(s@),
            VlcReply::Length(s) => VlcReplyView::Length(s@),
            VlcReply::Paused(b) => VlcReplyView::Paused(*b),
            VlcReply::Rate(s) => VlcReplyView::Rate(s@),
            VlcReply::File(s) => VlcReplyView::File(s@),
        }
    }
}

/// A VLC state word: playing is not paused; paused and stopped are.
pub open spec fn vlc_state(w: Seq<char>) -> Option<VlcReplyView> {
    if w == "playing"@ {
        Some(VlcReplyView::Paused(false))
    } else if w == "paused"@ || w == "stopped"@ {
        Some(VlcReplyView::Paused(true))
    } else {
        None
    }
}

/// A VLC console line, trimmed and read by its prefix; values are trimmed.
pub open spec fn vlc_reply(line: Seq<char>) -> Option<VlcReplyView> {
    let t = trim(line);
    if after_prefix(t, "time:"@) is Some {
        Some(VlcReplyView::Time(trim(after_prefix(t, "time:"@)->0)))
    } else if after_prefix(t, "length:"@) is Some {
        Some(VlcReplyView::Length(trim(after_prefix(t, "length:"@)->0)))
    } else if after_prefix(t, "state "@) is Some {
        vlc_state(trim(after_prefix(t, "state "@)->0))
    } else if after_prefix(t, "state:"@) is Some {
        vlc_state(trim(after_prefix(t, "state:"@)->0))
    } else if after_prefix(t, "rate:"@) is Some {
        Some(VlcReplyView::Rate(trim(after_prefix(t, "rate:"@)->0)))
    } else if after_prefix(t, "file:"@) is Some {
        Some(VlcReplyView::File(trim(after_prefix(t, "file:"@)->0)))
    } else {
        None
    }
}

fn same_text(a: &String, b: &str) -> (r: bool)
    ensures
        r == (a@ == b@),
{
    *a == to_owned_text(b)
}

fn vlc_state_exec(w: &String) -> (r: Option<VlcReply>)
    ensures
        match r {
            Some(x) => vlc_state(w@) == Some(x@),
            None => vlc_state(w@) is None,
        },
{
    if same_text(w, "playing") {
        Some(VlcReply::Paused(false))
    } else if same_text(w, "paused") || same_text(w, "stopped") {
        Some(VlcReply::Paused(true))
    } else {
        None
    }
}

/// Reads one VLC console line; see [`vlc_reply`].
pub fn parse_vlc_line(line: &str) -> (r: Option<VlcReply>)
    ensures
        match r {
            Some(x) => vlc_reply(line@) == Some(x@),
            None => vlc_reply(line@) is None,
        },
{
    let t = trim_text(line);
    let t = t.as_str();
    if let Some(v) = strip_prefix_text(t, "time:") {
        return Some(VlcReply::Time(trim_text(v.as_str())));
    }
    if let Some(v) = strip_prefix_text(t, "length:") {
        return Some(VlcReply::Length(trim_text(v.as_str())));
    }
    if let Some(v) = strip_prefix_text(t, "state ") {
        return vlc_state_exec(&trim_text(v.as_str()));
    }
    if let Some(v) = strip_prefix_text(t, "state:") {
        return vlc_state_exec(&trim_text(v.as_str()));
    }
    if let Some(v) = strip_prefix_text(t, "rate:") {
        return Some(VlcReply::Rate(trim_text(v.as_str())));
    }
    if let Some(v) = strip_prefix_text(t, "file:") {
        return Some(VlcReply::File(trim_text(v.as_str())));
    }
    None
}

/// A pause word as the players write it: `yes`, `true`, `1` or `no`,
/// `false`, `0`, after trimming.
pub open spec fn flag_word(w: Seq<char>) -> Option<bool> {
    let t = trim(w);
    if t == "yes"@ || t == "true"@ || t == "1"@ {
        Some(true)
    } else if t == "no"@ || t == "false"@ || t == "0"@ {
        Some(false)
    } else {
        None
    }
}

pub fn parse_flag_word(w: &str) -> (r: Option<bool>)
    ensures
        r == flag_word(w@),
{
    let t = trim_text(w);
    if same_text(&t, "yes") || same_text(&t, "true") || same_text(&t, "1") {
        Some(true)
    } else if same_text(&t, "no") || same_text(&t, "false") || same_text(&t, "0") {
        Some(false)
    } else {
        None
    }
}

/// One line of the MPC web interface's `variables.html`, as read.
#[derive(Debug, Clone, PartialEq)]
pub enum MpcVariable {
    Position(String),
    Duration(String),
    FilePath(String),
    Paused(Option<bool>),
    Speed(String),
}

pub enum MpcVariableView {
    Position(Seq<char>),
    Duration(Seq<char>),
    FilePath(Seq<char>),
    Paused(Option<bool>),
    Speed(Seq<char>),
}

impl View for MpcVariable {
    type V = MpcVariableView;

    open spec fn view(&self) -> MpcVariableView {
        match self {
            MpcVariable::Position(v) => MpcVariableView::Position(v@),
            MpcVariable::Duration(v) => MpcVariableView::Duration(v@),
            MpcVariable::FilePath(v) => MpcVariableView::FilePath(v@),
            MpcVariable::Paused(b) => MpcVariableView::Paused(*b),
            MpcVariable::Speed(v) => MpcVariableView::Speed(v@),
        }
    }
}

/// The index of the first `=` in `s`, if any.
pub open spec fn first_eq(s: Seq<char>) -> Option<int> {
    if exists|k: int| 0 <= k < s.len() && s[k] == '=' && forall|j: int| 0 <= j < k ==> s[j] != '=' {
        Some(choose|k: int| 0 <= k < s.len() && s[k] == '=' && forall|j: int| 0 <= j < k ==> s[j] != '=')
    } else {
        None
    }
}

/// A `key=value` line split at its first `=`, both sides trimmed; without
/// `=` the whole line is the key and the value is empty.
pub open spec fn key_value(line: Seq<char>) -> (Seq<char>, Seq<char>) {
    match first_eq(line) {
        Some(k) => (trim(line.subrange(0, k)), trim(line.subrange(k + 1, line.len() as int))),
        None => (trim(line), Seq::empty()),
    }
}

/// The variable that a line reports; other keys report nothing. A pause
/// value that is no pause word reports an unknown pause state.
pub open spec fn mpc_variable(line: Seq<char>) -> Option<MpcVariableView> {
    let (k, v) = key_value(line);
    if k == "position"@ {
        Some(MpcVariableView::Position(v))
    } else if k == "duration"@ {
        Some(MpcVariableView::Duration(v))
    } else if k == "filepath"@ {
        Some(MpcVariableView::FilePath(v))
    } else if k == "paused"@ {
        Some(MpcVariableView::Paused(flag_word(v)))
    } else if k == "speed"@ {
        Some(MpcVariableView::Speed(v))
    } else {
        None
    }
}

fn split_key_value(line: &str) -> (r: (String, String))
    ensures
        (r.0@, r.1@) == key_value(line@),
{
    let n = line.unicode_len();
    let mut i: usize = 0;
    while i < n
        invariant
            n == line@.len(),
            i <= n,
            forall|j: int| 0 <= j < i ==> line@[j] != '=',
        decreases n - i,
    {
        if line.get_char(i) == '=' {
            proof {
                let k = first_eq(line@)->0;
                assert(k == i) by {
                    if k > i {
                        assert(line@[i as int] == '=');
                    }
                }
            }
            let key = crate::text::copy_range(line, 0, i);
            let value = crate::text::copy_range(line, i + 1, n);
            return (trim_text(key.as_str()), trim_text(value.as_str()));
        }
        i = i + 1;
    }
    (trim_text(line), String::new())
}

/// Reads one line of `variables.html`; see [`mpc_variable`].
pub fn parse_mpc_variable(line: &str) -> (r: Option<MpcVariable>)
    ensures
        match r {
            Some(x) => mpc_variable(line@) == Some(x@),
            None => mpc_variable(line@) is None,
        },
{
    let (k, v) = split_key_value(line);
    if same_text(&k, "position") {
        Some(MpcVariable::Position(v))
    } else if same_text(&k, "duration") {
        Some(MpcVariable::Duration(v))
    } else if same_text(&k, "filepath") {
        Some(MpcVariable::FilePath(v))
    } else if same_text(&k, "paused") {
        Some(MpcVariable::Paused(parse_flag_word(v.as_str())))
    } else if same_text(&k, "speed") {
        Some(MpcVariable::Speed(v))
    } else {
        None
    }
}

} // verus!
