//! The protocol's message model and the messages this client builds.
//! Positions and times are in milliseconds.
use vstd::prelude::*;
use crate::session::{reply_of, IgnoringInfo, IgnoringOnTheFlyState};
use crate::text::to_owned_text;

verus! {

/// The protocol version sent for compatibility.
pub const COMPAT_VERSION: &'static str = "1.2.255";

#[derive(Debug)]
pub struct RoomInfo {
    pub name: String,
    pub password: Option<String>,
}

impl Clone for RoomInfo {
    fn clone(&self) -> (r: Self)
        ensures
            r == *self,
    {
        RoomInfo {
            name: self.name.clone(),
            password: match &self.password {
                Some(p) => Some(p.clone()),
                None => None,
            },
        }
    }
}

/// The feature bag advertised in Hello.
#[derive(Debug, Clone, Copy, PartialEq, Eq, Structural)]
pub struct ClientFeatures {
    pub shared_playlists: Option<bool>,
    pub chat: Option<bool>,
    pub ready_state: Option<bool>,
    pub managed_rooms: Option<bool>,
    pub persistent_rooms: Option<bool>,
}

#[derive(Debug)]
pub struct HelloMessage {
    pub username: String,
    pub password: Option<String>,
    pub room: Option<RoomInfo>,
    pub version: String,
    pub realversion: String,
    pub features: Option<ClientFeatures>,
    pub motd: Option<String>,
}

impl Clone for HelloMessage {
    fn clone(&self) -> (r: Self)
        ensures
            r == *self,
    {
        HelloMessage {
            username: self.username.clone(),
            password: match &self.password {
                Some(p) => Some(p.clone()),
                None => None,
            },
            room: match &self.room {
                Some(x) => Some(x.clone()),
                None => None,
            },
            version: self.version.clone(),
            realversion: self.realversion.clone(),
            features: self.features,
            motd: match &self.motd {
                Some(p) => Some(p.clone()),
                None => None,
            },
        }
    }
}

/// File metadata; `duration` in milliseconds.
#[derive(Debug, Clone)]
pub struct FileInfo {
    pub name: Option<String>,
    pub size: Option<u64>,
    pub duration: Option<u64>,
}

#[derive(Debug, Clone)]
pub struct UserEvent {
    pub joined: Option<bool>,
    pub left: Option<bool>,
}

#[derive(Debug, Clone)]
pub struct UserUpdate {
    pub room: Option<RoomInfo>,
    pub file: Option<FileInfo>,
    pub event: Option<UserEvent>,
    pub controller: Option<bool>,
    pub is_ready: Option<bool>,
}

/// `isReady` is `None` when the server sent null or nothing, which is not
/// the same as `Some(false)`.
#[derive(Debug, Clone)]
pub struct ReadyState {
    pub username: Option<String>,
    pub is_ready: Option<bool>,
    pub manually_initiated: Option<bool>,
    pub set_by: Option<String>,
}

/// `index` is `None` when the server sent null: no index.
#[derive(Debug, Clone)]
pub struct PlaylistIndexUpdate {
    pub user: Option<String>,
    pub index: Option<usize>,
}

#[derive(Debug, Clone)]
pub struct PlaylistChange {
    pub user: Option<String>,
    pub files: Vec<String>,
}

#[derive(Debug, Clone)]
pub struct ControllerAuth {
    pub room: Option<String>,
    pub password: Option<String>,
    pub user: Option<String>,
    pub success: Option<bool>,
}

#[derive(Debug, Clone)]
pub struct NewControlledRoom {
    pub room_name: String,
    pub password: String,
}

/// A `Set` message; `user` maps user names to their updates, in the order
/// received.
#[derive(Debug, Clone)]
pub struct SetMessage {
    pub room: Option<RoomInfo>,
    pub file: Option<FileInfo>,
    pub user: Option<Vec<(String, UserUpdate)>>,
    pub ready: Option<ReadyState>,
    pub playlist_index: Option<PlaylistIndexUpdate>,
    pub playlist_change: Option<PlaylistChange>,
    pub controller_auth: Option<ControllerAuth>,
    pub new_controlled_room: Option<NewControlledRoom>,
}

/// A playstate; `position` in milliseconds.
#[derive(Debug)]
pub struct PlayState {
    pub position: i64,
    pub paused: bool,
    pub do_seek: Option<bool>,
    pub set_by: Option<String>,
}

impl Clone for PlayState {
    fn clone(&self) -> (r: Self)
        ensures
            r == *self,
    {
        PlayState {
            position: self.position,
            paused: self.paused,
            do_seek: self.do_seek,
            set_by: match &self.set_by {
                Some(x) => Some(x.clone()),
                None => None,
            },
        }
    }
}

/// Ping fields, all in milliseconds.
#[derive(Debug, Clone, Copy, PartialEq, Eq, Structural)]
pub struct PingInfo {
    pub latency_calculation: Option<i64>,
    pub client_latency_calculation: Option<i64>,
    pub client_rtt: Option<i64>,
    pub server_rtt: Option<i64>,
}

#[derive(Debug, Clone)]
pub struct StateMessage {
    pub playstate: Option<PlayState>,
    pub ping: Option<PingInfo>,
    pub ignoring_on_the_fly: Option<IgnoringInfo>,
}

#[derive(Debug, Clone)]
pub struct UserInfo {
    pub file: Option<FileInfo>,
    pub controller: Option<bool>,
    pub is_ready: Option<bool>,
    pub features: Option<ClientFeatures>,
}

/// A `Chat` message: an entry `{username, message}`, or bare text when
/// `username` is `None`.
#[derive(Debug, Clone)]
pub struct ChatMessage {
    pub username: Option<String>,
    pub message: String,
}

#[derive(Debug, Clone)]
pub struct ErrorMessage {
    pub message: String,
}

#[derive(Debug, Clone)]
pub struct TLSMessage {
    pub start_tls: Option<String>,
}

/// Rooms mapped to their users, in the order received.
pub type ListResponse = Vec<(String, Vec<(String, UserInfo)>)>;

/// One protocol message, tagged by its single top-level key.
#[derive(Debug, Clone)]
pub enum ProtocolMessage {
    Hello(HelloMessage),
    SetUpdate(SetMessage),
    State(StateMessage),
    Chat(ChatMessage),
    Error(ErrorMessage),
    TLS(TLSMessage),
    /// `None` is `List: null`, a request for (or an empty) user list.
    List(Option<ListResponse>),
}

/// The top-level key of a message.
#[derive(Debug, Clone, Copy, PartialEq, Eq, Structural)]
pub enum MessageTag {
    Hello,
    SetUpdate,
    State,
    Chat,
    Error,
    TLS,
    List,
}

/// Why a message envelope is refused.
#[derive(Debug, Clone, Copy, PartialEq, Eq, Structural)]
pub enum EnvelopeError {
    /// Not exactly one top-level key.
    Malformed,
    /// A key that names no message.
    Unknown,
}

pub open spec fn tag_of(key: Seq<char>) -> Option<MessageTag> {
    if key == "Hello"@ {
        Some(MessageTag::Hello)
    } else if key == "Set"@ {
        Some(MessageTag::SetUpdate)
    } else if key == "State"@ {
        Some(MessageTag::State)
    } else if key == "Chat"@ {
        Some(MessageTag::Chat)
    } else if key == "Error"@ {
        Some(MessageTag::Error)
    } else if key == "TLS"@ {
        Some(MessageTag::TLS)
    } else if key == "List"@ {
        Some(MessageTag::List)
    } else {
        None
    }
}

/// Reads an envelope from its top-level keys: exactly one, naming a message.
pub fn classify_envelope(keys: &Vec<String>) -> (r: Result<MessageTag, EnvelopeError>)
    ensures
        keys@.len() != 1 ==> r == Err::<MessageTag, EnvelopeError>(EnvelopeError::Malformed),
        keys@.len() == 1 && tag_of(keys@[0]@) is None ==> r == Err::<MessageTag, EnvelopeError>(
            EnvelopeError::Unknown,
        ),
        keys@.len() == 1 && tag_of(keys@[0]@) is Some ==> r == Ok::<MessageTag, EnvelopeError>(
            tag_of(keys@[0]@)->0,
        ),
{
    if keys.len() != 1 {
        return Err(EnvelopeError::Malformed);
    }
    let k = &keys[0];
    if *k == to_owned_text("Hello") {
        Ok(MessageTag::Hello)
    } else if *k == to_owned_text("Set") {
        Ok(MessageTag::SetUpdate)
    } else if *k == to_owned_text("State") {
        Ok(MessageTag::State)
    } else if *k == to_owned_text("Chat") {
        Ok(MessageTag::Chat)
    } else if *k == to_owned_text("Error") {
        Ok(MessageTag::Error)
    } else if *k == to_owned_text("TLS") {
        Ok(MessageTag::TLS)
    } else if *k == to_owned_text("List") {
        Ok(MessageTag::List)
    } else {
        Err(EnvelopeError::Unknown)
    }
}

impl ProtocolMessage {
    /// The key this message travels under.
    pub fn tag(&self) -> (r: MessageTag)
        ensures
            r == match self {
                ProtocolMessage::Hello(_) => MessageTag::Hello,
                ProtocolMessage::SetUpdate(_) => MessageTag::SetUpdate,
                ProtocolMessage::State(_) => MessageTag::State,
                ProtocolMessage::Chat(_) => MessageTag::Chat,
                ProtocolMessage::Error(_) => MessageTag::Error,
                ProtocolMessage::TLS(_) => MessageTag::TLS,
                ProtocolMessage::List(_) => MessageTag::List,
            },
    {
        match self {
            ProtocolMessage::Hello(_) => MessageTag::Hello,
            ProtocolMessage::SetUpdate(_) => MessageTag::SetUpdate,
            ProtocolMessage::State(_) => MessageTag::State,
            ProtocolMessage::Chat(_) => MessageTag::Chat,
            ProtocolMessage::Error(_) => MessageTag::Error,
            ProtocolMessage::TLS(_) => MessageTag::TLS,
            ProtocolMessage::List(_) => MessageTag::List,
        }
    }
}

/// The wire key of each tag.
pub open spec fn tag_text(tag: MessageTag) -> Seq<char> {
    match tag {
        MessageTag::Hello => "Hello"@,
        MessageTag::SetUpdate => "Set"@,
        MessageTag::State => "State"@,
        MessageTag::Chat => "Chat"@,
        MessageTag::Error => "Error"@,
        MessageTag::TLS => "TLS"@,
        MessageTag::List => "List"@,
    }
}

/// The wire key of `tag`.
pub fn tag_name(tag: MessageTag) -> (r: &'static str)
    ensures
        r@ == tag_text(tag),
{
    match tag {
        MessageTag::Hello => "Hello",
        MessageTag::SetUpdate => "Set",
        MessageTag::State => "State",
        MessageTag::Chat => "Chat",
        MessageTag::Error => "Error",
        MessageTag::TLS => "TLS",
        MessageTag::List => "List",
    }
}

/// Every tag's wire key reads back as that tag, so an envelope written under
/// a message's key is classified as that message.
pub proof fn lemma_tag_round_trip(tag: MessageTag)
    ensures
        tag_of(tag_text(tag)) == Some(tag),
{
    reveal_strlit("Hello");
    reveal_strlit("Set");
    reveal_strlit("State");
    reveal_strlit("Chat");
    reveal_strlit("Error");
    reveal_strlit("TLS");
    reveal_strlit("List");
    assert("Set"@ != "Hello"@) by {
        assert("Set"@.len() != "Hello"@.len());
    }
    assert("State"@ != "Hello"@) by {
        assert("State"@[0] != "Hello"@[0]);
    }
    assert("State"@ != "Set"@) by {
        assert("State"@.len() != "Set"@.len());
    }
    assert("Chat"@ != "Hello"@) by {
        assert("Chat"@.len() != "Hello"@.len());
    }
    assert("Chat"@ != "Set"@) by {
        assert("Chat"@.len() != "Set"@.len());
    }
    assert("Chat"@ != "State"@) by {
        assert("Chat"@.len() != "State"@.len());
    }
    assert("Error"@ != "Hello"@) by {
        assert("Error"@[0] != "Hello"@[0]);
    }
    assert("Error"@ != "Set"@) by {
        assert("Error"@.len() != "Set"@.len());
    }
    assert("Error"@ != "State"@) by {
        assert("Error"@[0] != "State"@[0]);
    }
    assert("Error"@ != "Chat"@) by {
        assert("Error"@.len() != "Chat"@.len());
    }
    assert("TLS"@ != "Hello"@) by {
        assert("TLS"@.len() != "Hello"@.len());
    }
    assert("TLS"@ != "Set"@) by {
        assert("TLS"@[0] != "Set"@[0]);
    }
    assert("TLS"@ != "State"@) by {
        assert("TLS"@.len() != "State"@.len());
    }
    assert("TLS"@ != "Chat"@) by {
        assert("TLS"@.len() != "Chat"@.len());
    }
    assert("TLS"@ != "Error"@) by {
        assert("TLS"@.len() != "Error"@.len());
    }
    assert("List"@ != "Hello"@) by {
        assert("List"@.len() != "Hello"@.len());
    }
    assert("List"@ != "Set"@) by {
        assert("List"@.len() != "Set"@.len());
    }
    assert("List"@ != "State"@) by {
        assert("List"@.len() != "State"@.len());
    }
    assert("List"@ != "Chat"@) by {
        assert("List"@[0] != "Chat"@[0]);
    }
    assert("List"@ != "Error"@) by {
        assert("List"@.len() != "Error"@.len());
    }
    assert("List"@ != "TLS"@) by {
        assert("List"@.len() != "TLS"@.len());
    }
}

/// The fixed feature bag: shared playlists as configured, chat and ready
/// state on, managed and persistent rooms off.
pub open spec fn advertised_features(shared_playlists: bool) -> ClientFeatures {
    ClientFeatures {
        shared_playlists: Some(shared_playlists),
        chat: Some(true),
        ready_state: Some(true),
        managed_rooms: Some(false),
        persistent_rooms: Some(false),
    }
}

/// The Hello this client sends.
pub fn build_hello(
    username: String,
    password: Option<String>,
    room: String,
    realversion: String,
    shared_playlists: bool,
) -> (r: HelloMessage)
    ensures
        r.username == username,
        r.password == password,
        r.room is Some && r.room->0.name == room && r.room->0.password is None,
        r.version@ == COMPAT_VERSION@,
        r.realversion == realversion,
        r.features == Some(advertised_features(shared_playlists)),
        r.motd is None,
{
    HelloMessage {
        username,
        password,
        room: Some(RoomInfo { name: room, password: None }),
        version: to_owned_text(COMPAT_VERSION),
        realversion,
        features: Some(
            ClientFeatures {
                shared_playlists: Some(shared_playlists),
                chat: Some(true),
                ready_state: Some(true),
                managed_rooms: Some(false),
                persistent_rooms: Some(false),
            },
        ),
        motd: None,
    }
}

pub open spec fn empty_set() -> SetMessage {
    SetMessage {
        room: None,
        file: None,
        user: None,
        ready: None,
        playlist_index: None,
        playlist_change: None,
        controller_auth: None,
        new_controlled_room: None,
    }
}

fn new_set() -> (r: SetMessage)
    ensures
        r == empty_set(),
{
    SetMessage {
        room: None,
        file: None,
        user: None,
        ready: None,
        playlist_index: None,
        playlist_change: None,
        controller_auth: None,
        new_controlled_room: None,
    }
}

/// `Set.ready` announcing our readiness.
pub fn ready_message(username: Option<String>, is_ready: bool, manually_initiated: bool) -> (r:
    SetMessage)
    ensures
        r == (SetMessage {
            ready: Some(
                ReadyState {
                    username: username,
                    is_ready: Some(is_ready),
                    manually_initiated: Some(manually_initiated),
                    set_by: None,
                },
            ),
            ..empty_set()
        }),
{
    let mut m = new_set();
    m.ready = Some(
        ReadyState {
            username,
            is_ready: Some(is_ready),
            manually_initiated: Some(manually_initiated),
            set_by: None,
        },
    );
    m
}

/// `Set.controllerAuth` asking to operate `room` with `password`.
pub fn controller_auth_message(room: String, password: String) -> (r: SetMessage)
    ensures
        r == (SetMessage {
            controller_auth: Some(
                ControllerAuth { room: Some(room), password: Some(password), user: None, success: None },
            ),
            ..empty_set()
        }),
{
    let mut m = new_set();
    m.controller_auth = Some(
        ControllerAuth { room: Some(room), password: Some(password), user: None, success: None },
    );
    m
}

/// `Set.room` moving us to `room`.
pub fn room_change_message(room: String) -> (r: SetMessage)
    ensures
        r == (SetMessage { room: Some(RoomInfo { name: room, password: None }), ..empty_set() }),
{
    let mut m = new_set();
    m.room = Some(RoomInfo { name: room, password: None });
    m
}

/// `Set.file` announcing the file we play.
pub fn file_message(file: FileInfo) -> (r: SetMessage)
    ensures
        r == (SetMessage { file: Some(file), ..empty_set() }),
{
    let mut m = new_set();
    m.file = Some(file);
    m
}

/// `Set.playlistIndex` announcing the current playlist index.
pub fn playlist_index_message(user: String, index: usize) -> (r: SetMessage)
    ensures
        r == (SetMessage {
            playlist_index: Some(PlaylistIndexUpdate { user: Some(user), index: Some(index) }),
            ..empty_set()
        }),
{
    let mut m = new_set();
    m.playlist_index = Some(PlaylistIndexUpdate { user: Some(user), index: Some(index) });
    m
}

/// The `State` reply: our playstate unless only our own change awaits its
/// echo, the ping fields, and the ignoring-on-the-fly block, with the
/// counters moved on as [`reply_of`] says.
pub fn build_state_message(
    ignoring: &mut IgnoringOnTheFlyState,
    playstate: Option<PlayState>,
    ping: PingInfo,
    state_change: bool,
) -> (r: StateMessage)
    ensures
        reply_of(*old(ignoring), state_change).0 ==> r.playstate == playstate,
        !reply_of(*old(ignoring), state_change).0 ==> r.playstate is None,
        r.ping == Some(ping),
        r.ignoring_on_the_fly == reply_of(*old(ignoring), state_change).1,
        *final(ignoring) == reply_of(*old(ignoring), state_change).2,
{
    let (send_playstate, info) = ignoring.prepare_reply(state_change);
    StateMessage {
        playstate: if send_playstate {
            playstate
        } else {
            None
        },
        ping: Some(ping),
        ignoring_on_the_fly: info,
    }
}

} // verus!
