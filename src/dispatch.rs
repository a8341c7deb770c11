//! The session: what the client does with each message from the server.
//! Every step takes the session state and a message, updates the state, and
//! returns the actions for the caller to carry out, in order.
use vstd::prelude::*;
use crate::control::{tls_decision_of, managed_room_notice, managed_room_notice_text, HelloGate, TlsDecision, TlsStatus};
use crate::messages::{
    build_hello, build_state_message, controller_auth_message, empty_set, room_change_message,
    ControllerAuth, HelloMessage, PingInfo, PlayState, ProtocolMessage, RoomInfo, SetMessage,
    StateMessage, UserUpdate,
};
use crate::ping::{average_of, forward_delay_of, ping_time_ok, rtt_ok, window_after, PingService};
use crate::playlist::{fresh_item, Playlist};
use crate::room::User;
use crate::session::{
    counters_after_info, parse_controlled_room_input, reply_of, split_room_input,
    IgnoringOnTheFlyState, SuppressionFlags,
};
use crate::state::{
    auth_outcome_of, controller_auth_outcome, controller_user, listed, merged_user, ready_roster,
    ready_self, roster_with, roster_without,
    with_rooms, AuthOutcome, ClientState,
};
use crate::text::{contains_run, contains_text, push_char, to_owned_text};

verus! {

/// What the caller is asked to do.
#[derive(Debug, Clone)]
pub enum SessionAction {
    /// Send a message to the server.
    Send(ProtocolMessage),
    /// Show a system line.
    System(String),
    /// Show an error line.
    ChatError(String),
    /// Show a chat line, from a user or as bare text.
    ChatLine(Option<String>, String),
    /// Upgrade the transport to TLS, then report with `on_tls_upgraded`.
    UpgradeTls,
    /// Publish the TLS status.
    TlsStatus(TlsStatus),
    /// Bring the local player in line with the global playstate, whose
    /// message is `message_age` milliseconds old.
    Synchronise { global: PlayState, message_age: i64 },
    /// Load a file or URL in the player.
    LoadMedia { name: String, notify_server: bool },
    /// Pause the local player.
    PausePlayer,
}

/// The mathematical form of a [`SessionAction`].
pub enum ActionView {
    Send(ProtocolMessage),
    System(Seq<char>),
    ChatError(Seq<char>),
    ChatLine(Option<Seq<char>>, Seq<char>),
    UpgradeTls,
    TlsStatus(TlsStatus),
    Synchronise(PlayState, i64),
    LoadMedia(Seq<char>, bool),
    PausePlayer,
}

pub open spec fn opt_view(o: Option<String>) -> Option<Seq<char>> {
    match o {
        Some(s) => Some(s@),
        None => None,
    }
}

impl View for SessionAction {
    type V = ActionView;

    open spec fn view(&self) -> ActionView {
        match self {
            SessionAction::Send(m) => ActionView::Send(*m),
            SessionAction::System(t) => ActionView::System(t@),
            SessionAction::ChatError(t) => ActionView::ChatError(t@),
            SessionAction::ChatLine(u, t) => ActionView::ChatLine(opt_view(*u), t@),
            SessionAction::UpgradeTls => ActionView::UpgradeTls,
            SessionAction::TlsStatus(s) => ActionView::TlsStatus(*s),
            SessionAction::Synchronise { global, message_age } => ActionView::Synchronise(
                *global,
                *message_age,
            ),
            SessionAction::LoadMedia { name, notify_server } => ActionView::LoadMedia(
                name@,
                *notify_server,
            ),
            SessionAction::PausePlayer => ActionView::PausePlayer,
        }
    }
}

pub open spec fn acts_view(v: Seq<SessionAction>) -> Seq<ActionView> {
    v.map_values(|a: SessionAction| a@)
}

/// The password last remembered for `room`.
pub open spec fn password_for(pw: Seq<(String, String)>, room: Seq<char>) -> Option<String>
    decreases pw.len(),
{
    if pw.len() == 0 {
        None
    } else if pw.last().0@ == room {
        Some(pw.last().1)
    } else {
        password_for(pw.drop_last(), room)
    }
}

/// Everything the client keeps about its server session.
pub struct Session {
    pub client: ClientState,
    pub ignoring: IgnoringOnTheFlyState,
    pub ping: PingService,
    pub playlist: Playlist,
    pub hello_gate: HelloGate,
    pub last_hello: Option<HelloMessage>,
    /// Control passwords by room; later entries win.
    pub room_passwords: Vec<(String, String)>,
    /// The control password of the last login attempt.
    pub pending_password: Option<String>,
    pub server_version: Option<String>,
    pub flags: SuppressionFlags,
    /// The last playstate the server announced.
    pub global: Option<PlayState>,
    /// Compare file durations when telling whether a file changed.
    pub show_duration: bool,
    /// Pause when someone leaves our room.
    pub pause_on_leave: bool,
}

impl Session {
    pub open spec fn wf(&self) -> bool {
        self.client.wf() && self.ping.wf() && self.playlist.wf()
    }
}

/// The controller login for `room`, if a password is known for it.
pub open spec fn login_acts(pw: Seq<(String, String)>, room: String) -> Seq<ActionView> {
    match password_for(pw, room@) {
        Some(p) => seq![
            ActionView::Send(
                ProtocolMessage::SetUpdate(
                    SetMessage {
                        controller_auth: Some(
                            ControllerAuth {
                                room: Some(room),
                                password: Some(p),
                                user: None,
                                success: None,
                            },
                        ),
                        ..empty_set()
                    },
                ),
            ),
        ],
        None => seq![],
    }
}

pub open spec fn pending_after_login(s: Session) -> Option<String> {
    match password_for(s.room_passwords@, s.client.room@) {
        Some(p) => Some(p),
        None => s.pending_password,
    }
}

/// The Hello goes out once per connection, when one was prepared.
pub open spec fn hello_acts(s: Session) -> Seq<ActionView> {
    if !s.hello_gate.hello_sent && s.last_hello is Some {
        seq![ActionView::Send(ProtocolMessage::Hello(s.last_hello->0))]
    } else {
        seq![]
    }
}

pub open spec fn hello_sent_after(s: Session) -> bool {
    s.hello_gate.hello_sent || s.last_hello is Some
}

/// The state a `State` message leaves in the counters.
pub open spec fn counters_of(s: Session, st: StateMessage) -> IgnoringOnTheFlyState {
    match st.ignoring_on_the_fly {
        Some(i) => counters_after_info(s.ignoring, i.server, i.client),
        None => s.ignoring,
    }
}

/// Whether the ping block can be used at time `now`.
pub open spec fn ping_usable(st: StateMessage, now: i64) -> bool {
    match st.ping {
        Some(p) => p.client_latency_calculation is Some && p.server_rtt is Some && ping_time_ok(
            p.client_latency_calculation->0,
        ) && ping_time_ok(p.server_rtt->0) && ping_time_ok(now),
        None => false,
    }
}

pub open spec fn samples_of(s: Session, st: StateMessage, now: i64) -> Seq<i64> {
    if ping_usable(st, now) && rtt_ok(st.ping->0.server_rtt->0) {
        window_after(s.ping.samples(), st.ping->0.server_rtt->0)
    } else {
        s.ping.samples()
    }
}

pub open spec fn delay_of(s: Session, st: StateMessage, now: i64) -> int {
    if ping_usable(st, now) {
        forward_delay_of(
            now as int,
            st.ping->0.client_latency_calculation->0 as int,
            st.ping->0.server_rtt->0 as int,
        )
    } else {
        s.ping.forward_delay() as int
    }
}

/// The `State` reply: our playstate unless held back, the echoed latency,
/// our clock and round-trip estimate, and the counters' block.
pub open spec fn state_reply(
    s: Session,
    st: StateMessage,
    now: i64,
    local: Option<PlayState>,
) -> StateMessage {
    let r = reply_of(counters_of(s, st), false);
    StateMessage {
        playstate: if r.0 {
            local
        } else {
            None
        },
        ping: Some(
            PingInfo {
                latency_calculation: match st.ping {
                    Some(p) => p.latency_calculation,
                    None => None,
                },
                client_latency_calculation: Some(now),
                client_rtt: Some(average_of(samples_of(s, st, now)) as i64),
                server_rtt: None,
            },
        ),
        ignoring_on_the_fly: r.1,
    }
}

pub open spec fn state_acts(s: Session, st: StateMessage, now: i64, local: Option<PlayState>) -> Seq<
    ActionView,
> {
    let sync: Seq<ActionView> = match st.playstate {
        Some(p) => seq![ActionView::Synchronise(p, delay_of(s, st, now) as i64)],
        None => seq![],
    };
    sync.push(ActionView::Send(ProtocolMessage::State(state_reply(s, st, now, local))))
}

/// A `Hello` from the server: greet, ask for the user list, and log in as
/// controller when the room's password is known.
pub open spec fn hello_effect(s: Session, h: HelloMessage, t: Session, acts: Seq<ActionView>) -> bool {
            &&& acts == seq![ActionView::System("Hello "@ + h.username@ + ","@)] + (match h.motd {
                Some(x) => seq![ActionView::System(x@)],
                None => seq![],
            }) + seq![
                ActionView::System("Successfully connected to server"@),
                ActionView::Send(ProtocolMessage::List(None)),
            ] + login_acts(s.room_passwords@, s.client.room)
            &&& t == Session {
                server_version: Some(h.realversion),
                pending_password: pending_after_login(s),
                ..s
            }
        }

/// What the session does with a `Hello`, `Chat`, `Error`, `TLS`, `State` or
/// `List` message: the actions, and how the state changes. (`Set` messages
/// go by [`set_effect`].)
pub open spec fn server_effect(
    s: Session,
    m: ProtocolMessage,
    now: i64,
    local: Option<PlayState>,
    t: Session,
    acts: Seq<ActionView>,
) -> bool {
    match m {
        ProtocolMessage::Hello(h) => hello_effect(s, h, t, acts),
        ProtocolMessage::List(l) => {
            &&& acts == Seq::<ActionView>::empty()
            &&& match l {
                Some(rooms) => t.client.users() == with_rooms(Seq::empty(), rooms@) && t == Session {
                    client: ClientState { users: t.client.users, ..s.client },
                    ..s
                },
                None => t == s,
            }
        },
        ProtocolMessage::Chat(c) => acts == seq![ActionView::ChatLine(opt_view(c.username), c.message@)]
            && t == s,
        ProtocolMessage::Error(e) => if contains_run(e.message@, "startTLS"@) {
            acts == hello_acts(s) && t == Session {
                hello_gate: HelloGate { hello_sent: hello_sent_after(s) },
                ..s
            }
        } else {
            acts == seq![ActionView::ChatError(e.message@)] && t == s
        },
        ProtocolMessage::TLS(x) => match tls_decision_of(opt_view(x.start_tls)) {
            TlsDecision::Upgrade => acts == seq![ActionView::UpgradeTls] && t == s,
            TlsDecision::Fallback => acts == seq![ActionView::TlsStatus(TlsStatus::Unsupported)]
                + hello_acts(s) && t == Session {
                hello_gate: HelloGate { hello_sent: hello_sent_after(s) },
                ..s
            },
            TlsDecision::Ignore => acts == Seq::<ActionView>::empty() && t == s,
        },
        ProtocolMessage::State(st) => {
            &&& acts == state_acts(s, st, now, local)
            &&& t.ignoring == reply_of(counters_of(s, st), false).2
            &&& t.ping.samples() == samples_of(s, st, now)
            &&& t.ping.forward_delay() == delay_of(s, st, now)
            &&& t.global == match st.playstate {
                Some(p) => Some(p),
                None => s.global,
            }
            &&& t == Session { ignoring: t.ignoring, ping: t.ping, global: t.global, ..s }
        },
        ProtocolMessage::SetUpdate(_) => true,
    }
}

pub open spec fn leaves(up: UserUpdate) -> bool {
    match up.event {
        Some(e) => e.left == Some(true),
        None => false,
    }
}

/// The roster after one `Set.user` entry.
pub open spec fn users_step(users: Seq<User>, room: String, name: String, up: UserUpdate) -> Seq<User> {
    if leaves(up) {
        roster_without(users, name@)
    } else {
        roster_with(users, merged_user(listed(users, name@), name, room, up))
    }
}

/// The line one `Set.user` entry is announced with: a known user leaving, or
/// a user appearing in a room.
pub open spec fn notice_step(users: Seq<User>, room: String, name: String, up: UserUpdate) -> Seq<
    ActionView,
> {
    if leaves(up) {
        if listed(users, name@) is Some {
            seq![ActionView::System(name@ + " has left"@)]
        } else {
            seq![]
        }
    } else {
        let u = merged_user(listed(users, name@), name, room, up);
        let moved = match listed(users, name@) {
            Some(o) => o.room@ != u.room@,
            None => true,
        };
        if moved {
            seq![ActionView::System(name@ + " has joined the room: '"@ + u.room@ + "'"@)]
        } else {
            seq![]
        }
    }
}

/// A user listed in our room leaves.
pub open spec fn left_here_step(users: Seq<User>, room: String, name: String, up: UserUpdate) -> bool {
    leaves(up) && listed(users, name@) is Some && listed(users, name@)->0.room@ == room@
}

pub open spec fn users_after(users: Seq<User>, room: String, es: Seq<(String, UserUpdate)>) -> Seq<User>
    decreases es.len(),
{
    if es.len() == 0 {
        users
    } else {
        users_step(users_after(users, room, es.drop_last()), room, es.last().0, es.last().1)
    }
}

pub open spec fn notices_after(users: Seq<User>, room: String, es: Seq<(String, UserUpdate)>) -> Seq<
    ActionView,
>
    decreases es.len(),
{
    if es.len() == 0 {
        seq![]
    } else {
        notices_after(users, room, es.drop_last()) + notice_step(
            users_after(users, room, es.drop_last()),
            room,
            es.last().0,
            es.last().1,
        )
    }
}

pub open spec fn left_here_after(users: Seq<User>, room: String, es: Seq<(String, UserUpdate)>) -> bool
    decreases es.len(),
{
    if es.len() == 0 {
        false
    } else {
        left_here_after(users, room, es.drop_last()) || left_here_step(
            users_after(users, room, es.drop_last()),
            room,
            es.last().0,
            es.last().1,
        )
    }
}

/// `Set.room`: we are moved, and log in as controller when we can.
pub open spec fn room_phase(a: Session, room: Option<RoomInfo>, b: Session) -> bool {
    match room {
        Some(r) => {
            let moved = Session { client: ClientState { room: r.name, ..a.client }, ..a };
            b == Session { pending_password: pending_after_login(moved), ..moved }
        },
        None => b == a,
    }
}

pub open spec fn room_acts(a: Session, room: Option<RoomInfo>) -> Seq<ActionView> {
    match room {
        Some(r) => login_acts(a.room_passwords@, r.name),
        None => seq![],
    }
}

/// `Set.file`: the named file is loaded, without announcing it back.
pub open spec fn file_acts(file: Option<crate::messages::FileInfo>) -> Seq<ActionView> {
    match file {
        Some(f) => match f.name {
            Some(n) => seq![ActionView::LoadMedia(n@, false)],
            None => seq![],
        },
        None => seq![],
    }
}

pub open spec fn users_phase(a: Session, user: Option<Vec<(String, UserUpdate)>>, b: Session) -> bool {
    match user {
        Some(es) => b.client.users() == users_after(a.client.users(), a.client.room, es@) && b
            == Session { client: ClientState { users: b.client.users, ..a.client }, ..a },
        None => b == a,
    }
}

pub open spec fn users_acts(a: Session, user: Option<Vec<(String, UserUpdate)>>) -> Seq<ActionView> {
    match user {
        Some(es) => notices_after(a.client.users(), a.client.room, es@),
        None => seq![],
    }
}

pub open spec fn left_here(a: Session, user: Option<Vec<(String, UserUpdate)>>) -> bool {
    match user {
        Some(es) => left_here_after(a.client.users(), a.client.room, es@),
        None => false,
    }
}

pub open spec fn ready_phase(a: Session, ready: Option<crate::messages::ReadyState>, b: Session) -> bool {
    match ready {
        Some(rd) => if rd.username is Some {
            b.client.users() == ready_roster(a.client.users(), a.client.room, rd) && b
                == Session {
                client: ClientState {
                    users: b.client.users,
                    is_ready: ready_self(a.client.users(), a.client.username, a.client.is_ready, rd),
                    ..a.client
                },
                ..a
            }
        } else {
            b == a
        },
        None => b == a,
    }
}

pub open spec fn auth_user(a: Session, auth: ControllerAuth) -> String {
    match auth.user {
        Some(u) => u,
        None => a.client.username,
    }
}

pub open spec fn auth_room(a: Session, auth: ControllerAuth) -> String {
    match auth.room {
        Some(r) => r,
        None => a.client.room,
    }
}

/// `Set.controllerAuth`: a granted login marks the user as controller, and
/// our own keeps the password tried for the room.
pub open spec fn auth_phase(a: Session, auth: Option<ControllerAuth>, b: Session) -> bool {
    match auth {
        Some(auth) => match auth_outcome_of(auth, a.client.username@, a.client.room@) {
            AuthOutcome::Granted { in_our_room, is_us } => {
                let who = auth_user(a, auth);
                &&& b.client.users() == roster_with(
                    a.client.users(),
                    controller_user(listed(a.client.users(), who@), who, auth.room, a.client.room, true),
                )
                &&& b.room_passwords@ == if is_us && a.pending_password is Some {
                    a.room_passwords@.push((auth_room(a, auth), a.pending_password->0))
                } else {
                    a.room_passwords@
                }
                &&& b == Session {
                    client: ClientState { users: b.client.users, ..a.client },
                    room_passwords: b.room_passwords,
                    ..a
                }
            },
            _ => b == a,
        },
        None => b == a,
    }
}

pub open spec fn auth_acts(a: Session, auth: Option<ControllerAuth>) -> Seq<ActionView> {
    match auth {
        Some(auth) => match auth_outcome_of(auth, a.client.username@, a.client.room@) {
            AuthOutcome::Granted { in_our_room, is_us } => if in_our_room {
                seq![ActionView::System(auth_user(a, auth)@ + " authenticated as a room operator"@)]
            } else {
                seq![]
            },
            AuthOutcome::RefusedUs => seq![
                ActionView::ChatError(a.client.username@ + " failed to identify as a room operator."@),
            ],
            _ => seq![],
        },
        None => seq![],
    }
}

/// `Set.newControlledRoom`: announce it, move there, ask for the user list
/// and log in with its password.
pub open spec fn new_room_phase(a: Session, created: Option<crate::messages::NewControlledRoom>, b: Session) -> bool {
    match created {
        Some(n) => b == Session {
            client: ClientState { room: n.room_name, ..a.client },
            pending_password: if n.password@.len() > 0 {
                Some(n.password)
            } else {
                a.pending_password
            },
            ..a
        },
        None => b == a,
    }
}

pub open spec fn new_room_acts(created: Option<crate::messages::NewControlledRoom>) -> Seq<ActionView> {
    match created {
        Some(n) => seq![
            ActionView::System(managed_room_notice_text(n.room_name@, n.password@)),
            ActionView::Send(
                ProtocolMessage::SetUpdate(
                    SetMessage {
                        room: Some(RoomInfo { name: n.room_name, password: None }),
                        ..empty_set()
                    },
                ),
            ),
            ActionView::Send(ProtocolMessage::List(None)),
        ] + if n.password@.len() > 0 {
            seq![
                ActionView::Send(
                    ProtocolMessage::SetUpdate(
                        SetMessage {
                            controller_auth: Some(
                                ControllerAuth {
                                    room: Some(n.room_name),
                                    password: Some(n.password),
                                    user: None,
                                    success: None,
                                },
                            ),
                            ..empty_set()
                        },
                    ),
                ),
            ]
        } else {
            seq![]
        },
        None => seq![],
    }
}

/// `Set.playlistChange` and `Set.playlistIndex`: the list is replaced, then
/// the index is taken when it designates an item.
pub open spec fn playlist_phase(
    a: Session,
    change: Option<crate::messages::PlaylistChange>,
    index: Option<crate::messages::PlaylistIndexUpdate>,
    b: Session,
) -> bool {
    let items1 = match change {
        Some(c) => c.files@.map_values(|f: String| fresh_item(f)),
        None => a.playlist.items(),
    };
    let cur1 = match change {
        Some(c) => if c.files@.len() > 0 {
            Some(0nat)
        } else {
            None
        },
        None => a.playlist.current(),
    };
    let cur2 = match index {
        Some(p) => match p.index {
            Some(i) => if i < items1.len() {
                Some(i as nat)
            } else {
                cur1
            },
            None => cur1,
        },
        None => cur1,
    };
    &&& b.playlist.items() == items1
    &&& b.playlist.current() == cur2
    &&& b == Session { playlist: b.playlist, ..a }
}

/// Whether the playlist moved: replaced, or pointed at another item.
pub open spec fn playlist_moved(
    a: Session,
    change: Option<crate::messages::PlaylistChange>,
    index: Option<crate::messages::PlaylistIndexUpdate>,
) -> bool {
    let len1 = match change {
        Some(c) => c.files@.len(),
        None => a.playlist.items().len(),
    };
    change is Some || (index is Some && index->0.index
        is Some && index->0.index->0 < len1)
}

/// After a playlist move, the current item is loaded.
pub open spec fn playlist_acts(
    a: Session,
    change: Option<crate::messages::PlaylistChange>,
    index: Option<crate::messages::PlaylistIndexUpdate>,
    b: Session,
) -> Seq<ActionView> {
    if playlist_moved(a, change, index) && b.playlist.current() is Some {
        seq![
            ActionView::LoadMedia(b.playlist.items()[b.playlist.current()->0 as int].filename@, false),
        ]
    } else {
        seq![]
    }
}

/// The successive states a `Set` message passes through: room, file, users,
/// ready, controller login, new controlled room, pause on leave, playlist.
pub open spec fn set_phases(s: Session, set: SetMessage, mid: Seq<Session>, t: Session) -> bool {
    &&& mid.len() == 7
    &&& room_phase(s, set.room, mid[0])
    &&& users_phase(mid[0], set.user, mid[1])
    &&& ready_phase(mid[1], set.ready, mid[2])
    &&& auth_phase(mid[2], set.controller_auth, mid[3])
    &&& new_room_phase(mid[3], set.new_controlled_room, mid[4])
    &&& mid[5] == mid[4]
    &&& playlist_phase(mid[5], set.playlist_change, set.playlist_index, mid[6])
    &&& t == mid[6]
}

/// The actions of a `Set` message, in the order of its parts.
pub open spec fn set_acts(s: Session, set: SetMessage, mid: Seq<Session>) -> Seq<ActionView> {
    room_acts(s, set.room) + file_acts(set.file) + users_acts(mid[0], set.user) + auth_acts(
        mid[2],
        set.controller_auth,
    ) + new_room_acts(set.new_controlled_room) + (if mid[4].pause_on_leave && left_here(
        mid[0],
        set.user,
    ) {
        seq![ActionView::PausePlayer]
    } else {
        seq![]
    }) + playlist_acts(mid[5], set.playlist_change, set.playlist_index, mid[6])
}

/// What the session does with a `Set` message.
pub open spec fn set_effect(s: Session, set: SetMessage, t: Session, acts: Seq<ActionView>) -> bool {
    exists|mid: Seq<Session>| #[trigger] set_phases(s, set, mid, t) && acts == set_acts(s, set, mid)
}

fn concat3(a: &str, b: &str, c: &str) -> (r: String)
    ensures
        r@ == a@ + b@ + c@,
{
    let mut t = to_owned_text(a);
    t.append(b);
    t.append(c);
    t
}

fn concat2(a: &str, b: &str) -> (r: String)
    ensures
        r@ == a@ + b@,
{
    let mut t = to_owned_text(a);
    t.append(b);
    t
}

fn clone_opt(o: &Option<String>) -> (r: Option<String>)
    ensures
        r == *o,
{
    match o {
        Some(x) => Some(x.clone()),
        None => None,
    }
}

impl Session {
    /// A session for `username` joining `room_input` (`room[:password]`);
    /// the password is remembered for the room and the Hello prepared.
    pub fn new(
        username: String,
        room_input: &str,
        realversion: String,
        shared_playlists: bool,
        show_duration: bool,
        pause_on_leave: bool,
    ) -> (r: Self)
        ensures
            r.wf(),
            r.client.username == username,
            r.client.room@ == split_room_input(room_input@).0,
            r.client.users().len() == 0,
            opt_view(password_for(r.room_passwords@, r.client.room@)) == split_room_input(
                room_input@,
            ).1,
            r.last_hello is Some && r.last_hello->0.username == username
                && r.last_hello->0.room->0.name == r.client.room,
            !r.hello_gate.hello_sent,
            r.ignoring == (IgnoringOnTheFlyState { server: 0, client: 0 }),
            r.playlist.items().len() == 0,
            r.global is None,
    {
        let (room, password) = parse_controlled_room_input(room_input);
        let mut room_passwords: Vec<(String, String)> = Vec::new();
        match password {
            Some(p) => {
                room_passwords.push((room.clone(), p));
            },
            None => {},
        }
        let hello = build_hello(username.clone(), None, room.clone(), realversion, shared_playlists);
        Session {
            client: ClientState::new(username, room),
            ignoring: IgnoringOnTheFlyState::new(),
            ping: PingService::new(),
            playlist: Playlist::new(),
            hello_gate: HelloGate::new(),
            last_hello: Some(hello),
            room_passwords,
            pending_password: None,
            server_version: None,
            flags: SuppressionFlags::new(),
            global: None,
            show_duration,
            pause_on_leave,
        }
    }

    fn find_password(&self, room: &String) -> (r: Option<String>)
        ensures
            r == password_for(self.room_passwords@, room@),
    {
        let mut i: usize = self.room_passwords.len();
        proof {
            assert(self.room_passwords@.subrange(0, i as int) =~= self.room_passwords@);
        }
        while i > 0
            invariant
                i <= self.room_passwords@.len(),
                password_for(self.room_passwords@, room@) == password_for(
                    self.room_passwords@.subrange(0, i as int),
                    room@,
                ),
            decreases i,
        {
            proof {
                assert(self.room_passwords@.subrange(0, i as int).drop_last()
                    =~= self.room_passwords@.subrange(0, i - 1));
            }
            if self.room_passwords[i - 1].0 == *room {
                return Some(self.room_passwords[i - 1].1.clone());
            }
            i = i - 1;
        }
        proof {
            assert(self.room_passwords@.subrange(0, 0) =~= Seq::<(String, String)>::empty());
        }
        None
    }

    /// The controller login for the current room, when its password is known.
    fn login(&mut self) -> (r: Vec<SessionAction>)
        ensures
            acts_view(r@) == login_acts(old(self).room_passwords@, old(self).client.room),
            *final(self) == (Session { pending_password: pending_after_login(*old(self)), ..*old(self) }),
    {
        let room = self.client.room.clone();
        let mut out: Vec<SessionAction> = Vec::new();
        match self.find_password(&room) {
            Some(p) => {
                self.pending_password = Some(p.clone());
                out.push(SessionAction::Send(ProtocolMessage::SetUpdate(controller_auth_message(room, p))));
                proof {
                    assert(acts_view(out@) =~= login_acts(old(self).room_passwords@, old(self).client.room));
                }
            },
            None => {
                proof {
                    assert(acts_view(out@) =~= login_acts(old(self).room_passwords@, old(self).client.room));
                }
            },
        }
        out
    }

    /// Sends the prepared Hello once per connection (straight after
    /// connecting when TLS is not tried).
    pub fn hello(&mut self) -> (r: Vec<SessionAction>)
        ensures
            acts_view(r@) == hello_acts(*old(self)),
            *final(self) == (Session {
                hello_gate: HelloGate { hello_sent: hello_sent_after(*old(self)) },
                ..*old(self)
            }),
    {
        let mut out: Vec<SessionAction> = Vec::new();
        if !self.hello_gate.hello_sent {
            match &self.last_hello {
                Some(h) => {
                    let h = h.clone();
                    self.hello_gate.claim();
                    out.push(SessionAction::Send(ProtocolMessage::Hello(h)));
                },
                None => {},
            }
        }
        proof {
            assert(acts_view(out@) =~= hello_acts(*old(self)));
        }
        out
    }

    fn on_state(&mut self, st: StateMessage, now: i64, local: Option<PlayState>) -> (r: Vec<
        SessionAction,
    >)
        requires
            old(self).wf(),
        ensures
            final(self).wf(),
            server_effect(*old(self), ProtocolMessage::State(st), now, local, *final(self), acts_view(r@)),
    {
        let ghost s0 = *self;
        match &st.ignoring_on_the_fly {
            Some(i) => self.ignoring.apply_info(i),
            None => {},
        }
        let mut latency: Option<i64> = None;
        match &st.ping {
            Some(p) => {
                latency = p.latency_calculation;
                match (p.client_latency_calculation, p.server_rtt) {
                    (Some(c), Some(rtt)) => {
                        if -crate::ping::PING_TIME_LIMIT <= c && c <= crate::ping::PING_TIME_LIMIT
                            && -crate::ping::PING_TIME_LIMIT <= rtt && rtt
                            <= crate::ping::PING_TIME_LIMIT && -crate::ping::PING_TIME_LIMIT <= now
                            && now <= crate::ping::PING_TIME_LIMIT {
                            self.ping.receive_message(now, c, rtt);
                            if 0 <= rtt {
                                self.ping.record_sample(rtt);
                            }
                        }
                    },
                    _ => {},
                }
            },
            None => {},
        }
        let mut out: Vec<SessionAction> = Vec::new();
        match &st.playstate {
            Some(p) => {
                self.global = Some(p.clone());
                out.push(
                    SessionAction::Synchronise {
                        global: p.clone(),
                        message_age: self.ping.get_forward_delay(),
                    },
                );
            },
            None => {},
        }
        let info = PingInfo {
            latency_calculation: latency,
            client_latency_calculation: Some(now),
            client_rtt: Some(self.ping.get_rtt()),
            server_rtt: None,
        };
        let reply = build_state_message(&mut self.ignoring, local, info, false);
        out.push(SessionAction::Send(ProtocolMessage::State(reply)));
        proof {
            assert(acts_view(out@) =~= state_acts(s0, st, now, local));
        }
        out
    }

    fn on_hello(&mut self, h: HelloMessage) -> (r: Vec<SessionAction>)
        requires
            old(self).wf(),
        ensures
            final(self).wf(),
            hello_effect(*old(self), h, *final(self), acts_view(r@)),
    {
        let ghost s0 = *self;
        let ghost hv = h;
        let mut out: Vec<SessionAction> = Vec::new();
        out.push(SessionAction::System(concat3("Hello ", h.username.as_str(), ",")));
        match &h.motd {
            Some(x) => out.push(SessionAction::System(x.clone())),
            None => {},
        }
        out.push(SessionAction::System(to_owned_text("Successfully connected to server")));
        out.push(SessionAction::Send(ProtocolMessage::List(None)));
        self.server_version = Some(h.realversion);
        let ghost s1 = *self;
        let mut login = self.login();
        let ghost a0 = acts_view(out@);
        let ghost lv = login@;
        out.append(&mut login);
        proof {
            assert(acts_view(out@) =~= a0 + acts_view(lv));
            assert(a0 =~= seq![ActionView::System("Hello "@ + hv.username@ + ","@)] + (match hv.motd {
                Some(x) => seq![ActionView::System(x@)],
                None => seq![],
            }) + seq![
                ActionView::System("Successfully connected to server"@),
                ActionView::Send(ProtocolMessage::List(None)),
            ]);
        }
        out
    }

    /// After a TLS upgrade was attempted: report the status, then say Hello.
    pub fn on_tls_upgraded(&mut self, upgraded: bool) -> (r: Vec<SessionAction>)
        requires
            old(self).wf(),
        ensures
            final(self).wf(),
            acts_view(r@) == (if upgraded {
                seq![
                    ActionView::TlsStatus(TlsStatus::Enabled),
                    ActionView::System("Secure connection established"@),
                ]
            } else {
                seq![ActionView::TlsStatus(TlsStatus::Unsupported)]
            }) + hello_acts(*old(self)),
            *final(self) == (Session {
                hello_gate: HelloGate { hello_sent: hello_sent_after(*old(self)) },
                ..*old(self)
            }),
    {
        let mut out: Vec<SessionAction> = Vec::new();
        if upgraded {
            out.push(SessionAction::TlsStatus(TlsStatus::Enabled));
            out.push(SessionAction::System(to_owned_text("Secure connection established")));
        } else {
            out.push(SessionAction::TlsStatus(TlsStatus::Unsupported));
        }
        let ghost a0 = acts_view(out@);
        let mut h = self.hello();
        let ghost hv = h@;
        out.append(&mut h);
        proof {
            assert(acts_view(out@) =~= a0 + acts_view(hv));
            if upgraded {
                assert(a0 =~= seq![
                    ActionView::TlsStatus(TlsStatus::Enabled),
                    ActionView::System("Secure connection established"@),
                ]);
            } else {
                assert(a0 =~= seq![ActionView::TlsStatus(TlsStatus::Unsupported)]);
            }
        }
        out
    }

    /// Takes in one message from the server, in the order received. `now` is
    /// the wall clock in milliseconds and `local` our playstate for a `State`
    /// reply (none before the player has been read).
    pub fn on_server_message(&mut self, m: ProtocolMessage, now: i64, local: Option<PlayState>) -> (r:
        Vec<SessionAction>)
        requires
            old(self).wf(),
        ensures
            final(self).wf(),
            !(m is SetUpdate) ==> server_effect(*old(self), m, now, local, *final(self), acts_view(r@)),
            m is SetUpdate ==> set_effect(*old(self), m->SetUpdate_0, *final(self), acts_view(r@)),
    {
        match m {
            ProtocolMessage::Hello(h) => {
                let ghost hv = h;
                let r = self.on_hello(h);
                proof {
                    assert(m == ProtocolMessage::Hello(hv));
                    assert(hello_effect(*old(self), hv, *self, acts_view(r@)));
                    assert(server_effect(*old(self), m, now, local, *self, acts_view(r@)));
                }
                r
            },
            ProtocolMessage::List(l) => {
                match &l {
                    Some(rooms) => self.client.rebuild_from_list(rooms),
                    None => {},
                }
                let out: Vec<SessionAction> = Vec::new();
                proof {
                    assert(acts_view(out@) =~= Seq::<ActionView>::empty());
                }
                out
            },
            ProtocolMessage::Chat(c) => {
                let mut out: Vec<SessionAction> = Vec::new();
                out.push(SessionAction::ChatLine(c.username, c.message));
                proof {
                    assert(acts_view(out@) =~= seq![ActionView::ChatLine(opt_view(c.username), c.message@)]);
                }
                out
            },
            ProtocolMessage::Error(e) => {
                if contains_text(e.message.as_str(), "startTLS") {
                    self.hello()
                } else {
                    let mut out: Vec<SessionAction> = Vec::new();
                    out.push(SessionAction::ChatError(e.message));
                    proof {
                        assert(acts_view(out@) =~= seq![ActionView::ChatError(e.message@)]);
                    }
                    out
                }
            },
            ProtocolMessage::TLS(x) => {
                match crate::control::decide_tls(&x.start_tls) {
                    TlsDecision::Upgrade => {
                        let mut out: Vec<SessionAction> = Vec::new();
                        out.push(SessionAction::UpgradeTls);
                        proof {
                            assert(acts_view(out@) =~= seq![ActionView::UpgradeTls]);
                        }
                        out
                    },
                    TlsDecision::Fallback => {
                        let ghost s0 = *self;
                        let mut out: Vec<SessionAction> = Vec::new();
                        out.push(SessionAction::TlsStatus(TlsStatus::Unsupported));
                        let mut h = self.hello();
                        let ghost a0 = acts_view(out@);
                        let ghost hv = h@;
                        out.append(&mut h);
                        proof {
                            assert(a0 =~= seq![ActionView::TlsStatus(TlsStatus::Unsupported)]);
                            assert(acts_view(out@) =~= a0 + acts_view(hv));
                            assert(acts_view(hv) == hello_acts(s0));
                        }
                        out
                    },
                    TlsDecision::Ignore => {
                        let out: Vec<SessionAction> = Vec::new();
                        proof {
                            assert(acts_view(out@) =~= Seq::<ActionView>::empty());
                        }
                        out
                    },
                }
            },
            ProtocolMessage::State(st) => self.on_state(st, now, local),
            ProtocolMessage::SetUpdate(set) => self.on_set_message(set),
        }
    }
}


impl Session {
    fn room_step(&mut self, set: &SetMessage) -> (r: Vec<SessionAction>)
        requires
            old(self).wf(),
        ensures
            final(self).wf(),
            room_phase(*old(self), set.room, *final(self)),
            acts_view(r@) == room_acts(*old(self), set.room),
    {
        match &set.room {
            Some(room) => {
                self.client.room = room.name.clone();
                self.login()
            },
            None => {
                let out: Vec<SessionAction> = Vec::new();
                proof {
                    assert(acts_view(out@) =~= Seq::<ActionView>::empty());
                }
                out
            },
        }
    }

    fn users_step(&mut self, entries: Option<Vec<(String, UserUpdate)>>) -> (r: (Vec<SessionAction>, bool))
        requires
            old(self).wf(),
        ensures
            final(self).wf(),
            users_phase(*old(self), entries, *final(self)),
            acts_view(r.0@) == users_acts(*old(self), entries),
            r.1 == left_here(*old(self), entries),
    {
        let mut out: Vec<SessionAction> = Vec::new();
        match entries {
            None => {
                proof {
                    assert(acts_view(out@) =~= Seq::<ActionView>::empty());
                }
                (out, false)
            },
            Some(es) => {
                let ghost all = es@;
                let ghost u0 = self.client.users();
                let ghost s0 = *self;
                let room = self.client.room.clone();
                let mut rest = es;
                let mut left_here = false;
                let mut i: usize = 0;
                let total = rest.len();
                assert(all.len() == total);
                proof {
                    assert(all.subrange(0, 0) =~= Seq::<(String, UserUpdate)>::empty());
                    assert(acts_view(out@) =~= Seq::<ActionView>::empty());
                }
                while rest.len() > 0
                    invariant
                        self.wf(),
                        room == s0.client.room,
                        i + rest@.len() == all.len(),
                        all.len() <= usize::MAX,
                        rest@ == all.subrange(i as int, all.len() as int),
                        self.client.users() == users_after(u0, room, all.subrange(0, i as int)),
                        *self == (Session { client: ClientState { users: self.client.users, ..s0.client }, ..s0 }),
                        acts_view(out@) == notices_after(u0, room, all.subrange(0, i as int)),
                        left_here == left_here_after(u0, room, all.subrange(0, i as int)),
                    decreases rest@.len(),
                {
                    let (name, up) = rest.remove(0);
                    let ghost pre = self.client.users();
                    proof {
                        assert(all[i as int] == (name, up));
                        assert(all.subrange(0, i + 1).drop_last() =~= all.subrange(0, i as int));
                        assert(rest@ =~= all.subrange(i + 1, all.len() as int));
                    }
                    let old_user = self.client.get_user(&name);
                    let leaving = match &up.event {
                        Some(e) => match e.left {
                            Some(b) => b,
                            None => false,
                        },
                        None => false,
                    };
                    let new_room = match &up.room {
                        Some(r) => r.name.clone(),
                        None => match &old_user {
                            Some(o) => o.room.clone(),
                            None => room.clone(),
                        },
                    };
                    let ghost av = acts_view(out@);
                    if leaving {
                        match &old_user {
                            Some(o) => {
                                if o.room == room {
                                    left_here = true;
                                }
                                out.push(SessionAction::System(concat2(name.as_str(), " has left")));
                            },
                            None => {},
                        }
                    }
                    let change = self.client.apply_user_update(name.clone(), up, self.show_duration);
                    if !leaving {
                        let moved = match &old_user {
                            Some(o) => o.room != new_room,
                            None => true,
                        };
                        if moved {
                            let mut t = concat3(name.as_str(), " has joined the room: '", new_room.as_str());
                            t.append("'");
                            out.push(SessionAction::System(t));
                        }
                    }
                    proof {
                        assert(acts_view(out@) =~= av + notice_step(pre, room, name, up));
                    }
                    i = i + 1;
                }
                proof {
                    assert(all.subrange(0, all.len() as int) =~= all);
                }
                (out, left_here)
            },
        }
    }
}


impl Session {
    fn ready_step(&mut self, ready: &Option<crate::messages::ReadyState>) -> (r: ())
        requires
            old(self).wf(),
        ensures
            final(self).wf(),
            ready_phase(*old(self), *ready, *final(self)),
    {
        match ready {
            Some(rd) => {
                if rd.username.is_some() {
                    self.client.apply_ready(rd);
                }
            },
            None => {},
        }
    }

    fn auth_step(&mut self, auth: &Option<ControllerAuth>) -> (r: Vec<SessionAction>)
        requires
            old(self).wf(),
        ensures
            final(self).wf(),
            auth_phase(*old(self), *auth, *final(self)),
            acts_view(r@) == auth_acts(*old(self), *auth),
    {
        let mut out: Vec<SessionAction> = Vec::new();
        match auth {
            None => {},
            Some(a) => {
                let me = self.client.username.clone();
                let our_room = self.client.room.clone();
                match controller_auth_outcome(a, &me, &our_room) {
                    AuthOutcome::Granted { in_our_room, is_us } => {
                        let who = match &a.user {
                            Some(u) => u.clone(),
                            None => me.clone(),
                        };
                        let room = match &a.room {
                            Some(x) => x.clone(),
                            None => our_room.clone(),
                        };
                        self.client.set_user_controller_status(&who, clone_opt(&a.room), true);
                        if is_us {
                            match &self.pending_password {
                                Some(p) => {
                                    let p = p.clone();
                                    self.room_passwords.push((room, p));
                                },
                                None => {},
                            }
                        }
                        if in_our_room {
                            out.push(
                                SessionAction::System(
                                    concat2(who.as_str(), " authenticated as a room operator"),
                                ),
                            );
                        }
                    },
                    AuthOutcome::RefusedUs => {
                        out.push(
                            SessionAction::ChatError(
                                concat2(me.as_str(), " failed to identify as a room operator."),
                            ),
                        );
                    },
                    _ => {},
                }
            },
        }
        proof {
            assert(acts_view(out@) =~= auth_acts(*old(self), *auth));
        }
        out
    }

    fn new_room_step(&mut self, n: &Option<crate::messages::NewControlledRoom>) -> (r: Vec<SessionAction>)
        requires
            old(self).wf(),
        ensures
            final(self).wf(),
            new_room_phase(*old(self), *n, *final(self)),
            acts_view(r@) == new_room_acts(*n),
    {
        let mut out: Vec<SessionAction> = Vec::new();
        match n {
            None => {},
            Some(c) => {
                out.push(SessionAction::System(managed_room_notice(c.room_name.as_str(), c.password.as_str())));
                self.client.room = c.room_name.clone();
                out.push(SessionAction::Send(ProtocolMessage::SetUpdate(room_change_message(c.room_name.clone()))));
                out.push(SessionAction::Send(ProtocolMessage::List(None)));
                if c.password.as_str().unicode_len() > 0 {
                    self.pending_password = Some(c.password.clone());
                    out.push(
                        SessionAction::Send(
                            ProtocolMessage::SetUpdate(
                                controller_auth_message(c.room_name.clone(), c.password.clone()),
                            ),
                        ),
                    );
                }
            },
        }
        proof {
            assert(acts_view(out@) =~= new_room_acts(*n));
        }
        out
    }

    fn playlist_step(
        &mut self,
        change: Option<crate::messages::PlaylistChange>,
        index: &Option<crate::messages::PlaylistIndexUpdate>,
    ) -> (r: Vec<SessionAction>)
        requires
            old(self).wf(),
        ensures
            final(self).wf(),
            playlist_phase(*old(self), change, *index, *final(self)),
            acts_view(r@) == playlist_acts(*old(self), change, *index, *final(self)),
    {
        let ghost s0 = *self;
        let ghost ch = change;
        let mut moved = false;
        match change {
            Some(c) => {
                let ghost files = c.files@;
                self.playlist.set_items(c.files);
                proof {
                    assert(self.playlist.items() =~= files.map_values(|f: String| fresh_item(f)));
                }
                moved = true;
            },
            None => {},
        }
        match index {
            Some(p) => match p.index {
                Some(i) => {
                    if self.playlist.set_current_index(i) {
                        moved = true;
                    }
                },
                None => {},
            },
            None => {},
        }
        let mut out: Vec<SessionAction> = Vec::new();
        if moved {
            match self.playlist.get_current_item() {
                Some(item) => {
                    out.push(SessionAction::LoadMedia { name: item.filename, notify_server: false });
                },
                None => {},
            }
        }
        proof {
            assert(acts_view(out@) =~= playlist_acts(s0, ch, *index, *self));
        }
        out
    }

    /// Takes in a `Set` message; see [`set_effect`].
    #[verifier::rlimit(100)]
    pub fn on_set_message(&mut self, set: SetMessage) -> (r: Vec<SessionAction>)
        requires
            old(self).wf(),
        ensures
            final(self).wf(),
            set_effect(*old(self), set, *final(self), acts_view(r@)),
    {
        let ghost sv = set;
        let ghost s_start = *self;
        let mut out = self.room_step(&set);
        let ghost m0 = *self;
        match &set.file {
            Some(f) => match &f.name {
                Some(n) => out.push(SessionAction::LoadMedia { name: n.clone(), notify_server: false }),
                None => {},
            },
            None => {},
        }
        let ghost a01 = acts_view(out@);
        proof {
            assert(a01 =~= room_acts(s_start, sv.room) + file_acts(sv.file));
        }
        let (mut ua, left) = self.users_step(set.user);
        let ghost m1 = *self;
        let ghost uav = ua@;
        out.append(&mut ua);
        self.ready_step(&set.ready);
        let ghost m2 = *self;
        let mut aa = self.auth_step(&set.controller_auth);
        let ghost m3 = *self;
        let ghost aav = aa@;
        out.append(&mut aa);
        let mut na = self.new_room_step(&set.new_controlled_room);
        let ghost m4 = *self;
        let ghost nav = na@;
        out.append(&mut na);
        let ghost before_pause = acts_view(out@);
        if self.pause_on_leave && left {
            out.push(SessionAction::PausePlayer);
        }
        let ghost after_pause = acts_view(out@);
        let mut pa = self.playlist_step(set.playlist_change, &set.playlist_index);
        let ghost m6 = *self;
        let ghost pav = pa@;
        out.append(&mut pa);
        proof {
            let mid = seq![m0, m1, m2, m3, m4, m4, m6];
            assert(set_phases(s_start, sv, mid, *self));
            assert(acts_view(out@) =~= set_acts(s_start, sv, mid));
        }
        out
    }
}

} // verus!
