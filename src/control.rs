//! The session's control decisions, each a step from state and event to next
//! state and action: the autoplay countdown, the startTLS choreography and
//! the one-time Hello, and the texts shown for synchronisation actions.
use vstd::prelude::*;
use crate::config::UnpauseAction;
use crate::sync::SyncAction;
use crate::text::{contains_run, contains_text, push_char, to_owned_text};

verus! {

/// Seconds the autoplay countdown runs before unpausing.
pub const AUTOPLAY_DELAY_SECONDS: i32 = 3;

/// The autoplay policy and the countdown's progress.
#[derive(Debug, Clone, Copy, PartialEq, Eq, Structural)]
pub struct AutoPlayState {
    pub enabled: bool,
    pub min_users: i32,
    pub require_same_filenames: bool,
    pub unpause_action: UnpauseAction,
    pub countdown_active: bool,
    pub countdown_remaining: i32,
}

/// What one countdown tick asks of the caller.
#[derive(Debug, Clone, Copy, PartialEq, Eq, Structural)]
pub enum AutoplayTick {
    /// The countdown is over or was cancelled: stop ticking.
    Stop,
    /// Wait a second and tick again.
    Continue,
    /// Unpause the player, then stop ticking.
    Unpause,
}

/// One tick of the countdown, given whether the autoplay conditions still
/// hold.
pub open spec fn tick_of(a: AutoPlayState, conditions_met: bool) -> (AutoPlayState, AutoplayTick) {
    if !a.countdown_active {
        (a, AutoplayTick::Stop)
    } else if !conditions_met {
        (AutoPlayState { countdown_active: false, countdown_remaining: 0, ..a }, AutoplayTick::Stop)
    } else if a.countdown_remaining <= 0 {
        (AutoPlayState { countdown_active: false, ..a }, AutoplayTick::Unpause)
    } else {
        (AutoPlayState { countdown_remaining: (a.countdown_remaining - 1) as i32, ..a }, AutoplayTick::Continue)
    }
}

impl AutoPlayState {
    pub fn new() -> (r: Self)
        ensures
            !r.enabled,
            r.min_users == -1,
            r.require_same_filenames,
            r.unpause_action == UnpauseAction::IfOthersReady,
            !r.countdown_active,
            r.countdown_remaining == 0,
    {
        AutoPlayState {
            enabled: false,
            min_users: -1,
            require_same_filenames: true,
            unpause_action: UnpauseAction::IfOthersReady,
            countdown_active: false,
            countdown_remaining: 0,
        }
    }

    /// Starts the countdown unless one runs; returns whether it started (and
    /// a ticking task is needed).
    pub fn start_countdown(&mut self) -> (r: bool)
        ensures
            r == !old(self).countdown_active,
            r ==> *final(self) == (AutoPlayState {
                countdown_active: true,
                countdown_remaining: AUTOPLAY_DELAY_SECONDS,
                ..*old(self)
            }),
            !r ==> *final(self) == *old(self),
    {
        if self.countdown_active {
            return false;
        }
        self.countdown_active = true;
        self.countdown_remaining = AUTOPLAY_DELAY_SECONDS;
        true
    }

    /// Stops the countdown.
    pub fn cancel(&mut self)
        ensures
            *final(self) == (AutoPlayState {
                countdown_active: false,
                countdown_remaining: 0,
                ..*old(self)
            }),
    {
        self.countdown_active = false;
        self.countdown_remaining = 0;
    }

    /// Re-evaluates autoplay: starts the countdown when the conditions hold,
    /// cancels it otherwise. Returns whether a ticking task is needed.
    pub fn evaluate(&mut self, conditions_met: bool) -> (r: bool)
        ensures
            conditions_met ==> r == !old(self).countdown_active,
            conditions_met && !old(self).countdown_active ==> final(self).countdown_active
                && final(self).countdown_remaining == AUTOPLAY_DELAY_SECONDS,
            conditions_met && old(self).countdown_active ==> *final(self) == *old(self),
            !conditions_met ==> !r && !final(self).countdown_active
                && final(self).countdown_remaining == 0,
            final(self).enabled == old(self).enabled,
    {
        if conditions_met {
            self.start_countdown()
        } else {
            self.cancel();
            false
        }
    }

    /// One tick; see [`tick_of`].
    pub fn tick(&mut self, conditions_met: bool) -> (r: AutoplayTick)
        ensures
            (*final(self), r) == tick_of(*old(self), conditions_met),
    {
        if !self.countdown_active {
            return AutoplayTick::Stop;
        }
        if !conditions_met {
            self.countdown_active = false;
            self.countdown_remaining = 0;
            return AutoplayTick::Stop;
        }
        if self.countdown_remaining <= 0 {
            self.countdown_active = false;
            AutoplayTick::Unpause
        } else {
            self.countdown_remaining = self.countdown_remaining - 1;
            AutoplayTick::Continue
        }
    }

    /// Takes the policy from the configuration; turning autoplay off stops
    /// the countdown.
    pub fn update_policy(
        &mut self,
        enabled: bool,
        min_users: i32,
        require_same_filenames: bool,
        unpause_action: UnpauseAction,
    )
        ensures
            final(self).enabled == enabled,
            final(self).min_users == min_users,
            final(self).require_same_filenames == require_same_filenames,
            final(self).unpause_action == unpause_action,
            enabled ==> final(self).countdown_active == old(self).countdown_active
                && final(self).countdown_remaining == old(self).countdown_remaining,
            !enabled ==> !final(self).countdown_active && final(self).countdown_remaining == 0,
    {
        self.enabled = enabled;
        self.min_users = min_users;
        self.require_same_filenames = require_same_filenames;
        self.unpause_action = unpause_action;
        if !enabled {
            self.countdown_active = false;
            self.countdown_remaining = 0;
        }
    }
}

impl Default for AutoPlayState {
    fn default() -> (r: Self)
        ensures
            !r.enabled,
            r.min_users == -1,
            !r.countdown_active,
            r.countdown_remaining == 0,
    {
        AutoPlayState::new()
    }
}

/// The ticks a started countdown gives while the conditions keep holding.
pub open spec fn ticks_from(a: AutoPlayState, n: nat) -> Seq<AutoplayTick>
    decreases n,
{
    if n == 0 {
        Seq::empty()
    } else {
        let (a2, t) = tick_of(a, true);
        seq![t] + ticks_from(a2, (n - 1) as nat)
    }
}

/// A freshly started countdown ticks on three times and unpauses on the
/// fourth tick, and a tick on which the conditions fail cancels it without
/// unpausing.
pub proof fn lemma_countdown_runs_three_ticks(a: AutoPlayState)
    requires
        a.countdown_active,
        a.countdown_remaining == AUTOPLAY_DELAY_SECONDS,
    ensures
        ticks_from(a, 4) == seq![
            AutoplayTick::Continue,
            AutoplayTick::Continue,
            AutoplayTick::Continue,
            AutoplayTick::Unpause,
        ],
        tick_of(a, false).1 == AutoplayTick::Stop,
        !tick_of(a, false).0.countdown_active,
{
    reveal_with_fuel(ticks_from, 5);
    assert(ticks_from(a, 4) =~= seq![
        AutoplayTick::Continue,
        AutoplayTick::Continue,
        AutoplayTick::Continue,
        AutoplayTick::Unpause,
    ]);
}

/// The TLS status shown to the user.
#[derive(Debug, Clone, Copy, PartialEq, Eq, Structural)]
pub enum TlsStatus {
    Pending,
    Enabled,
    Unsupported,
    Unknown,
}

/// What the session does with a server's `startTLS` answer.
#[derive(Debug, Clone, Copy, PartialEq, Eq, Structural)]
pub enum TlsDecision {
    /// Upgrade the transport, then send Hello.
    Upgrade,
    /// Stay in plain text: report TLS as unsupported and send Hello.
    Fallback,
    /// Not an answer this client acts on.
    Ignore,
}

pub open spec fn tls_decision_of(answer: Option<Seq<char>>) -> TlsDecision {
    match answer {
        Some(a) => if a == "true"@ {
            TlsDecision::Upgrade
        } else if a == "false"@ {
            TlsDecision::Fallback
        } else {
            TlsDecision::Ignore
        },
        None => TlsDecision::Ignore,
    }
}

/// Reads the server's `startTLS` answer.
pub fn decide_tls(answer: &Option<String>) -> (r: TlsDecision)
    ensures
        r == tls_decision_of(
            match answer {
                Some(a) => Some(a@),
                None => None,
            },
        ),
{
    match answer {
        Some(a) => if *a == to_owned_text("true") {
            TlsDecision::Upgrade
        } else if *a == to_owned_text("false") {
            TlsDecision::Fallback
        } else {
            TlsDecision::Ignore
        },
        None => TlsDecision::Ignore,
    }
}

/// A server error that rejects `startTLS` means: fall back to a plain Hello
/// and show nothing.
pub fn is_start_tls_rejection(message: &str) -> (r: bool)
    ensures
        r == contains_run(message@, "startTLS"@),
{
    contains_text(message, "startTLS")
}

/// Whether the Hello has gone out on this connection.
#[derive(Debug, Clone, Copy, PartialEq, Eq, Structural)]
pub struct HelloGate {
    pub hello_sent: bool,
}

impl HelloGate {
    pub fn new() -> (r: Self)
        ensures
            !r.hello_sent,
    {
        HelloGate { hello_sent: false }
    }

    /// Claims the one Hello of the connection: true exactly the first time.
    pub fn claim(&mut self) -> (r: bool)
        ensures
            r == !old(self).hello_sent,
            final(self).hello_sent,
    {
        let r = !self.hello_sent;
        self.hello_sent = true;
        r
    }
}

pub open spec fn digit_char(d: int) -> char {
    (('0' as int) + d) as char
}

/// The decimal digits of `n`.
pub open spec fn decimal(n: nat) -> Seq<char>
    decreases n,
{
    if n < 10 {
        seq![digit_char(n as int)]
    } else {
        decimal(n / 10).push(digit_char((n % 10) as int))
    }
}

/// `n` in at least two digits.
pub open spec fn two_digits(n: nat) -> Seq<char> {
    if n < 10 {
        seq!['0'] + decimal(n)
    } else {
        decimal(n)
    }
}

fn push_decimal(out: &mut String, n: u64)
    ensures
        final(out)@ == old(out)@ + decimal(n as nat),
    decreases n,
{
    if n >= 10 {
        push_decimal(out, n / 10);
    }
    let d = (n % 10) as u8;
    push_char(out, (48u8 + d) as char);
    proof {
        if n >= 10 {
            assert(old(out)@ + decimal(n as nat) =~= old(out)@ + decimal((n / 10) as nat)
                + seq![digit_char((n % 10) as int)]);
        }
    }
}

fn push_two_digits(out: &mut String, n: u64)
    ensures
        final(out)@ == old(out)@ + two_digits(n as nat),
{
    if n < 10 {
        push_char(out, '0');
    }
    push_decimal(out, n);
    proof {
        assert(old(out)@ + two_digits(n as nat) =~= if n < 10 {
            old(out)@.push('0') + decimal(n as nat)
        } else {
            old(out)@ + decimal(n as nat)
        });
    }
}

/// Whole seconds of a time in milliseconds, rounded half away from zero.
pub open spec fn round_to_seconds(ms: int) -> int {
    if ms >= 0 {
        (ms + 500) / 1000
    } else {
        -((-ms + 500) / 1000)
    }
}

/// A time given in whole seconds `s` (s >= 0) as `[Ww, ][Dd, ][HH:]MM:SS`.
pub open spec fn clock_text(s: nat) -> Seq<char> {
    let weeks = s / 604800;
    let days = (s % 604800) / 86400;
    let hours = (s % 86400) / 3600;
    let minutes = (s % 3600) / 60;
    let secs = s % 60;
    let hms = two_digits(hours) + seq![':'] + two_digits(minutes) + seq![':'] + two_digits(secs);
    if weeks > 0 {
        decimal(weeks) + "w, "@ + decimal(days) + "d, "@ + hms
    } else if days > 0 {
        decimal(days) + "d, "@ + hms
    } else if hours > 0 {
        hms
    } else {
        two_digits(minutes) + seq![':'] + two_digits(secs)
    }
}

/// A time in milliseconds as shown to the user: rounded to whole seconds,
/// with a leading `-` when negative.
pub open spec fn time_text(ms: int) -> Seq<char> {
    let s = round_to_seconds(ms);
    if s < 0 {
        seq!['-'] + clock_text((-s) as nat)
    } else {
        clock_text(s as nat)
    }
}

fn push_hms(out: &mut String, h: u64, m: u64, s: u64)
    ensures
        final(out)@ == old(out)@ + two_digits(h as nat) + seq![':'] + two_digits(m as nat) + seq![
            ':',
        ] + two_digits(s as nat),
{
    push_two_digits(out, h);
    push_char(out, ':');
    push_two_digits(out, m);
    push_char(out, ':');
    push_two_digits(out, s);
    proof {
        assert(final(out)@ =~= old(out)@ + two_digits(h as nat) + seq![':'] + two_digits(m as nat)
            + seq![':'] + two_digits(s as nat));
    }
}

fn clock_string(secs: u64) -> (r: String)
    ensures
        r@ == clock_text(secs as nat),
{
    let weeks = secs / 604800;
    let days = (secs % 604800) / 86400;
    let hours = (secs % 86400) / 3600;
    let minutes = (secs % 3600) / 60;
    let s = secs % 60;
    let mut out = String::new();
    if weeks > 0 {
        push_decimal(&mut out, weeks);
        out.append("w, ");
        push_decimal(&mut out, days);
        out.append("d, ");
        push_hms(&mut out, hours, minutes, s);
        proof {
            assert(out@ =~= clock_text(secs as nat));
        }
    } else if days > 0 {
        push_decimal(&mut out, days);
        out.append("d, ");
        push_hms(&mut out, hours, minutes, s);
        proof {
            assert(out@ =~= clock_text(secs as nat));
        }
    } else if hours > 0 {
        push_hms(&mut out, hours, minutes, s);
        proof {
            assert(out@ =~= clock_text(secs as nat));
        }
    } else {
        push_two_digits(&mut out, minutes);
        push_char(&mut out, ':');
        push_two_digits(&mut out, s);
        proof {
            assert(out@ =~= clock_text(secs as nat));
        }
    }
    out
}

/// Formats a playback time given in milliseconds.
pub fn format_time(ms: i64) -> (r: String)
    ensures
        r@ == time_text(ms as int),
{
    let neg = ms < 0;
    let mag: u64 = if neg {
        ((-(ms as i128)) as u64)
    } else {
        ms as u64
    };
    let secs: u64 = mag / 1000 + (if mag % 1000 >= 500 {
        1u64
    } else {
        0u64
    });
    proof {
        if neg {
            assert(round_to_seconds(ms as int) == -(secs as int));
        } else {
            assert(round_to_seconds(ms as int) == secs as int);
        }
    }
    let body = clock_string(secs);
    if neg && secs > 0 {
        let mut out = String::new();
        push_char(&mut out, '-');
        out.append(body.as_str());
        out
    } else {
        body
    }
}

/// The chat line for a synchronisation action applied on behalf of `actor`
/// (`me` is our own name), or `None` when the action is announced to no one.
pub open spec fn action_notice(
    a: SyncAction,
    actor: Seq<char>,
    me: Seq<char>,
    local_position: int,
    adjusted_global: int,
    global_position: int,
) -> Option<Seq<char>> {
    match a {
        SyncAction::Seek(_) => if actor != me {
            if local_position > adjusted_global {
                Some("Rewinded due to time difference with "@ + actor)
            } else {
                Some("Fast-forwarded due to time difference with "@ + actor)
            }
        } else {
            None
        },
        SyncAction::SetPaused(p) => if p {
            Some(actor + " paused at "@ + time_text(global_position))
        } else {
            Some(actor + " unpaused"@)
        },
        SyncAction::Slowdown => if actor != me {
            Some("Slowing down due to time difference with "@ + actor)
        } else {
            None
        },
        SyncAction::ResetSpeed => Some("Reverting speed back to normal"@),
        SyncAction::NoAction => None,
    }
}

fn concat(a: &str, b: &str) -> (r: String)
    ensures
        r@ == a@ + b@,
{
    let mut s = to_owned_text(a);
    s.append(b);
    s
}

/// Builds the chat line for an applied action; see [`action_notice`].
pub fn sync_action_notice(
    action: SyncAction,
    actor: &String,
    me: &String,
    local_position: i64,
    adjusted_global: i64,
    global_position: i64,
) -> (r: Option<String>)
    ensures
        match r {
            Some(t) => action_notice(
                action,
                actor@,
                me@,
                local_position as int,
                adjusted_global as int,
                global_position as int,
            ) == Some(t@),
            None => action_notice(
                action,
                actor@,
                me@,
                local_position as int,
                adjusted_global as int,
                global_position as int,
            ) is None,
        },
{
    match action {
        SyncAction::Seek(_) => if *actor != *me {
            if local_position > adjusted_global {
                Some(concat("Rewinded due to time difference with ", actor.as_str()))
            } else {
                Some(concat("Fast-forwarded due to time difference with ", actor.as_str()))
            }
        } else {
            None
        },
        SyncAction::SetPaused(p) => if p {
            let mut t = concat(actor.as_str(), " paused at ");
            let time = format_time(global_position);
            t.append(time.as_str());
            Some(t)
        } else {
            Some(concat(actor.as_str(), " unpaused"))
        },
        SyncAction::Slowdown => if *actor != *me {
            Some(concat("Slowing down due to time difference with ", actor.as_str()))
        } else {
            None
        },
        SyncAction::ResetSpeed => Some(to_owned_text("Reverting speed back to normal")),
        SyncAction::NoAction => None,
    }
}

/// The announcement shown after the server created a managed room.
pub open spec fn managed_room_notice_text(room: Seq<char>, password: Seq<char>) -> Seq<char> {
    "Created managed room '"@ + room + "' with password '"@ + password
        + "'. Please save this information for future reference!\n\nIn managed rooms everyone is kept in sync with the room operator(s) who are the only ones who can pause, unpause, seek, and change the playlist.\n\nYou should ask regular viewers to join the room '"@
        + room + "' but the room operators can join the room '"@ + room + seq![':'] + password
        + "' to automatically authenticate themselves."@
}

pub fn managed_room_notice(room: &str, password: &str) -> (r: String)
    ensures
        r@ == managed_room_notice_text(room@, password@),
{
    let mut t = to_owned_text("Created managed room '");
    t.append(room);
    t.append("' with password '");
    t.append(password);
    t.append(
        "'. Please save this information for future reference!\n\nIn managed rooms everyone is kept in sync with the room operator(s) who are the only ones who can pause, unpause, seek, and change the playlist.\n\nYou should ask regular viewers to join the room '",
    );
    t.append(room);
    t.append("' but the room operators can join the room '");
    t.append(room);
    push_char(&mut t, ':');
    t.append(password);
    t.append("' to automatically authenticate themselves.");
    proof {
        assert(t@ =~= managed_room_notice_text(room@, password@));
    }
    t
}

/// Where the server connection stands.
#[derive(Debug, Clone, Copy, PartialEq, Eq, Structural)]
pub enum ConnectionState {
    Disconnected,
    Connecting,
    Connected,
    Authenticated,
}

/// Messages can be exchanged once connected, and after authentication.
pub open spec fn connected(s: ConnectionState) -> bool {
    s == ConnectionState::Connected || s == ConnectionState::Authenticated
}

impl ConnectionState {
    pub fn is_connected(self) -> (r: bool)
        ensures
            r == connected(self),
    {
        match self {
            ConnectionState::Connected | ConnectionState::Authenticated => true,
            _ => false,
        }
    }
}

} // verus!
