//! Session bookkeeping: the ignoring-on-the-fly counters, the single-use
//! suppression flags, the local playback tracker and the room-name rules.
use vstd::prelude::*;
use crate::text::{push_char, to_owned_text};

verus! {

/// The `ignoringOnTheFly` block of a `State` message.
#[derive(Debug, Clone, Copy, PartialEq, Eq, Structural)]
pub struct IgnoringInfo {
    pub server: Option<u32>,
    pub client: Option<u32>,
}

/// The two echo-suppression counters.
#[derive(Debug, Clone, Copy, PartialEq, Eq, Structural)]
pub struct IgnoringOnTheFlyState {
    pub server: u32,
    pub client: u32,
}

/// The counters after an inbound `ignoringOnTheFly` block: a server count is
/// adopted and our own count dropped; otherwise a client count equal to ours
/// acknowledges it.
pub open spec fn counters_after_info(
    st: IgnoringOnTheFlyState,
    server: Option<u32>,
    client: Option<u32>,
) -> IgnoringOnTheFlyState {
    match server {
        Some(n) => IgnoringOnTheFlyState { server: n, client: 0 },
        None => match client {
            Some(c) => if c == st.client {
                IgnoringOnTheFlyState { client: 0, ..st }
            } else {
                st
            },
            None => st,
        },
    }
}

pub open spec fn nonzero(n: u32) -> Option<u32> {
    if n != 0 {
        Some(n)
    } else {
        None
    }
}

/// What a `State` reply carries and the counters it leaves: whether our
/// playstate may go out, and the `ignoringOnTheFly` block.
pub open spec fn reply_of(st: IgnoringOnTheFlyState, state_change: bool) -> (
    bool,
    Option<IgnoringInfo>,
    IgnoringOnTheFlyState,
) {
    let send_playstate = st.client == 0 || st.server != 0;
    let client: u32 = if state_change {
        if st.client == u32::MAX {
            u32::MAX
        } else {
            (st.client + 1) as u32
        }
    } else {
        st.client
    };
    let info = if st.server != 0 || client != 0 {
        Some(IgnoringInfo { server: nonzero(st.server), client: nonzero(client) })
    } else {
        None
    };
    (send_playstate, info, IgnoringOnTheFlyState { server: 0, client })
}

impl IgnoringOnTheFlyState {
    pub fn new() -> (r: Self)
        ensures
            r == (IgnoringOnTheFlyState { server: 0, client: 0 }),
    {
        IgnoringOnTheFlyState { server: 0, client: 0 }
    }

    /// Takes in the block of an inbound `State` message.
    pub fn apply_info(&mut self, info: &IgnoringInfo)
        ensures
            *final(self) == counters_after_info(*old(self), info.server, info.client),
    {
        match info.server {
            Some(n) => {
                self.server = n;
                self.client = 0;
            },
            None => match info.client {
                Some(c) => {
                    if c == self.client {
                        self.client = 0;
                    }
                },
                None => {},
            },
        }
    }

    /// Prepares the counters of an outbound `State` reply. Returns whether our
    /// playstate may be included (not while only our own change awaits its
    /// echo) and the block to send; a genuine local change bumps our count,
    /// and the server's count is acknowledged, so it goes back to zero.
    pub fn prepare_reply(&mut self, state_change: bool) -> (r: (bool, Option<IgnoringInfo>))
        ensures
            r.0 == reply_of(*old(self), state_change).0,
            r.1 == reply_of(*old(self), state_change).1,
            *final(self) == reply_of(*old(self), state_change).2,
    {
        let send_playstate = self.client == 0 || self.server != 0;
        if state_change {
            self.client = self.client.saturating_add(1);
        }
        let info = if self.server != 0 || self.client != 0 {
            Some(
                IgnoringInfo {
                    server: if self.server != 0 {
                        Some(self.server)
                    } else {
                        None
                    },
                    client: if self.client != 0 {
                        Some(self.client)
                    } else {
                        None
                    },
                },
            )
        } else {
            None
        };
        self.server = 0;
        (send_playstate, info)
    }
}

/// After a server `State` that asks for `server = n` (n > 0), the next reply
/// carries `server = n`, the counter is zero after it, and the reply after
/// that carries no server count.
pub proof fn lemma_server_count_echoed_once(
    st: IgnoringOnTheFlyState,
    n: u32,
    client: Option<u32>,
    change1: bool,
    change2: bool,
)
    requires
        n > 0,
    ensures
        ({
            let st1 = counters_after_info(st, Some(n), client);
            let (_, info1, st2) = reply_of(st1, change1);
            let (_, info2, st3) = reply_of(st2, change2);
            &&& info1 is Some && info1->0.server == Some(n)
            &&& st2.server == 0
            &&& (info2 is None || info2->0.server is None)
            &&& st3.server == 0
        }),
{
}

/// Single-use flags that let the state pump skip one echo of a change the
/// session made itself.
#[derive(Debug, Clone, Copy, PartialEq, Eq, Structural)]
pub struct SuppressionFlags {
    pub next_file_update: bool,
    pub unpause_check: bool,
}

/// A consuming read: what the flag held, and the flag afterwards.
pub open spec fn take_flag(flag: bool) -> (bool, bool) {
    (flag, false)
}

impl SuppressionFlags {
    pub fn new() -> (r: Self)
        ensures
            !r.next_file_update && !r.unpause_check,
    {
        SuppressionFlags { next_file_update: false, unpause_check: false }
    }

    pub fn suppress_next_file_update(&mut self)
        ensures
            final(self).next_file_update,
            final(self).unpause_check == old(self).unpause_check,
    {
        self.next_file_update = true;
    }

    pub fn suppress_unpause_check(&mut self)
        ensures
            final(self).unpause_check,
            final(self).next_file_update == old(self).next_file_update,
    {
        self.unpause_check = true;
    }

    /// Reads and clears the file-update flag.
    pub fn take_next_file_update(&mut self) -> (r: bool)
        ensures
            (r, final(self).next_file_update) == take_flag(old(self).next_file_update),
            final(self).unpause_check == old(self).unpause_check,
    {
        let r = self.next_file_update;
        self.next_file_update = false;
        r
    }

    /// Reads and clears the unpause-check flag.
    pub fn take_unpause_check(&mut self) -> (r: bool)
        ensures
            (r, final(self).unpause_check) == take_flag(old(self).unpause_check),
            final(self).next_file_update == old(self).next_file_update,
    {
        let r = self.unpause_check;
        self.unpause_check = false;
        r
    }
}

/// A raised single-use flag reads true once and is false afterwards: a second
/// read gives false.
pub proof fn lemma_single_use_flag(flag: bool)
    ensures
        take_flag(flag).0 == flag,
        !take_flag(flag).1,
        !take_flag(take_flag(flag).1).0,
        !take_flag(take_flag(flag).1).1,
{
}

/// Position jumps larger than this count as a seek (milliseconds).
pub const SEEK_THRESHOLD: i64 = 1000;

/// The bound on positions that the tracker takes (milliseconds).
pub const POSITION_LIMIT: i64 = 0x0020_0000_0000_0000;

pub open spec fn position_ok(t: i64) -> bool {
    -POSITION_LIMIT <= t <= POSITION_LIMIT
}

pub open spec fn dist(a: int, b: int) -> int {
    if a >= b {
        a - b
    } else {
        b - a
    }
}

/// The last position and pause state read from the player.
#[derive(Debug, Clone, Copy)]
pub struct LocalPlaybackState {
    position: i64,
    paused: bool,
    initialized: bool,
}

impl LocalPlaybackState {
    pub closed spec fn position(&self) -> i64 {
        self.position
    }

    pub closed spec fn paused(&self) -> bool {
        self.paused
    }

    pub closed spec fn initialized(&self) -> bool {
        self.initialized
    }

    pub open spec fn wf(&self) -> bool {
        position_ok(self.position())
    }

    pub fn new() -> (r: Self)
        ensures
            r.wf(),
            r.position() == 0,
            r.paused(),
            r.initialized(),
    {
        LocalPlaybackState { position: 0, paused: true, initialized: true }
    }

    /// Records a player reading. Returns `(pause_change, seeked)`: a pause
    /// change is a pause flip that disagrees with the global state; a seek is
    /// a jump of more than [`SEEK_THRESHOLD`] from both the last reading and
    /// the global position.
    pub fn update_from_player(
        &mut self,
        position: i64,
        paused: bool,
        global_position: i64,
        global_paused: bool,
    ) -> (r: (bool, bool))
        requires
            old(self).wf(),
            position_ok(position),
            position_ok(global_position),
        ensures
            final(self).wf(),
            r.0 == (old(self).initialized() && paused != old(self).paused() && global_paused
                != paused),
            r.1 == (old(self).initialized() && dist(old(self).position() as int, position as int)
                > SEEK_THRESHOLD && dist(global_position as int, position as int)
                > SEEK_THRESHOLD),
            final(self).position() == position,
            final(self).paused() == paused,
            final(self).initialized(),
    {
        let pause_change = self.initialized && self.paused != paused && global_paused != paused;
        let seeked = self.compute_seeked(position, global_position);
        self.position = position;
        self.paused = paused;
        self.initialized = true;
        (pause_change, seeked)
    }

    /// The last reading, once there is one.
    pub fn current(&self) -> (r: Option<(i64, bool)>)
        ensures
            self.initialized() ==> r == Some((self.position(), self.paused())),
            !self.initialized() ==> r is None,
    {
        if self.initialized {
            Some((self.position, self.paused))
        } else {
            None
        }
    }

    /// Whether moving to `position` would count as a seek.
    pub fn compute_seeked(&self, position: i64, global_position: i64) -> (r: bool)
        requires
            self.wf(),
            position_ok(position),
            position_ok(global_position),
        ensures
            r == (self.initialized() && dist(self.position() as int, position as int)
                > SEEK_THRESHOLD && dist(global_position as int, position as int)
                > SEEK_THRESHOLD),
    {
        if !self.initialized {
            return false;
        }
        let player_diff = if self.position >= position {
            self.position - position
        } else {
            position - self.position
        };
        let global_diff = if global_position >= position {
            global_position - position
        } else {
            position - global_position
        };
        player_diff > SEEK_THRESHOLD && global_diff > SEEK_THRESHOLD
    }
}

impl Default for LocalPlaybackState {
    fn default() -> (r: Self)
        ensures
            r.wf(),
            r.position() == 0,
            r.paused(),
            r.initialized(),
    {
        LocalPlaybackState::new()
    }
}

/// The index of the last `:` in `s`, if any.
pub open spec fn last_colon(s: Seq<char>) -> Option<int> {
    if exists|k: int| 0 <= k < s.len() && s[k] == ':' {
        Some(choose|k: int| 0 <= k < s.len() && s[k] == ':' && forall|j: int| k < j < s.len() ==> s[j] != ':')
    } else {
        None
    }
}

/// A room input `name:password` split at its last `:` into the canonical room
/// name and the control password; without a `:`, or with nothing after it,
/// there is no password (and a trailing `:` is dropped).
pub open spec fn split_room_input(s: Seq<char>) -> (Seq<char>, Option<Seq<char>>) {
    match last_colon(s) {
        None => (s, None),
        Some(k) => if k + 1 < s.len() {
            (s.subrange(0, k), Some(s.subrange(k + 1, s.len() as int)))
        } else {
            (s.subrange(0, k), None)
        },
    }
}

fn copy_range(s: &str, from: usize, to: usize) -> (r: String)
    requires
        from <= to <= s@.len(),
    ensures
        r@ == s@.subrange(from as int, to as int),
{
    let mut out = String::new();
    let mut i: usize = from;
    while i < to
        invariant
            from <= i <= to,
            to <= s@.len(),
            out@ == s@.subrange(from as int, i as int),
        decreases to - i,
    {
        push_char(&mut out, s.get_char(i));
        proof {
            assert(out@ =~= s@.subrange(from as int, i + 1));
        }
        i = i + 1;
    }
    out
}

/// Splits a room input into the room name and the control password.
pub fn parse_controlled_room_input(input: &str) -> (r: (String, Option<String>))
    ensures
        r.0@ == split_room_input(input@).0,
        match r.1 {
            Some(p) => split_room_input(input@).1 == Some(p@),
            None => split_room_input(input@).1 is None,
        },
{
    let n = input.unicode_len();
    let mut i: usize = n;
    while i > 0
        invariant
            i <= n,
            n == input@.len(),
            forall|j: int| i <= j < n ==> input@[j] != ':',
        decreases i,
    {
        if input.get_char(i - 1) == ':' {
            let k = i - 1;
            proof {
                let s = input@;
                assert(exists|j: int| 0 <= j < s.len() && s[j] == ':');
                let c = last_colon(s)->0;
                assert(c == k) by {
                    if c < k {
                        assert(s[k as int] == ':');
                    }
                    if c > k {
                        assert(s[c] != ':');
                    }
                }
            }
            let name = copy_range(input, 0, k);
            if k + 1 < n {
                let password = copy_range(input, k + 1, n);
                return (name, Some(password));
            } else {
                return (name, None);
            }
        }
        i = i - 1;
    }
    (to_owned_text(input), None)
}

/// `room:password`, the entry a controlled room keeps in the room list.
pub open spec fn room_entry(room: Seq<char>, password: Seq<char>) -> Seq<char> {
    room + seq![':'] + password
}

/// Adds `room:password` to the saved room list unless it is there already;
/// returns whether it was added.
pub fn remember_room_entry(room_list: &mut Vec<String>, room: &str, password: &str) -> (r: bool)
    ensures
        r == !crate::text::strings_view(old(room_list)@).contains(room_entry(room@, password@)),
        r ==> final(room_list)@.len() == old(room_list)@.len() + 1 && crate::text::strings_view(
            final(room_list)@,
        ) == crate::text::strings_view(old(room_list)@).push(room_entry(room@, password@)),
        !r ==> final(room_list)@ == old(room_list)@,
{
    let mut entry = to_owned_text(room);
    push_char(&mut entry, ':');
    entry.append(password);
    let ghost v = crate::text::strings_view(room_list@);
    let mut i: usize = 0;
    while i < room_list.len()
        invariant
            i <= room_list@.len(),
            v == crate::text::strings_view(room_list@),
            room_list@ == old(room_list)@,
            entry@ == room_entry(room@, password@),
            forall|j: int| 0 <= j < i ==> v[j] != entry@,
        decreases room_list@.len() - i,
    {
        if room_list[i] == entry {
            proof {
                assert(v[i as int] == entry@);
            }
            return false;
        }
        i = i + 1;
    }
    let ghost e = entry@;
    room_list.push(entry);
    proof {
        assert(crate::text::strings_view(room_list@) =~= v.push(e));
    }
    true
}

} // verus!
