//! The decisions of the periodic player-state pump: what changed since the
//! last snapshot, the unpause gate, and end of file. Times are in
//! milliseconds.
use vstd::prelude::*;
use crate::messages::PlayState;
use crate::session::{dist, position_ok, take_flag, LocalPlaybackState, SuppressionFlags, SEEK_THRESHOLD};

verus! {

/// Position moves of more than this are worth a `State` message.
pub const POSITION_CHANGE_THRESHOLD: i64 = 500;

/// Closer than this to the end counts as the end of the file.
pub const END_OF_FILE_MARGIN: i64 = 200;

/// The limit on positions and durations the pump compares.
pub const PUMP_TIME_LIMIT: i64 = 0x0020_0000_0000_0000;

/// What the pump last saw of the player.
#[derive(Debug)]
pub struct PlayerStateSnapshot {
    pub filename: Option<String>,
    pub position: Option<i64>,
    pub paused: Option<bool>,
    pub duration: Option<i64>,
}

pub open spec fn snapshot_ok(s: PlayerStateSnapshot) -> bool {
    (match s.position {
        Some(p) => -PUMP_TIME_LIMIT <= p <= PUMP_TIME_LIMIT,
        None => true,
    }) && (match s.duration {
        Some(d) => -PUMP_TIME_LIMIT <= d <= PUMP_TIME_LIMIT,
        None => true,
    })
}

pub open spec fn name_view(o: Option<String>) -> Option<Seq<char>> {
    match o {
        Some(s) => Some(s@),
        None => None,
    }
}

/// A `State` message is due: nothing was sent yet, or the pause state or the
/// file changed, or the position moved by more than the threshold.
pub open spec fn state_due(cur: PlayerStateSnapshot, last: Option<PlayerStateSnapshot>) -> bool {
    match last {
        None => true,
        Some(prev) => if cur.paused != prev.paused || name_view(cur.filename) != name_view(
            prev.filename,
        ) {
            true
        } else {
            match (cur.position, prev.position) {
                (Some(c), Some(l)) => c - l > POSITION_CHANGE_THRESHOLD || l - c
                    > POSITION_CHANGE_THRESHOLD,
                _ => false,
            }
        },
    }
}

fn same_name(a: &Option<String>, b: &Option<String>) -> (r: bool)
    ensures
        r == (name_view(*a) == name_view(*b)),
{
    match (a, b) {
        (Some(x), Some(y)) => *x == *y,
        (None, None) => true,
        _ => false,
    }
}

pub fn should_send_state(cur: &PlayerStateSnapshot, last: Option<&PlayerStateSnapshot>) -> (r: bool)
    requires
        snapshot_ok(*cur),
        match last {
            Some(l) => snapshot_ok(*l),
            None => true,
        },
    ensures
        r == state_due(
            *cur,
            match last {
                Some(l) => Some(*l),
                None => None,
            },
        ),
{
    match last {
        None => true,
        Some(prev) => {
            if cur.paused != prev.paused || !same_name(&cur.filename, &prev.filename) {
                return true;
            }
            match (cur.position, prev.position) {
                (Some(c), Some(l)) => c - l > POSITION_CHANGE_THRESHOLD || l - c
                    > POSITION_CHANGE_THRESHOLD,
                _ => false,
            }
        },
    }
}

/// The file changed: nothing was seen yet, or the name or the duration
/// differs.
pub open spec fn file_changed(cur: PlayerStateSnapshot, last: Option<PlayerStateSnapshot>) -> bool {
    match last {
        None => true,
        Some(prev) => name_view(prev.filename) != name_view(cur.filename) || prev.duration
            != cur.duration,
    }
}

pub fn file_info_changed(cur: &PlayerStateSnapshot, last: Option<&PlayerStateSnapshot>) -> (r: bool)
    ensures
        r == file_changed(
            *cur,
            match last {
                Some(l) => Some(*l),
                None => None,
            },
        ),
{
    match last {
        None => true,
        Some(prev) => !same_name(&prev.filename, &cur.filename) || prev.duration != cur.duration,
    }
}

/// Whether a changed file is to be announced with `Set.file`: not when a
/// single-use suppression is pending, which this consumes.
pub fn file_update_due(flags: &mut SuppressionFlags, changed: bool) -> (r: bool)
    ensures
        !changed ==> !r && *final(flags) == *old(flags),
        changed ==> r == !old(flags).next_file_update && !final(flags).next_file_update
            && final(flags).unpause_check == old(flags).unpause_check,
{
    if !changed {
        return false;
    }
    !flags.take_next_file_update()
}

/// The player reached the end of a file of known, positive length.
pub open spec fn at_end(position: Option<i64>, duration: Option<i64>) -> bool {
    match (position, duration) {
        (Some(p), Some(d)) => d > 0 && p >= d - END_OF_FILE_MARGIN,
        _ => false,
    }
}

pub fn reached_end_of_file(position: Option<i64>, duration: Option<i64>) -> (r: bool)
    requires
        match duration {
            Some(d) => -PUMP_TIME_LIMIT <= d <= PUMP_TIME_LIMIT,
            None => true,
        },
    ensures
        r == at_end(position, duration),
{
    match (position, duration) {
        (Some(p), Some(d)) => d > 0 && p >= d - END_OF_FILE_MARGIN,
        _ => false,
    }
}

/// What the unpause gate decides.
#[derive(Debug, Clone, Copy, PartialEq, Eq, Structural)]
pub enum UnpauseDecision {
    /// No unpause happened, or it stands.
    Allow,
    /// Pause the player again; when `send_ready`, also announce that we are
    /// ready, as manually initiated.
    Block { send_ready: bool },
}

/// Whether an unpause may stand: it is blocked unless the unpause check is
/// suppressed or instaplay allows it.
pub open spec fn gate_of(
    unpaused: bool,
    suppressed: bool,
    instaplay_allowed: bool,
    self_ready: bool,
) -> UnpauseDecision {
    if !unpaused || suppressed || instaplay_allowed {
        UnpauseDecision::Allow
    } else {
        UnpauseDecision::Block { send_ready: !self_ready }
    }
}

pub fn unpause_gate(
    flags: &mut SuppressionFlags,
    prev_paused: Option<bool>,
    cur_paused: Option<bool>,
    instaplay_allowed: bool,
    self_ready: bool,
) -> (r: UnpauseDecision)
    ensures
        ({
            let unpaused = prev_paused == Some(true) && cur_paused == Some(false);
            &&& unpaused ==> r == gate_of(true, old(flags).unpause_check, instaplay_allowed, self_ready)
                && (final(flags).unpause_check, final(flags).next_file_update) == (
                take_flag(old(flags).unpause_check).1,
                old(flags).next_file_update,
            )
            &&& !unpaused ==> r == UnpauseDecision::Allow && *final(flags) == *old(flags)
        }),
{
    let unpaused = match (prev_paused, cur_paused) {
        (Some(true), Some(false)) => true,
        _ => false,
    };
    if !unpaused {
        return UnpauseDecision::Allow;
    }
    let suppressed = flags.take_unpause_check();
    if suppressed || instaplay_allowed {
        UnpauseDecision::Allow
    } else {
        UnpauseDecision::Block { send_ready: !self_ready }
    }
}

/// Our playstate for a `State` reply, once a global state has arrived and
/// the player has been read: our position (or the global one when we do
/// not slow down for others), our pause state, and a seek flag when that
/// position jumped away from both the last reading and the global one.
pub fn build_local_playstate(
    local: &LocalPlaybackState,
    have_global: bool,
    global_position: i64,
    dont_slow_down_with_me: bool,
) -> (r: Option<PlayState>)
    requires
        local.wf(),
        position_ok(global_position),
    ensures
        !have_global || !local.initialized() ==> r is None,
        have_global && local.initialized() ==> r is Some && {
            let p = r->0;
            let position = if dont_slow_down_with_me {
                global_position
            } else {
                local.position()
            };
            &&& p.position == position
            &&& p.paused == local.paused()
            &&& p.set_by is None
            &&& p.do_seek == if dist(local.position() as int, position as int) > SEEK_THRESHOLD
                && dist(global_position as int, position as int) > SEEK_THRESHOLD {
                Some(true)
            } else {
                None::<bool>
            }
        },
{
    if !have_global {
        return None;
    }
    let (local_position, local_paused) = match local.current() {
        Some(c) => c,
        None => {
            return None;
        },
    };
    let position = if dont_slow_down_with_me {
        global_position
    } else {
        local_position
    };
    let do_seek = if local.compute_seeked(position, global_position) {
        Some(true)
    } else {
        None
    };
    Some(PlayState { position, paused: local_paused, do_seek, set_by: None })
}

/// The playstate the pump announces from a player reading, set by us; none
/// until both position and pause state are known.
pub fn to_play_state(snapshot: &PlayerStateSnapshot, username: &String) -> (r: Option<PlayState>)
    ensures
        match (snapshot.position, snapshot.paused) {
            (Some(pos), Some(paused)) => r == Some(
                PlayState { position: pos, paused, do_seek: None, set_by: Some(*username) },
            ),
            _ => r is None,
        },
{
    match (snapshot.position, snapshot.paused) {
        (Some(pos), Some(paused)) => Some(
            PlayState { position: pos, paused, do_seek: None, set_by: Some(username.clone()) },
        ),
        _ => None,
    }
}

} // verus!
