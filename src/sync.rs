//! The synchronisation engine: from the local and the global playhead to an
//! ordered list of corrective actions. Times are in milliseconds.
use vstd::prelude::*;
use crate::clock::{clock_millis_since, clock_start, TIME_LIMIT};
use crate::config::UserPreferences;

verus! {

/// How far ahead of the global playhead a seek lands when catching up.
pub const FASTFORWARD_EXTRA_TIME: i64 = 250;

/// How long a catch-up seek holds off the next one.
pub const FASTFORWARD_RESET_THRESHOLD: i64 = 3000;

/// How far behind the local player must be before the catch-up timer runs.
pub const FASTFORWARD_BEHIND_THRESHOLD: i64 = 1750;

/// One corrective action, to be applied in list order.
#[derive(Debug, Clone, Copy, PartialEq, Eq, Structural)]
pub enum SyncAction {
    /// No action needed
    NoAction,
    /// Seek to a position, in milliseconds
    Seek(i64),
    /// Set the pause state
    SetPaused(bool),
    /// Apply slowdown
    Slowdown,
    /// Reset speed to normal
    ResetSpeed,
}

/// The inputs of one decision. Positions and the message age are in
/// milliseconds.
#[derive(Debug, Clone, Copy)]
pub struct SyncInputs {
    pub local_position: i64,
    pub local_paused: bool,
    pub global_position: i64,
    pub global_paused: bool,
    pub message_age: i64,
    pub do_seek: bool,
    pub allow_fastforward: bool,
}

pub open spec fn time_ok(t: i64) -> bool {
    -TIME_LIMIT <= t <= TIME_LIMIT
}

impl SyncInputs {
    /// Every time lies within [`TIME_LIMIT`].
    pub open spec fn wf(&self) -> bool {
        time_ok(self.local_position) && time_ok(self.global_position) && time_ok(
            self.message_age,
        )
    }
}

/// The thresholds and toggles the engine decides by. Thresholds are in
/// milliseconds; `slowdown_rate` is in thousandths of normal speed.
#[derive(Debug, Clone, Copy)]
pub struct SyncSettings {
    pub seek_threshold_rewind: i64,
    pub seek_threshold_fastforward: i64,
    pub slowdown_threshold: i64,
    pub slowdown_reset_threshold: i64,
    pub slowdown_rate: u32,
    pub slow_on_desync: bool,
    pub rewind_on_desync: bool,
    pub fastforward_on_desync: bool,
}

impl SyncSettings {
    pub open spec fn wf(&self) -> bool {
        time_ok(self.seek_threshold_rewind) && time_ok(self.seek_threshold_fastforward)
            && time_ok(self.slowdown_threshold) && time_ok(self.slowdown_reset_threshold)
    }
}

/// What the engine remembers between decisions: whether the player runs
/// slowed down, and since when (on the engine's clock) it has been behind.
#[derive(Debug, Clone, Copy, PartialEq, Eq, Structural)]
pub struct SyncState {
    pub slowdown_active: bool,
    pub behind_since: Option<i64>,
}

impl SyncState {
    pub open spec fn wf(&self) -> bool {
        match self.behind_since {
            Some(t) => -TIME_LIMIT <= t <= TIME_LIMIT + FASTFORWARD_RESET_THRESHOLD,
            None => true,
        }
    }
}

pub open spec fn abs(x: int) -> int {
    if x < 0 {
        -x
    } else {
        x
    }
}

/// The global playhead advanced by the message age while it plays.
pub open spec fn adjusted_global(i: SyncInputs) -> int {
    if i.global_paused {
        i.global_position as int
    } else {
        i.global_position + i.message_age
    }
}

/// Local minus adjusted global position: positive when ahead.
pub open spec fn position_diff(i: SyncInputs) -> int {
    i.local_position - adjusted_global(i)
}

/// The outcome of the position step when both sides agree on pausing: the
/// actions it emits and the state it leaves.
pub open spec fn position_step(s: SyncSettings, st: SyncState, i: SyncInputs, now: int) -> (Seq<
    SyncAction,
>, SyncState) {
    let adjusted = adjusted_global(i);
    let diff = position_diff(i);
    if s.rewind_on_desync && diff > s.seek_threshold_rewind {
        (seq![SyncAction::Seek(adjusted as i64)], SyncState { slowdown_active: false, behind_since: None })
    } else if i.allow_fastforward && s.fastforward_on_desync {
        if diff < -FASTFORWARD_BEHIND_THRESHOLD {
            let start: int = match st.behind_since {
                Some(t) => t as int,
                None => now,
            };
            let behind_for = if now > start {
                now - start
            } else {
                0
            };
            if behind_for > s.seek_threshold_fastforward - FASTFORWARD_BEHIND_THRESHOLD && diff
                < -s.seek_threshold_fastforward {
                (
                    seq![SyncAction::Seek((adjusted + FASTFORWARD_EXTRA_TIME) as i64)],
                    SyncState {
                        slowdown_active: false,
                        behind_since: Some((now + FASTFORWARD_RESET_THRESHOLD) as i64),
                    },
                )
            } else {
                (seq![], SyncState { behind_since: Some(start as i64), ..st })
            }
        } else {
            (seq![], SyncState { behind_since: None, ..st })
        }
    } else if s.slow_on_desync && !i.global_paused && abs(diff) > s.slowdown_threshold
        && !st.slowdown_active {
        (seq![SyncAction::Slowdown], SyncState { slowdown_active: true, ..st })
    } else if st.slowdown_active && abs(diff) < s.slowdown_reset_threshold {
        (seq![SyncAction::ResetSpeed], SyncState { slowdown_active: false, ..st })
    } else if st.slowdown_active && !s.slow_on_desync {
        (seq![SyncAction::ResetSpeed], SyncState { slowdown_active: false, ..st })
    } else {
        (seq![], st)
    }
}

/// One decision at time `now` on the engine's clock: the actions emitted
/// before the `NoAction` filler, and the state left behind.
pub open spec fn decision(s: SyncSettings, st: SyncState, i: SyncInputs, now: int) -> (Seq<
    SyncAction,
>, SyncState) {
    let pause: Seq<SyncAction> = if i.local_paused != i.global_paused {
        seq![SyncAction::SetPaused(i.global_paused)]
    } else {
        seq![]
    };
    if i.do_seek {
        (
            pause.push(SyncAction::Seek(adjusted_global(i) as i64)),
            SyncState { slowdown_active: false, ..st },
        )
    } else if i.local_paused == i.global_paused {
        let (acts, st2) = position_step(s, st, i, now);
        (pause + acts, st2)
    } else {
        (pause, st)
    }
}

/// The action list of one decision: a lone `NoAction` when nothing is to be done.
pub open spec fn sync_actions(s: SyncSettings, st: SyncState, i: SyncInputs, now: int) -> Seq<
    SyncAction,
> {
    let acts = decision(s, st, i, now).0;
    if acts.len() == 0 {
        seq![SyncAction::NoAction]
    } else {
        acts
    }
}

/// The state that one decision leaves.
pub open spec fn sync_state_after(s: SyncSettings, st: SyncState, i: SyncInputs, now: int) -> SyncState {
    decision(s, st, i, now).1
}

/// Decides the actions for `inputs` at time `now`; see [`sync_actions`].
pub fn decide(settings: &SyncSettings, state: SyncState, inputs: &SyncInputs, now: i64) -> (r: (
    Vec<SyncAction>,
    SyncState,
))
    requires
        settings.wf(),
        state.wf(),
        inputs.wf(),
        time_ok(now),
    ensures
        r.0@ == sync_actions(*settings, state, *inputs, now as int),
        r.1 == sync_state_after(*settings, state, *inputs, now as int),
        r.1.wf(),
{
    let mut actions: Vec<SyncAction> = Vec::new();
    let mut st = state;
    let adjusted: i64 = if inputs.global_paused {
        inputs.global_position
    } else {
        inputs.global_position + inputs.message_age
    };
    let diff: i64 = inputs.local_position - adjusted;
    let abs_diff: i64 = if diff < 0 {
        -diff
    } else {
        diff
    };
    if inputs.local_paused != inputs.global_paused {
        actions.push(SyncAction::SetPaused(inputs.global_paused));
    }
    let ghost pause = actions@;
    if inputs.do_seek {
        actions.push(SyncAction::Seek(adjusted));
        st.slowdown_active = false;
    } else if inputs.local_paused == inputs.global_paused {
        if settings.rewind_on_desync && diff > settings.seek_threshold_rewind {
            actions.push(SyncAction::Seek(adjusted));
            st.slowdown_active = false;
            st.behind_since = None;
        } else if inputs.allow_fastforward && settings.fastforward_on_desync {
            if diff < -FASTFORWARD_BEHIND_THRESHOLD {
                let start = match st.behind_since {
                    Some(t) => t,
                    None => now,
                };
                let behind_for: i64 = if now > start {
                    now - start
                } else {
                    0
                };
                if behind_for > settings.seek_threshold_fastforward - FASTFORWARD_BEHIND_THRESHOLD
                    && diff < -settings.seek_threshold_fastforward {
                    actions.push(SyncAction::Seek(adjusted + FASTFORWARD_EXTRA_TIME));
                    st.slowdown_active = false;
                    st.behind_since = Some(now + FASTFORWARD_RESET_THRESHOLD);
                } else {
                    st.behind_since = Some(start);
                }
            } else {
                st.behind_since = None;
            }
        } else if settings.slow_on_desync && !inputs.global_paused && abs_diff
            > settings.slowdown_threshold && !st.slowdown_active {
            actions.push(SyncAction::Slowdown);
            st.slowdown_active = true;
        } else if st.slowdown_active && abs_diff < settings.slowdown_reset_threshold {
            actions.push(SyncAction::ResetSpeed);
            st.slowdown_active = false;
        } else if st.slowdown_active && !settings.slow_on_desync {
            actions.push(SyncAction::ResetSpeed);
            st.slowdown_active = false;
        }
        proof {
            let (acts, _st2) = position_step(*settings, state, *inputs, now as int);
            assert(actions@ =~= pause + acts);
        }
    }
    if actions.len() == 0 {
        actions.push(SyncAction::NoAction);
        proof {
            assert(actions@ =~= seq![SyncAction::NoAction]);
        }
    }
    (actions, st)
}

/// The synchronisation engine: settings, the state it carries between
/// decisions, and its own monotonic clock.
pub struct SyncEngine {
    settings: SyncSettings,
    state: SyncState,
    clock: std::time::Instant,
}

/// The settings an engine starts with.
pub open spec fn default_settings() -> SyncSettings {
    SyncSettings {
        seek_threshold_rewind: 4000,
        seek_threshold_fastforward: 5000,
        slowdown_threshold: 1500,
        slowdown_reset_threshold: 100,
        slowdown_rate: 950,
        slow_on_desync: true,
        rewind_on_desync: true,
        fastforward_on_desync: true,
    }
}

/// The engine settings that the preferences give.
pub open spec fn settings_from(p: UserPreferences) -> SyncSettings {
    SyncSettings {
        seek_threshold_rewind: p.seek_threshold_rewind,
        seek_threshold_fastforward: p.seek_threshold_fastforward,
        slowdown_threshold: p.slowdown_threshold,
        slowdown_reset_threshold: p.slowdown_reset_threshold,
        slowdown_rate: p.slowdown_rate,
        slow_on_desync: p.slow_on_desync && !p.dont_slow_down_with_me,
        rewind_on_desync: p.rewind_on_desync,
        fastforward_on_desync: p.fastforward_on_desync,
    }
}

impl SyncEngine {
    pub closed spec fn settings(&self) -> SyncSettings {
        self.settings
    }

    pub closed spec fn state(&self) -> SyncState {
        self.state
    }

    pub open spec fn wf(&self) -> bool {
        self.settings().wf() && self.state().wf()
    }

    pub fn new() -> (r: Self)
        ensures
            r.wf(),
            r.settings() == default_settings(),
            r.state() == (SyncState { slowdown_active: false, behind_since: None }),
    {
        SyncEngine {
            settings: SyncSettings {
                seek_threshold_rewind: 4000,
                seek_threshold_fastforward: 5000,
                slowdown_threshold: 1500,
                slowdown_reset_threshold: 100,
                slowdown_rate: 950,
                slow_on_desync: true,
                rewind_on_desync: true,
                fastforward_on_desync: true,
            },
            state: SyncState { slowdown_active: false, behind_since: None },
            clock: clock_start(),
        }
    }

    /// Replaces the settings; the carried state stays.
    pub fn set_settings(&mut self, settings: SyncSettings)
        requires
            old(self).wf(),
            settings.wf(),
        ensures
            final(self).wf(),
            final(self).settings() == settings,
            final(self).state() == old(self).state(),
    {
        self.settings = settings;
    }

    /// Takes the thresholds and toggles from the user's preferences; slowing
    /// down is off when the user does not slow down with others. Returns
    /// false, changing nothing, when a threshold lies beyond [`TIME_LIMIT`].
    pub fn update_from_config(&mut self, prefs: &UserPreferences) -> (r: bool)
        requires
            old(self).wf(),
        ensures
            final(self).wf(),
            final(self).state() == old(self).state(),
            r == (time_ok(prefs.seek_threshold_rewind) && time_ok(prefs.seek_threshold_fastforward)
                && time_ok(prefs.slowdown_threshold) && time_ok(prefs.slowdown_reset_threshold)),
            r ==> final(self).settings() == settings_from(*prefs),
            !r ==> final(self).settings() == old(self).settings(),
    {
        let ok = -TIME_LIMIT <= prefs.seek_threshold_rewind && prefs.seek_threshold_rewind
            <= TIME_LIMIT && -TIME_LIMIT <= prefs.seek_threshold_fastforward
            && prefs.seek_threshold_fastforward <= TIME_LIMIT && -TIME_LIMIT
            <= prefs.slowdown_threshold && prefs.slowdown_threshold <= TIME_LIMIT && -TIME_LIMIT
            <= prefs.slowdown_reset_threshold && prefs.slowdown_reset_threshold <= TIME_LIMIT;
        if !ok {
            return false;
        }
        self.settings = SyncSettings {
            seek_threshold_rewind: prefs.seek_threshold_rewind,
            seek_threshold_fastforward: prefs.seek_threshold_fastforward,
            slowdown_threshold: prefs.slowdown_threshold,
            slowdown_reset_threshold: prefs.slowdown_reset_threshold,
            slowdown_rate: prefs.slowdown_rate,
            slow_on_desync: prefs.slow_on_desync && !prefs.dont_slow_down_with_me,
            rewind_on_desync: prefs.rewind_on_desync,
            fastforward_on_desync: prefs.fastforward_on_desync,
        };
        true
    }

    /// The playback rate for slowdown, in thousandths of normal speed.
    pub fn slowdown_rate(&self) -> (r: u32)
        ensures
            r == self.settings().slowdown_rate,
    {
        self.settings.slowdown_rate
    }

    /// Decides at time `now` (milliseconds on the engine's clock).
    pub fn calculate_sync_actions_at(&mut self, inputs: SyncInputs, now: i64) -> (r: Vec<SyncAction>)
        requires
            old(self).wf(),
            inputs.wf(),
            time_ok(now),
        ensures
            final(self).wf(),
            final(self).settings() == old(self).settings(),
            r@ == sync_actions(old(self).settings(), old(self).state(), inputs, now as int),
            final(self).state() == sync_state_after(
                old(self).settings(),
                old(self).state(),
                inputs,
                now as int,
            ),
    {
        let (actions, st) = decide(&self.settings, self.state, &inputs, now);
        self.state = st;
        actions
    }

    /// Decides now, reading the engine's clock.
    pub fn calculate_sync_actions(&mut self, inputs: SyncInputs) -> (r: Vec<SyncAction>)
        requires
            old(self).wf(),
            inputs.wf(),
        ensures
            final(self).wf(),
            final(self).settings() == old(self).settings(),
            exists|now: int|
                time_ok(now as i64) && 0 <= now && #[trigger] sync_actions(
                    old(self).settings(),
                    old(self).state(),
                    inputs,
                    now,
                ) == r@ && final(self).state() == sync_state_after(
                    old(self).settings(),
                    old(self).state(),
                    inputs,
                    now,
                ),
    {
        let now = clock_millis_since(&self.clock);
        self.calculate_sync_actions_at(inputs, now)
    }

    /// Forgets an active slowdown.
    pub fn reset_slowdown(&mut self)
        ensures
            final(self).settings() == old(self).settings(),
            final(self).state() == (SyncState { slowdown_active: false, ..old(self).state() }),
    {
        self.state.slowdown_active = false;
    }

    pub fn is_slowdown_active(&self) -> (r: bool)
        ensures
            r == self.state().slowdown_active,
    {
        self.state.slowdown_active
    }
}

impl Default for SyncEngine {
    fn default() -> (r: Self)
        ensures
            r.wf(),
            r.settings() == default_settings(),
            r.state() == (SyncState { slowdown_active: false, behind_since: None }),
    {
        SyncEngine::new()
    }
}

/// What the player looks like to the engine: position, pause and whether it
/// runs slowed down.
pub struct PlayerView {
    pub position: int,
    pub paused: bool,
    pub slowed: bool,
}

/// The player after one action.
pub open spec fn apply_action(p: PlayerView, a: SyncAction) -> PlayerView {
    match a {
        SyncAction::NoAction => p,
        SyncAction::Seek(t) => PlayerView { position: t as int, ..p },
        SyncAction::SetPaused(b) => PlayerView { paused: b, ..p },
        SyncAction::Slowdown => PlayerView { slowed: true, ..p },
        SyncAction::ResetSpeed => PlayerView { slowed: false, ..p },
    }
}

/// The same inputs, at the same time, from the same engine state and
/// settings, give the same action list and the same next state; and
/// applying a `NoAction` action, once or twice, leaves the player as it was.
pub proof fn lemma_decision_deterministic(
    s1: SyncSettings,
    s2: SyncSettings,
    st1: SyncState,
    st2: SyncState,
    i: SyncInputs,
    now: int,
    p: PlayerView,
)
    requires
        s1 == s2,
        st1 == st2,
    ensures
        sync_actions(s1, st1, i, now) == sync_actions(s2, st2, i, now),
        sync_state_after(s1, st1, i, now) == sync_state_after(s2, st2, i, now),
        apply_action(p, SyncAction::NoAction) == p,
        apply_action(apply_action(p, SyncAction::NoAction), SyncAction::NoAction) == apply_action(
            p,
            SyncAction::NoAction,
        ),
{
}

} // verus!
