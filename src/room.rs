//! Who is in the room, and what that means: file comparisons, room warnings,
//! the autoplay and instaplay gates, and on-screen-display filtering.
use vstd::prelude::*;
use crate::config::UnpauseAction;
use crate::text::{join_sep, join_with, strings_view, to_owned_text};

verus! {

/// The name shown in place of a file name that is kept private.
pub const PRIVACY_HIDDEN_FILENAME: &'static str = "PRIVACY_HIDDEN_FILENAME";

/// Durations closer than this count as the same (milliseconds, after
/// rounding each to whole seconds).
pub const DIFFERENT_DURATION_THRESHOLD: u64 = 2500;

/// One participant as the server last described them. `file_duration` is in
/// milliseconds.
#[derive(Debug)]
pub struct User {
    pub username: String,
    pub room: String,
    pub file: Option<String>,
    pub file_size: Option<u64>,
    pub file_duration: Option<u64>,
    pub is_ready: bool,
    pub is_controller: bool,
}

impl Clone for User {
    fn clone(&self) -> (r: Self)
        ensures
            r == *self,
    {
        User {
            username: self.username.clone(),
            room: self.room.clone(),
            file: match &self.file {
                Some(f) => Some(f.clone()),
                None => None,
            },
            file_size: self.file_size,
            file_duration: self.file_duration,
            is_ready: self.is_ready,
            is_controller: self.is_controller,
        }
    }
}

/// The file open in the local player, as the session knows it.
#[derive(Debug)]
pub struct LocalFile {
    pub name: Option<String>,
    pub size: Option<u64>,
    pub duration: Option<u64>,
}

pub open spec fn opt_view(o: Option<String>) -> Option<Seq<char>> {
    match o {
        Some(s) => Some(s@),
        None => None,
    }
}

/// Two file names match when both are known and equal, or when either is
/// hidden for privacy; two absent names match too.
pub open spec fn same_filename_spec(a: Option<Seq<char>>, b: Option<Seq<char>>) -> bool {
    match (a, b) {
        (Some(x), Some(y)) => x == y || x == PRIVACY_HIDDEN_FILENAME@ || y
            == PRIVACY_HIDDEN_FILENAME@,
        (None, None) => true,
        _ => false,
    }
}

/// Two sizes match unless both are known and differ (a size may be withheld).
pub open spec fn same_filesize_spec(a: Option<u64>, b: Option<u64>) -> bool {
    match (a, b) {
        (Some(x), Some(y)) => x == y,
        _ => true,
    }
}

/// A duration rounded to whole seconds, halves up.
pub open spec fn rounded_seconds(ms: u64) -> int {
    (ms as int + 500) / 1000
}

/// Durations match when the check is off, or when both are known and their
/// whole-second roundings differ by less than the threshold.
pub open spec fn same_duration_spec(a: Option<u64>, b: Option<u64>, allow: bool) -> bool {
    if !allow {
        true
    } else {
        match (a, b) {
            (Some(x), Some(y)) => {
                let d = rounded_seconds(x) - rounded_seconds(y);
                -(DIFFERENT_DURATION_THRESHOLD as int) < d * 1000 < DIFFERENT_DURATION_THRESHOLD
            },
            _ => false,
        }
    }
}

fn same_text(a: &String, b: &str) -> (r: bool)
    ensures
        r == (a@ == b@),
{
    *a == to_owned_text(b)
}

pub fn same_filename(a: &Option<String>, b: &Option<String>) -> (r: bool)
    ensures
        r == same_filename_spec(opt_view(*a), opt_view(*b)),
{
    match (a, b) {
        (Some(x), Some(y)) => *x == *y || same_text(x, PRIVACY_HIDDEN_FILENAME) || same_text(
            y,
            PRIVACY_HIDDEN_FILENAME,
        ),
        (None, None) => true,
        _ => false,
    }
}

pub fn same_filesize(a: Option<u64>, b: Option<u64>) -> (r: bool)
    ensures
        r == same_filesize_spec(a, b),
{
    match (a, b) {
        (Some(x), Some(y)) => x == y,
        _ => true,
    }
}

fn round_seconds(ms: u64) -> (r: u64)
    ensures
        r as int == rounded_seconds(ms),
{
    ms / 1000 + (if ms % 1000 >= 500 {
        1u64
    } else {
        0u64
    })
}

pub fn same_duration(a: Option<u64>, b: Option<u64>, allow: bool) -> (r: bool)
    ensures
        r == same_duration_spec(a, b, allow),
{
    if !allow {
        return true;
    }
    match (a, b) {
        (Some(x), Some(y)) => {
            let rx = round_seconds(x);
            let ry = round_seconds(y);
            let d = if rx >= ry {
                rx - ry
            } else {
                ry - rx
            };
            // Whole seconds: a gap under 2.5 s is a gap of at most 2 s.
            d <= 2
        },
        _ => false,
    }
}

/// The user's file matches the old record of them in name, size and
/// duration; false when there is no old record.
pub open spec fn is_same_file_spec(old_user: Option<User>, new_user: User, show_duration: bool) -> bool {
    match old_user {
        None => false,
        Some(o) => same_filename_spec(opt_view(o.file), opt_view(new_user.file))
            && same_filesize_spec(o.file_size, new_user.file_size) && same_duration_spec(
            o.file_duration,
            new_user.file_duration,
            show_duration,
        ),
    }
}

pub fn is_same_file(old_user: Option<&User>, new_user: &User, show_duration: bool) -> (r: bool)
    ensures
        r == is_same_file_spec(
            match old_user {
                Some(u) => Some(*u),
                None => None,
            },
            *new_user,
            show_duration,
        ),
{
    match old_user {
        None => false,
        Some(o) => same_filename(&o.file, &new_user.file) && same_filesize(
            o.file_size,
            new_user.file_size,
        ) && same_duration(o.file_duration, new_user.file_duration, show_duration),
    }
}

/// The labels of what differs between our file and another, in the order
/// name, size, duration.
pub open spec fn difference_labels(name: bool, size: bool, duration: bool) -> Seq<Seq<char>> {
    let a: Seq<Seq<char>> = if name {
        seq!["name"@]
    } else {
        seq![]
    };
    let b = if size {
        a.push("size"@)
    } else {
        a
    };
    if duration {
        b.push("duration"@)
    } else {
        b
    }
}

/// The labels joined with `, `, or nothing when there are none.
pub open spec fn labels_text(labels: Seq<Seq<char>>) -> Option<Seq<char>> {
    if labels.len() == 0 {
        None
    } else {
        Some(join_sep(labels, ", "@))
    }
}

fn labels_string(name: bool, size: bool, duration: bool) -> (r: Option<String>)
    ensures
        opt_view(r) == labels_text(difference_labels(name, size, duration)),
{
    let mut parts: Vec<String> = Vec::new();
    if name {
        parts.push(to_owned_text("name"));
    }
    if size {
        parts.push(to_owned_text("size"));
    }
    if duration {
        parts.push(to_owned_text("duration"));
    }
    proof {
        assert(strings_view(parts@) =~= difference_labels(name, size, duration));
    }
    if parts.len() == 0 {
        None
    } else {
        Some(join_with(&parts, ", "))
    }
}

/// How a user's file differs from ours, for a user in our room when both
/// files are known.
pub open spec fn file_differences_spec(
    room: Seq<char>,
    local: LocalFile,
    user: User,
    show_duration: bool,
) -> Option<Seq<char>> {
    if user.room@ != room || local.name is None || user.file is None {
        None
    } else {
        labels_text(
            difference_labels(
                !same_filename_spec(opt_view(local.name), opt_view(user.file)),
                !same_filesize_spec(local.size, user.file_size),
                !same_duration_spec(local.duration, user.file_duration, show_duration),
            ),
        )
    }
}

pub fn file_differences(room: &String, local: &LocalFile, user: &User, show_duration: bool) -> (r:
    Option<String>)
    ensures
        opt_view(r) == file_differences_spec(room@, *local, *user, show_duration),
{
    if user.room != *room || local.name.is_none() || user.file.is_none() {
        return None;
    }
    labels_string(
        !same_filename(&local.name, &user.file),
        !same_filesize(local.size, user.file_size),
        !same_duration(local.duration, user.file_duration, show_duration),
    )
}

pub open spec fn in_room(u: User, room: Seq<char>) -> bool {
    u.room@ == room
}

/// A user in `room` other than `me`.
pub open spec fn is_other_in_room(u: User, room: Seq<char>, me: Seq<char>) -> bool {
    u.room@ == room && u.username@ != me
}

/// Every other user in `room` is ready.
pub open spec fn all_others_ready_spec(users: Seq<User>, room: Seq<char>, me: Seq<char>) -> bool {
    forall|k: int| 0 <= k < users.len() && is_other_in_room(#[trigger] users[k], room, me) ==> users[k].is_ready
}

pub fn all_other_users_ready(users: &Vec<User>, room: &String, me: &String) -> (r: bool)
    ensures
        r == all_others_ready_spec(users@, room@, me@),
{
    let mut i: usize = 0;
    while i < users.len()
        invariant
            i <= users@.len(),
            forall|k: int| 0 <= k < i && is_other_in_room(#[trigger] users@[k], room@, me@) ==> users@[k].is_ready,
        decreases users@.len() - i,
    {
        if users[i].room == *room && users[i].username != *me && !users[i].is_ready {
            return false;
        }
        i = i + 1;
    }
    true
}

/// The number of users of `users` in `room`.
pub open spec fn count_in_room(users: Seq<User>, room: Seq<char>) -> nat
    decreases users.len(),
{
    if users.len() == 0 {
        0
    } else {
        count_in_room(users.drop_last(), room) + if in_room(users.last(), room) {
            1nat
        } else {
            0nat
        }
    }
}

/// Someone named `me` is in `room`.
pub open spec fn present_in_room(users: Seq<User>, room: Seq<char>, me: Seq<char>) -> bool {
    exists|k: int| 0 <= k < users.len() && in_room(#[trigger] users[k], room) && users[k].username@ == me
}

/// Users in `room`, counting `me` even when the list does not hold us yet.
pub open spec fn room_size(users: Seq<User>, room: Seq<char>, me: Seq<char>) -> nat {
    count_in_room(users, room) + if present_in_room(users, room, me) {
        0nat
    } else {
        1nat
    }
}

pub fn users_in_room_count(users: &Vec<User>, room: &String, me: &String) -> (r: usize)
    requires
        users@.len() < usize::MAX,
    ensures
        r == room_size(users@, room@, me@),
{
    let mut count: usize = 0;
    let mut present = false;
    let mut i: usize = 0;
    while i < users.len()
        invariant
            i <= users@.len(),
            count == count_in_room(users@.subrange(0, i as int), room@),
            count <= i,
            present == present_in_room(users@.subrange(0, i as int), room@, me@),
        decreases users@.len() - i,
    {
        proof {
            let next = users@.subrange(0, i + 1);
            assert(next.drop_last() =~= users@.subrange(0, i as int));
            if present_in_room(users@.subrange(0, i as int), room@, me@) {
                let k = choose|k: int|
                    0 <= k < i && in_room(#[trigger] users@.subrange(0, i as int)[k], room@)
                        && users@.subrange(0, i as int)[k].username@ == me@;
                assert(in_room(next[k], room@));
            }
            if present_in_room(next, room@, me@) && !(in_room(users@[i as int], room@)
                && users@[i as int].username@ == me@) {
                let k = choose|k: int|
                    0 <= k < i + 1 && in_room(#[trigger] next[k], room@) && next[k].username@
                        == me@;
                assert(in_room(users@.subrange(0, i as int)[k], room@));
            }
            if in_room(users@[i as int], room@) && users@[i as int].username@ == me@ {
                assert(in_room(next[i as int], room@));
            }
        }
        if users[i].room == *room {
            count = count + 1;
            if users[i].username == *me {
                present = true;
            }
        }
        i = i + 1;
    }
    proof {
        assert(users@.subrange(0, users@.len() as int) =~= users@);
    }
    if present {
        count
    } else {
        count + 1
    }
}

/// Whether unpausing ourselves is allowed under `action`.
pub open spec fn instaplay_spec(
    action: UnpauseAction,
    self_ready: bool,
    users: Seq<User>,
    room: Seq<char>,
    me: Seq<char>,
    min_users: i32,
) -> bool {
    match action {
        UnpauseAction::Always => true,
        UnpauseAction::IfAlreadyReady => self_ready,
        UnpauseAction::IfOthersReady => all_others_ready_spec(users, room, me),
        UnpauseAction::IfMinUsersReady => all_others_ready_spec(users, room, me) && (min_users
            <= 0 || room_size(users, room, me) >= min_users),
    }
}

pub fn instaplay_conditions_met(
    action: UnpauseAction,
    self_ready: bool,
    users: &Vec<User>,
    room: &String,
    me: &String,
    min_users: i32,
) -> (r: bool)
    requires
        users@.len() < usize::MAX,
    ensures
        r == instaplay_spec(action, self_ready, users@, room@, me@, min_users),
{
    match action {
        UnpauseAction::Always => true,
        UnpauseAction::IfAlreadyReady => self_ready,
        UnpauseAction::IfOthersReady => all_other_users_ready(users, room, me),
        UnpauseAction::IfMinUsersReady => {
            if !all_other_users_ready(users, room, me) {
                return false;
            }
            if min_users > 0 {
                let count = users_in_room_count(users, room, me);
                return count >= min_users as usize;
            }
            true
        },
    }
}

/// The autoplay gate: autoplay is on, the room has users, every user in it
/// is ready (and holds our file when that is required), the room is big
/// enough when a minimum of two or more is set, and the player is not known
/// to be playing.
pub open spec fn autoplay_spec(
    enabled: bool,
    require_same_filenames: bool,
    min_users: i32,
    users: Seq<User>,
    room: Seq<char>,
    local_file: Option<Seq<char>>,
    player_paused: Option<bool>,
) -> bool {
    &&& enabled
    &&& count_in_room(users, room) > 0
    &&& forall|k: int|
        0 <= k < users.len() && in_room(#[trigger] users[k], room) ==> users[k].is_ready && (
        !require_same_filenames || same_filename_spec(local_file, opt_view(users[k].file)))
    &&& !(min_users >= 2 && count_in_room(users, room) < min_users)
    &&& player_paused != Some(false)
}

fn count_users_in_room(users: &Vec<User>, room: &String) -> (r: usize)
    ensures
        r == count_in_room(users@, room@),
{
    let mut count: usize = 0;
    let mut i: usize = 0;
    while i < users.len()
        invariant
            i <= users@.len(),
            count <= i,
            count == count_in_room(users@.subrange(0, i as int), room@),
        decreases users@.len() - i,
    {
        proof {
            assert(users@.subrange(0, i + 1).drop_last() =~= users@.subrange(0, i as int));
        }
        if users[i].room == *room {
            count = count + 1;
        }
        i = i + 1;
    }
    proof {
        assert(users@.subrange(0, users@.len() as int) =~= users@);
    }
    count
}

pub fn autoplay_conditions_met(
    enabled: bool,
    require_same_filenames: bool,
    min_users: i32,
    users: &Vec<User>,
    room: &String,
    local_file: &Option<String>,
    player_paused: Option<bool>,
) -> (r: bool)
    ensures
        r == autoplay_spec(
            enabled,
            require_same_filenames,
            min_users,
            users@,
            room@,
            opt_view(*local_file),
            player_paused,
        ),
{
    if !enabled {
        return false;
    }
    let count = count_users_in_room(users, room);
    if count == 0 {
        return false;
    }
    let mut i: usize = 0;
    while i < users.len()
        invariant
            i <= users@.len(),
            forall|k: int|
                0 <= k < i && in_room(#[trigger] users@[k], room@) ==> users@[k].is_ready && (
                !require_same_filenames || same_filename_spec(
                    opt_view(*local_file),
                    opt_view(users@[k].file),
                )),
        decreases users@.len() - i,
    {
        if users[i].room == *room {
            if !users[i].is_ready {
                return false;
            }
            if require_same_filenames && !same_filename(local_file, &users[i].file) {
                return false;
            }
        }
        i = i + 1;
    }
    if min_users >= 2 && (count as u64) < (min_users as u64) {
        return false;
    }
    match player_paused {
        Some(p) => p,
        None => true,
    }
}

/// The room warnings: whether we are alone, how files differ, who is not
/// ready.
#[derive(Debug, Default)]
pub struct RoomWarningState {
    pub alone: bool,
    pub file_differences: Option<String>,
    pub not_ready: Option<String>,
}

/// Names of the users in `room` that are not ready, in list order.
pub open spec fn not_ready_names(users: Seq<User>, room: Seq<char>) -> Seq<Seq<char>>
    decreases users.len(),
{
    if users.len() == 0 {
        Seq::empty()
    } else {
        let rest = not_ready_names(users.drop_last(), room);
        if in_room(users.last(), room) && !users.last().is_ready {
            rest.push(users.last().username@)
        } else {
            rest
        }
    }
}

/// Some other user in `room` holds a file for which `differs` holds.
pub open spec fn some_other_differs(
    users: Seq<User>,
    room: Seq<char>,
    me: Seq<char>,
    differs: spec_fn(User) -> bool,
) -> bool {
    exists|k: int| 0 <= k < users.len() && is_other_in_room(#[trigger] users[k], room, me) && users[k].file is Some && differs(users[k])
}

pub open spec fn warning_alone(users: Seq<User>, room: Seq<char>, me: Seq<char>) -> bool {
    count_in_room(users, room) > 0 && !exists|k: int| 0 <= k < users.len() && is_other_in_room(#[trigger] users[k], room, me)
}

/// What differs between our file and those of the others in the room.
pub open spec fn warning_differences(
    users: Seq<User>,
    room: Seq<char>,
    me: Seq<char>,
    local: LocalFile,
    show_duration: bool,
) -> Option<Seq<char>> {
    if count_in_room(users, room) == 0 || local.name is None {
        None
    } else {
        labels_text(
            difference_labels(
                some_other_differs(
                    users,
                    room,
                    me,
                    |u: User| !same_filename_spec(opt_view(local.name), opt_view(u.file)),
                ),
                some_other_differs(users, room, me, |u: User| !same_filesize_spec(local.size, u.file_size)),
                some_other_differs(
                    users,
                    room,
                    me,
                    |u: User| !same_duration_spec(local.duration, u.file_duration, show_duration),
                ),
            ),
        )
    }
}

/// Who in the room is not ready, unless we are alone.
pub open spec fn warning_not_ready(users: Seq<User>, room: Seq<char>, me: Seq<char>) -> Option<
    Seq<char>,
> {
    if count_in_room(users, room) == 0 || warning_alone(users, room, me) || not_ready_names(
        users,
        room,
    ).len() == 0 {
        None
    } else {
        Some("Not ready: "@ + join_sep(not_ready_names(users, room), ", "@))
    }
}

fn not_ready_list(users: &Vec<User>, room: &String) -> (r: Vec<String>)
    ensures
        strings_view(r@) == not_ready_names(users@, room@),
{
    let mut out: Vec<String> = Vec::new();
    let mut i: usize = 0;
    while i < users.len()
        invariant
            i <= users@.len(),
            strings_view(out@) == not_ready_names(users@.subrange(0, i as int), room@),
        decreases users@.len() - i,
    {
        proof {
            assert(users@.subrange(0, i + 1).drop_last() =~= users@.subrange(0, i as int));
        }
        if users[i].room == *room && !users[i].is_ready {
            let name = users[i].username.clone();
            proof {
                assert(strings_view(out@.push(name)) =~= strings_view(out@).push(name@));
            }
            out.push(name);
        }
        i = i + 1;
    }
    proof {
        assert(users@.subrange(0, users@.len() as int) =~= users@);
    }
    out
}

/// Computes the three room warnings for `room`, seen by `me`.
pub fn compute_room_warning_state(
    users: &Vec<User>,
    room: &String,
    me: &String,
    local: &LocalFile,
    show_duration: bool,
) -> (r: RoomWarningState)
    ensures
        r.alone == warning_alone(users@, room@, me@),
        opt_view(r.file_differences) == warning_differences(
            users@,
            room@,
            me@,
            *local,
            show_duration,
        ),
        opt_view(r.not_ready) == warning_not_ready(users@, room@, me@),
{
    let count = count_users_in_room(users, room);
    if count == 0 {
        return RoomWarningState { alone: false, file_differences: None, not_ready: None };
    }
    let mut alone = true;
    let mut diff_name = false;
    let mut diff_size = false;
    let mut diff_duration = false;
    let ghost lname = opt_view(local.name);
    let ghost name_differs = |u: User| !same_filename_spec(lname, opt_view(u.file));
    let ghost size_differs = |u: User| !same_filesize_spec(local.size, u.file_size);
    let ghost duration_differs = |u: User|
        !same_duration_spec(local.duration, u.file_duration, show_duration);
    let mut i: usize = 0;
    while i < users.len()
        invariant
            i <= users@.len(),
            lname == opt_view(local.name),
            name_differs == (|u: User| !same_filename_spec(lname, opt_view(u.file))),
            size_differs == (|u: User| !same_filesize_spec(local.size, u.file_size)),
            duration_differs == (|u: User|
                !same_duration_spec(local.duration, u.file_duration, show_duration)),
            alone == !exists|k: int| 0 <= k < i && is_other_in_room(#[trigger] users@[k], room@, me@),
            diff_name == some_other_differs(users@.subrange(0, i as int), room@, me@, name_differs),
            diff_size == some_other_differs(users@.subrange(0, i as int), room@, me@, size_differs),
            diff_duration == some_other_differs(
                users@.subrange(0, i as int),
                room@,
                me@,
                duration_differs,
            ),
        decreases users@.len() - i,
    {
        let ghost prev = users@.subrange(0, i as int);
        let ghost next = users@.subrange(0, i + 1);
        proof {
            assert forall|k: int| 0 <= k < i implies #[trigger] next[k] == prev[k] by {}
            assert(next[i as int] == users@[i as int]);
        }
        let u = &users[i];
        if u.room == *room && u.username != *me {
            alone = false;
            match &u.file {
                Some(_) => {
                    if !same_filename(&local.name, &u.file) {
                        diff_name = true;
                    }
                    if !same_filesize(local.size, u.file_size) {
                        diff_size = true;
                    }
                    if !same_duration(local.duration, u.file_duration, show_duration) {
                        diff_duration = true;
                    }
                },
                None => {},
            }
        }
        proof {
            if some_other_differs(prev, room@, me@, name_differs) {
                let k = choose|k: int|
                    0 <= k < prev.len() && is_other_in_room(#[trigger] prev[k], room@, me@)
                        && prev[k].file is Some && name_differs(prev[k]);
                assert(next[k] == prev[k]);
            }
            if some_other_differs(prev, room@, me@, size_differs) {
                let k = choose|k: int|
                    0 <= k < prev.len() && is_other_in_room(#[trigger] prev[k], room@, me@)
                        && prev[k].file is Some && size_differs(prev[k]);
                assert(next[k] == prev[k]);
            }
            if some_other_differs(prev, room@, me@, duration_differs) {
                let k = choose|k: int|
                    0 <= k < prev.len() && is_other_in_room(#[trigger] prev[k], room@, me@)
                        && prev[k].file is Some && duration_differs(prev[k]);
                assert(next[k] == prev[k]);
            }
            if is_other_in_room(users@[i as int], room@, me@) && users@[i as int].file is Some {
                if name_differs(users@[i as int]) {
                    assert(is_other_in_room(next[i as int], room@, me@));
                }
                if size_differs(users@[i as int]) {
                    assert(is_other_in_room(next[i as int], room@, me@));
                }
                if duration_differs(users@[i as int]) {
                    assert(is_other_in_room(next[i as int], room@, me@));
                }
            }
            if some_other_differs(next, room@, me@, name_differs) && !(is_other_in_room(
                users@[i as int],
                room@,
                me@,
            ) && users@[i as int].file is Some && name_differs(users@[i as int])) {
                let k = choose|k: int|
                    0 <= k < next.len() && is_other_in_room(#[trigger] next[k], room@, me@)
                        && next[k].file is Some && name_differs(next[k]);
                assert(prev[k] == next[k]);
            }
            if some_other_differs(next, room@, me@, size_differs) && !(is_other_in_room(
                users@[i as int],
                room@,
                me@,
            ) && users@[i as int].file is Some && size_differs(users@[i as int])) {
                let k = choose|k: int|
                    0 <= k < next.len() && is_other_in_room(#[trigger] next[k], room@, me@)
                        && next[k].file is Some && size_differs(next[k]);
                assert(prev[k] == next[k]);
            }
            if some_other_differs(next, room@, me@, duration_differs) && !(is_other_in_room(
                users@[i as int],
                room@,
                me@,
            ) && users@[i as int].file is Some && duration_differs(users@[i as int])) {
                let k = choose|k: int|
                    0 <= k < next.len() && is_other_in_room(#[trigger] next[k], room@, me@)
                        && next[k].file is Some && duration_differs(next[k]);
                assert(prev[k] == next[k]);
            }
        }
        i = i + 1;
    }
    proof {
        assert(users@.subrange(0, users@.len() as int) =~= users@);
    }
    let file_differences = if local.name.is_none() {
        None
    } else {
        labels_string(diff_name, diff_size, diff_duration)
    };
    let not_ready = if alone {
        None
    } else {
        let names = not_ready_list(users, room);
        if names.len() == 0 {
            None
        } else {
            let mut text = to_owned_text("Not ready: ");
            let joined = join_with(&names, ", ");
            text.append(joined.as_str());
            Some(text)
        }
    };
    RoomWarningState { alone, file_differences, not_ready }
}

/// Whether a state change by `user` should reach the on-screen display.
pub open spec fn allow_osd_spec(
    show_same_room: bool,
    show_different_room: bool,
    show_non_controller: bool,
    room: Seq<char>,
    old_user: Option<User>,
    user: User,
) -> bool {
    let was_in_room = match old_user {
        Some(o) => o.room@ == room,
        None => false,
    };
    let allow = if was_in_room || user.room@ == room {
        show_same_room
    } else {
        show_different_room
    };
    if !show_non_controller && !user.is_controller {
        false
    } else {
        allow
    }
}

pub fn allow_osd_for_user(
    show_same_room: bool,
    show_different_room: bool,
    show_non_controller: bool,
    room: &String,
    old_user: Option<&User>,
    user: &User,
) -> (r: bool)
    ensures
        r == allow_osd_spec(
            show_same_room,
            show_different_room,
            show_non_controller,
            room@,
            match old_user {
                Some(u) => Some(*u),
                None => None,
            },
            *user,
        ),
{
    let was_in_room = match old_user {
        Some(o) => o.room == *room,
        None => false,
    };
    let allow = if was_in_room || user.room == *room {
        show_same_room
    } else {
        show_different_room
    };
    if !show_non_controller && !user.is_controller {
        return false;
    }
    allow
}

/// Whether the user named `me` is listed as a controller.
pub open spec fn is_listed_controller(users: Seq<User>, me: Seq<char>) -> bool {
    exists|k: int| 0 <= k < users.len() && #[trigger] users[k].username@ == me && users[k].is_controller
}

/// Fast-forwarding is allowed when we do not slow down for others, or when we
/// are not a controller (the first listed entry under our name decides).
pub fn should_allow_fastforward(dont_slow_down_with_me: bool, users: &Vec<User>, me: &String) -> (r:
    bool)
    ensures
        dont_slow_down_with_me ==> r,
        !dont_slow_down_with_me ==> r == !exists|k: int|
            0 <= k < users@.len() && #[trigger] users@[k].username@ == me@ && users@[k].is_controller
                && forall|j: int| 0 <= j < k ==> users@[j].username@ != me@,
{
    if dont_slow_down_with_me {
        return true;
    }
    let mut i: usize = 0;
    while i < users.len()
        invariant
            i <= users@.len(),
            !dont_slow_down_with_me,
            forall|j: int| 0 <= j < i ==> users@[j].username@ != me@,
        decreases users@.len() - i,
    {
        if users[i].username == *me {
            proof {
                assert forall|k: int|
                    0 <= k < users@.len() && #[trigger] users@[k].username@ == me@
                        && users@[k].is_controller && (forall|j: int|
                        0 <= j < k ==> users@[j].username@ != me@) implies k == i by {
                    if k > i {
                        assert(users@[i as int].username@ == me@);
                    }
                }
            }
            return !users[i].is_controller;
        }
        i = i + 1;
    }
    true
}

/// The on-screen text for the room warnings: being alone comes first;
/// otherwise file differences and readiness, separated by `; `.
pub open spec fn warning_osd_text(alone: bool, diff: Option<Seq<char>>, not_ready: Option<Seq<char>>) -> Option<
    Seq<char>,
> {
    if alone {
        Some("You're alone in the room"@)
    } else {
        match (diff, not_ready) {
            (Some(d), Some(n)) => Some("File differences: "@ + d + "; "@ + n),
            (Some(d), None) => Some("File differences: "@ + d),
            (None, Some(n)) => Some(n),
            (None, None) => None,
        }
    }
}

pub fn room_warning_osd_text(w: &RoomWarningState) -> (r: Option<String>)
    ensures
        opt_view(r) == warning_osd_text(w.alone, opt_view(w.file_differences), opt_view(w.not_ready)),
{
    if w.alone {
        return Some(to_owned_text("You're alone in the room"));
    }
    match (&w.file_differences, &w.not_ready) {
        (Some(d), Some(n)) => {
            let mut t = to_owned_text("File differences: ");
            t.append(d.as_str());
            t.append("; ");
            t.append(n.as_str());
            Some(t)
        },
        (Some(d), None) => {
            let mut t = to_owned_text("File differences: ");
            t.append(d.as_str());
            Some(t)
        },
        (None, Some(n)) => Some(n.clone()),
        (None, None) => None,
    }
}

/// Whether a chat line announces that we are now alone: only on the edge
/// from not alone to alone, and not on on-screen-only refreshes.
pub fn newly_alone(last: &RoomWarningState, now: &RoomWarningState, osd_only: bool) -> (r: bool)
    ensures
        r == (!osd_only && now.alone && !last.alone),
{
    !osd_only && now.alone && !last.alone
}

} // verus!
