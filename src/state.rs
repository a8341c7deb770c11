//! The client's view of the server: who we are, where we are, and the
//! roster of users, each listed once under a unique name.
use vstd::prelude::*;
use crate::messages::{ControllerAuth, ReadyState, UserInfo, UserUpdate};
use crate::room::{is_same_file, is_same_file_spec, User};

verus! {

/// No name occurs twice in the roster.
pub open spec fn names_unique(users: Seq<User>) -> bool {
    forall|i: int, j: int|
        0 <= i < users.len() && 0 <= j < users.len() && i != j ==> #[trigger] users[i].username@
            != #[trigger] users[j].username@
}

/// Where `name` is listed, if anywhere.
pub open spec fn position_of(users: Seq<User>, name: Seq<char>) -> Option<int> {
    if exists|k: int| 0 <= k < users.len() && #[trigger] users[k].username@ == name {
        Some(choose|k: int| 0 <= k < users.len() && #[trigger] users[k].username@ == name)
    } else {
        None
    }
}

/// The roster after listing `u`: it replaces the entry of the same name, or
/// joins at the end.
pub open spec fn roster_with(users: Seq<User>, u: User) -> Seq<User> {
    match position_of(users, u.username@) {
        Some(k) => users.update(k, u),
        None => users.push(u),
    }
}

/// The roster without `name`.
pub open spec fn roster_without(users: Seq<User>, name: Seq<char>) -> Seq<User> {
    match position_of(users, name) {
        Some(k) => users.remove(k),
        None => users,
    }
}

/// A user after an update: absent fields keep their value; a new user starts
/// in `default_room`, not ready, not a controller, with no file.
pub open spec fn merged_user(old: Option<User>, name: String, default_room: String, up: UserUpdate) -> User {
    let base = match old {
        Some(o) => o,
        None => User {
            username: name,
            room: default_room,
            file: None,
            file_size: None,
            file_duration: None,
            is_ready: false,
            is_controller: false,
        },
    };
    let with_room = match up.room {
        Some(r) => User { room: r.name, ..base },
        None => base,
    };
    let with_file = match up.file {
        Some(f) => User { file: f.name, file_size: f.size, file_duration: f.duration, ..with_room },
        None => with_room,
    };
    let with_ready = match up.is_ready {
        Some(b) => User { is_ready: b, ..with_file },
        None => with_file,
    };
    match up.controller {
        Some(c) => User { is_controller: c, ..with_ready },
        None => with_ready,
    }
}

/// The user that a `List` entry describes.
pub open spec fn user_from_info(room: String, name: String, info: UserInfo) -> User {
    User {
        username: name,
        room: room,
        file: match info.file {
            Some(f) => f.name,
            None => None,
        },
        file_size: match info.file {
            Some(f) => f.size,
            None => None,
        },
        file_duration: match info.file {
            Some(f) => f.duration,
            None => None,
        },
        is_ready: info.is_ready == Some(true),
        is_controller: info.controller == Some(true),
    }
}

/// The roster after listing the entries of one room, in order.
pub open spec fn with_room_entries(users: Seq<User>, room: String, entries: Seq<(String, UserInfo)>) -> Seq<
    User,
>
    decreases entries.len(),
{
    if entries.len() == 0 {
        users
    } else {
        roster_with(
            with_room_entries(users, room, entries.drop_last()),
            user_from_info(room, entries.last().0, entries.last().1),
        )
    }
}

/// The roster after listing every room of a `List` answer, in order.
pub open spec fn with_rooms(users: Seq<User>, rooms: Seq<(String, Vec<(String, UserInfo)>)>) -> Seq<
    User,
>
    decreases rooms.len(),
{
    if rooms.len() == 0 {
        users
    } else {
        with_room_entries(with_rooms(users, rooms.drop_last()), rooms.last().0, rooms.last().1@)
    }
}

fn user_of_info(room: &String, name: &String, info: &UserInfo) -> (r: User)
    ensures
        r == user_from_info(*room, *name, *info),
{
    let (file, file_size, file_duration) = match &info.file {
        Some(f) => (
            match &f.name {
                Some(n) => Some(n.clone()),
                None => None,
            },
            f.size,
            f.duration,
        ),
        None => (None, None, None),
    };
    User {
        username: name.clone(),
        room: room.clone(),
        file,
        file_size,
        file_duration,
        is_ready: match info.is_ready {
            Some(b) => b,
            None => false,
        },
        is_controller: match info.controller {
            Some(b) => b,
            None => false,
        },
    }
}

/// The listed entry for `name`, if any.
pub open spec fn listed(users: Seq<User>, name: Seq<char>) -> Option<User> {
    match position_of(users, name) {
        Some(k) => Some(users[k]),
        None => None,
    }
}

/// The entry a controller verdict leaves for `name`: the listed one (or a
/// fresh one in `room`, else in `our_room`), moved to `room` when given,
/// with the controller flag set to `flag`.
pub open spec fn controller_user(
    old: Option<User>,
    name: String,
    room: Option<String>,
    our_room: String,
    flag: bool,
) -> User {
    let base = match old {
        Some(o) => o,
        None => User {
            username: name,
            room: match room {
                Some(r) => r,
                None => our_room,
            },
            file: None,
            file_size: None,
            file_duration: None,
            is_ready: false,
            is_controller: false,
        },
    };
    let moved = match room {
        Some(r) => User { room: r, ..base },
        None => base,
    };
    User { is_controller: flag, ..moved }
}

/// The flag a `Set.ready` leaves for its user: the one sent, else the old one.
pub open spec fn ready_flag(users: Seq<User>, ready: ReadyState) -> bool {
    match ready.is_ready {
        Some(b) => b,
        None => match listed(users, ready.username->0@) {
            Some(o) => o.is_ready,
            None => false,
        },
    }
}

/// The roster after a `Set.ready` naming a user.
pub open spec fn ready_roster(users: Seq<User>, room: String, ready: ReadyState) -> Seq<User> {
    let name = ready.username->0;
    let base = match listed(users, name@) {
        Some(o) => o,
        None => User {
            username: name,
            room: room,
            file: None,
            file_size: None,
            file_duration: None,
            is_ready: false,
            is_controller: false,
        },
    };
    roster_with(users, User { is_ready: ready_flag(users, ready), ..base })
}

/// Our own flag after a `Set.ready`: it follows only an explicit value for us.
pub open spec fn ready_self(users: Seq<User>, me: String, mine: bool, ready: ReadyState) -> bool {
    if ready.is_ready is Some && ready.username->0@ == me@ {
        ready_flag(users, ready)
    } else {
        mine
    }
}

/// What a `controllerAuth` answer means, the user and room defaulting to ours.
pub open spec fn auth_outcome_of(auth: ControllerAuth, me: Seq<char>, our_room: Seq<char>) -> AuthOutcome {
    let user = match auth.user {
        Some(u) => u@,
        None => me,
    };
    let room = match auth.room {
        Some(x) => x@,
        None => our_room,
    };
    match auth.success {
        None => AuthOutcome::NoVerdict,
        Some(true) => AuthOutcome::Granted { in_our_room: room == our_room, is_us: user == me },
        Some(false) => if user == me {
            AuthOutcome::RefusedUs
        } else {
            AuthOutcome::RefusedOther
        },
    }
}

/// What an update did to the roster.
#[derive(Debug, Clone, Copy, PartialEq, Eq, Structural)]
pub enum UserChange {
    /// The user left; `was_known` tells whether they were listed.
    Left { was_known: bool },
    /// The user was listed anew or updated.
    Updated { room_changed: bool, file_changed: bool },
}

/// Our own identity and the roster.
#[derive(Debug)]
pub struct ClientState {
    pub username: String,
    pub room: String,
    pub is_ready: bool,
    pub users: Vec<User>,
}

fn same_name(a: &String, b: &String) -> (r: bool)
    ensures
        r == (a@ == b@),
{
    *a == *b
}

impl ClientState {
    pub open spec fn users(&self) -> Seq<User> {
        self.users@
    }

    pub open spec fn wf(&self) -> bool {
        names_unique(self.users())
    }

    pub fn new(username: String, room: String) -> (r: Self)
        ensures
            r.wf(),
            r.username == username,
            r.room == room,
            !r.is_ready,
            r.users() == Seq::<User>::empty(),
    {
        ClientState { username, room, is_ready: false, users: Vec::new() }
    }

    fn find(&self, name: &String) -> (r: Option<usize>)
        requires
            self.wf(),
        ensures
            match r {
                Some(k) => position_of(self.users(), name@) == Some(k as int),
                None => position_of(self.users(), name@) is None,
            },
    {
        let mut i: usize = 0;
        while i < self.users.len()
            invariant
                i <= self.users@.len(),
                names_unique(self.users@),
                forall|k: int| 0 <= k < i ==> #[trigger] self.users@[k].username@ != name@,
            decreases self.users@.len() - i,
        {
            if same_name(&self.users[i].username, name) {
                proof {
                    let c = position_of(self.users@, name@)->0;
                    assert(self.users@[i as int].username@ == name@);
                    assert(c == i);
                }
                return Some(i);
            }
            i = i + 1;
        }
        None
    }

    /// A copy of the roster, in listing order.
    pub fn get_users(&self) -> (r: Vec<User>)
        ensures
            r@ == self.users(),
    {
        let mut out: Vec<User> = Vec::new();
        let mut i: usize = 0;
        while i < self.users.len()
            invariant
                i <= self.users@.len(),
                out@ == self.users@.subrange(0, i as int),
            decreases self.users@.len() - i,
        {
            out.push(self.users[i].clone());
            proof {
                assert(out@ =~= self.users@.subrange(0, i + 1));
            }
            i = i + 1;
        }
        proof {
            assert(out@ =~= self.users@);
        }
        out
    }

    /// The listed user named `name`.
    pub fn get_user(&self, name: &String) -> (r: Option<User>)
        requires
            self.wf(),
        ensures
            match position_of(self.users(), name@) {
                Some(k) => r == Some(self.users()[k]),
                None => r is None,
            },
    {
        match self.find(name) {
            Some(k) => Some(self.users[k].clone()),
            None => None,
        }
    }

    /// Lists `user`, replacing the entry of the same name.
    pub fn add_user(&mut self, user: User)
        requires
            old(self).wf(),
        ensures
            final(self).wf(),
            final(self).users() == roster_with(old(self).users(), user),
            final(self).username == old(self).username,
            final(self).room == old(self).room,
            final(self).is_ready == old(self).is_ready,
    {
        match self.find(&user.username) {
            Some(k) => {
                let ghost u = user;
                self.users.set(k, user);
                proof {
                    assert(self.users@ =~= old(self).users@.update(k as int, u));
                    assert forall|i: int, j: int|
                        0 <= i < self.users@.len() && 0 <= j < self.users@.len() && i != j
                            implies #[trigger] self.users@[i].username@
                        != #[trigger] self.users@[j].username@ by {
                        if i == k {
                            assert(old(self).users@[k as int].username@ == u.username@);
                        } else if j == k {
                            assert(old(self).users@[k as int].username@ == u.username@);
                        }
                    }
                }
            },
            None => {
                let ghost u = user;
                self.users.push(user);
                proof {
                    assert forall|i: int, j: int|
                        0 <= i < self.users@.len() && 0 <= j < self.users@.len() && i != j
                            implies #[trigger] self.users@[i].username@
                        != #[trigger] self.users@[j].username@ by {
                        let n = old(self).users@.len();
                        if i == n {
                            assert(old(self).users@[j].username@ != u.username@);
                        } else if j == n {
                            assert(old(self).users@[i].username@ != u.username@);
                        }
                    }
                }
            },
        }
    }

    /// Removes the user named `name`, if listed.
    pub fn remove_user(&mut self, name: &String)
        requires
            old(self).wf(),
        ensures
            final(self).wf(),
            final(self).users() == roster_without(old(self).users(), name@),
            final(self).username == old(self).username,
            final(self).room == old(self).room,
            final(self).is_ready == old(self).is_ready,
    {
        match self.find(name) {
            Some(k) => {
                self.users.remove(k);
                proof {
                    assert forall|i: int, j: int|
                        0 <= i < self.users@.len() && 0 <= j < self.users@.len() && i != j
                            implies #[trigger] self.users@[i].username@
                        != #[trigger] self.users@[j].username@ by {
                        let oi = if i < k {
                            i
                        } else {
                            i + 1
                        };
                        let oj = if j < k {
                            j
                        } else {
                            j + 1
                        };
                        assert(self.users@[i] == old(self).users@[oi]);
                        assert(self.users@[j] == old(self).users@[oj]);
                    }
                }
            },
            None => {},
        }
    }

    /// Empties the roster.
    pub fn clear_users(&mut self)
        ensures
            final(self).wf(),
            final(self).users() == Seq::<User>::empty(),
            final(self).username == old(self).username,
            final(self).room == old(self).room,
            final(self).is_ready == old(self).is_ready,
    {
        self.users.clear();
    }

    /// Applies a server `Set.user` entry for `username`. A `left` event
    /// removes the user; otherwise the user is merged (see [`merged_user`])
    /// and listed. Reports whether the room or the file changed; a file
    /// counts as changed only when the update carries one that differs.
    pub fn apply_user_update(&mut self, username: String, update: UserUpdate, show_duration: bool) -> (r:
        UserChange)
        requires
            old(self).wf(),
        ensures
            final(self).wf(),
            final(self).username == old(self).username,
            final(self).room == old(self).room,
            final(self).is_ready == old(self).is_ready,
            ({
                let old_pos = position_of(old(self).users(), username@);
                let old_user = match old_pos {
                    Some(k) => Some(old(self).users()[k]),
                    None => None,
                };
                let left = match update.event {
                    Some(e) => e.left == Some(true),
                    None => false,
                };
                if left {
                    &&& r == (UserChange::Left { was_known: old_pos is Some })
                    &&& final(self).users() == roster_without(old(self).users(), username@)
                } else {
                    let u = merged_user(old_user, username, old(self).room, update);
                    &&& final(self).users() == roster_with(old(self).users(), u)
                    &&& r == (UserChange::Updated {
                        room_changed: match old_user {
                            Some(o) => o.room@ != u.room@,
                            None => true,
                        },
                        file_changed: update.file is Some && !is_same_file_spec(
                            old_user,
                            u,
                            show_duration,
                        ),
                    })
                }
            }),
    {
        let left = match &update.event {
            Some(e) => match e.left {
                Some(b) => b,
                None => false,
            },
            None => false,
        };
        let old_user = self.get_user(&username);
        if left {
            let was_known = old_user.is_some();
            self.remove_user(&username);
            return UserChange::Left { was_known };
        }
        let mut user = match &old_user {
            Some(o) => o.clone(),
            None => User {
                username: username,
                room: self.room.clone(),
                file: None,
                file_size: None,
                file_duration: None,
                is_ready: false,
                is_controller: false,
            },
        };
        let has_file = update.file.is_some();
        match update.room {
            Some(r) => {
                user.room = r.name;
            },
            None => {},
        }
        match update.file {
            Some(f) => {
                user.file = f.name;
                user.file_size = f.size;
                user.file_duration = f.duration;
            },
            None => {},
        }
        match update.is_ready {
            Some(b) => {
                user.is_ready = b;
            },
            None => {},
        }
        match update.controller {
            Some(c) => {
                user.is_controller = c;
            },
            None => {},
        }
        let room_changed = match &old_user {
            Some(o) => o.room != user.room,
            None => true,
        };
        let file_changed = has_file && !is_same_file(old_user.as_ref(), &user, show_duration);
        self.add_user(user);
        UserChange::Updated { room_changed, file_changed }
    }

    /// Replaces the roster with the users of a `List` answer; a name listed
    /// twice keeps its last entry.
    pub fn rebuild_from_list(&mut self, rooms: &Vec<(String, Vec<(String, UserInfo)>)>)
        requires
            old(self).wf(),
        ensures
            final(self).wf(),
            final(self).users() == with_rooms(Seq::<User>::empty(), rooms@),
            final(self).username == old(self).username,
            final(self).room == old(self).room,
            final(self).is_ready == old(self).is_ready,
    {
        self.clear_users();
        let mut i: usize = 0;
        while i < rooms.len()
            invariant
                i <= rooms@.len(),
                self.wf(),
                self.username == old(self).username,
                self.room == old(self).room,
                self.is_ready == old(self).is_ready,
                self.users() == with_rooms(Seq::<User>::empty(), rooms@.subrange(0, i as int)),
            decreases rooms@.len() - i,
        {
            let room = &rooms[i].0;
            let entries = &rooms[i].1;
            let ghost before = self.users();
            let mut j: usize = 0;
            while j < entries.len()
                invariant
                    j <= entries@.len(),
                    self.wf(),
                    self.username == old(self).username,
                    self.room == old(self).room,
                    self.is_ready == old(self).is_ready,
                    self.users() == with_room_entries(before, *room, entries@.subrange(0, j as int)),
                decreases entries@.len() - j,
            {
                proof {
                    assert(entries@.subrange(0, j + 1).drop_last() =~= entries@.subrange(0, j as int));
                }
                let u = user_of_info(room, &entries[j].0, &entries[j].1);
                self.add_user(u);
                j = j + 1;
            }
            proof {
                assert(entries@.subrange(0, entries@.len() as int) =~= entries@);
                assert(rooms@.subrange(0, i + 1).drop_last() =~= rooms@.subrange(0, i as int));
            }
            i = i + 1;
        }
        proof {
            assert(rooms@.subrange(0, rooms@.len() as int) =~= rooms@);
        }
    }

    /// Applies a server `Set.ready`: the named user's flag becomes the one
    /// sent, or stays as it was when none was sent (a user not yet listed is
    /// listed, in our room, not ready). Our own flag follows only an explicit
    /// value. Returns whether the roster was touched (false without a name).
    pub fn apply_ready(&mut self, ready: &ReadyState) -> (r: bool)
        requires
            old(self).wf(),
        ensures
            final(self).wf(),
            final(self).username == old(self).username,
            final(self).room == old(self).room,
            r == ready.username is Some,
            ready.username is None ==> final(self).users() == old(self).users()
                && final(self).is_ready == old(self).is_ready,
            ready.username is Some ==> final(self).users() == ready_roster(old(self).users(), old(self).room, *ready)
                && final(self).is_ready == ready_self(old(self).users(), old(self).username, old(self).is_ready, *ready),
    {
        let name = match &ready.username {
            Some(n) => n,
            None => {
                return false;
            },
        };
        let old_user = self.get_user(name);
        let flag = match ready.is_ready {
            Some(b) => b,
            None => match &old_user {
                Some(o) => o.is_ready,
                None => false,
            },
        };
        let mut user = match old_user {
            Some(o) => o,
            None => User {
                username: name.clone(),
                room: self.room.clone(),
                file: None,
                file_size: None,
                file_duration: None,
                is_ready: false,
                is_controller: false,
            },
        };
        user.is_ready = flag;
        self.add_user(user);
        if ready.is_ready.is_some() && *name == self.username {
            self.is_ready = flag;
        }
        true
    }

    /// Sets whether `username` is a controller, moving them to `room` when
    /// given; a user not yet listed is listed. Returns whether the flag
    /// changed.
    pub fn set_user_controller_status(
        &mut self,
        username: &String,
        room: Option<String>,
        is_controller: bool,
    ) -> (r: bool)
        requires
            old(self).wf(),
        ensures
            final(self).wf(),
            final(self).username == old(self).username,
            final(self).room == old(self).room,
            ({
                let old_user = match position_of(old(self).users(), username@) {
                    Some(k) => Some(old(self).users()[k]),
                    None => None,
                };
                &&& r == match old_user {
                    Some(o) => o.is_controller != is_controller,
                    None => is_controller,
                }
                &&& final(self).users() == roster_with(
                    old(self).users(),
                    controller_user(old_user, *username, room, old(self).room, is_controller),
                )
                &&& final(self).is_ready == old(self).is_ready
            }),
    {
        let old_user = self.get_user(username);
        let mut user = match old_user {
            Some(o) => o,
            None => User {
                username: username.clone(),
                room: match &room {
                    Some(r) => r.clone(),
                    None => self.room.clone(),
                },
                file: None,
                file_size: None,
                file_duration: None,
                is_ready: false,
                is_controller: false,
            },
        };
        match room {
            Some(r) => {
                user.room = r;
            },
            None => {},
        }
        let changed = user.is_controller != is_controller;
        user.is_controller = is_controller;
        let ghost u = user;
        self.add_user(user);
        proof {
            let k = match position_of(old(self).users(), username@) {
                Some(k) => k,
                None => old(self).users().len() as int,
            };
            assert(self.users@[k].username@ == username@);
            let c = position_of(self.users@, username@)->0;
            assert(c == k);
        }
        changed
    }
}

/// What a `controllerAuth` answer means for us.
#[derive(Debug, Clone, Copy, PartialEq, Eq, Structural)]
pub enum AuthOutcome {
    /// No verdict in the message.
    NoVerdict,
    /// Someone became an operator: announce it when `in_our_room`; when
    /// `is_us`, keep the password that was tried.
    Granted { in_our_room: bool, is_us: bool },
    /// Our own attempt failed.
    RefusedUs,
    /// Someone else's attempt failed.
    RefusedOther,
}

/// Reads a `controllerAuth` answer; the user and room default to ours.
pub fn controller_auth_outcome(auth: &ControllerAuth, me: &String, our_room: &String) -> (r:
    AuthOutcome)
    ensures
        r == auth_outcome_of(*auth, me@, our_room@),
{
    let success = match auth.success {
        Some(s) => s,
        None => {
            return AuthOutcome::NoVerdict;
        },
    };
    let is_us = match &auth.user {
        Some(u) => *u == *me,
        None => true,
    };
    let in_our_room = match &auth.room {
        Some(x) => *x == *our_room,
        None => true,
    };
    if success {
        AuthOutcome::Granted { in_our_room, is_us }
    } else if is_us {
        AuthOutcome::RefusedUs
    } else {
        AuthOutcome::RefusedOther
    }
}

} // verus!
