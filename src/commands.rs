//! What user commands and player events ask of the session: playlist
//! actions, chat input, and the end of a file.
use vstd::prelude::*;
use crate::chat::{command_of, lower_of, starts_with_slash, ChatCommand, CommandView};
use crate::playlist::{current_after_removal, fresh_item, Playlist};
use crate::room::User;
use crate::text::{append_text, to_owned_text, words};

verus! {

pub open spec fn is_digit(c: char) -> bool {
    '0' <= c && c <= '9'
}

/// The number that the decimal digits `s` write.
pub open spec fn digits_value(s: Seq<char>) -> int
    decreases s.len(),
{
    if s.len() == 0 {
        0
    } else {
        digits_value(s.drop_last()) * 10 + (s.last() as int - '0' as int)
    }
}

/// `s` without one leading `+`.
pub open spec fn without_plus(s: Seq<char>) -> Seq<char> {
    if s.len() > 0 && s[0] == '+' {
        s.drop_first()
    } else {
        s
    }
}

/// An index as `usize::from_str` reads it: an optional `+`, then one or
/// more decimal digits, with a value that fits.
pub open spec fn index_of_text(s: Seq<char>) -> Option<int> {
    let t = without_plus(s);
    if t.len() > 0 && (forall|k: int| 0 <= k < t.len() ==> is_digit(#[trigger] t[k]))
        && digits_value(t) <= usize::MAX {
        Some(digits_value(t))
    } else {
        None
    }
}

pub fn parse_index(s: &str) -> (r: Option<usize>)
    ensures
        match r {
            Some(v) => index_of_text(s@) == Some(v as int),
            None => index_of_text(s@) is None,
        },
{
    let n = s.unicode_len();
    let start: usize = if n > 0 && s.get_char(0) == '+' {
        1
    } else {
        0
    };
    let ghost t = without_plus(s@);
    proof {
        assert(t =~= s@.subrange(start as int, n as int));
    }
    if start == n {
        return None;
    }
    let mut value: usize = 0;
    let mut i: usize = start;
    while i < n
        invariant
            n == s@.len(),
            start <= i <= n,
            t == s@.subrange(start as int, n as int),
            t == without_plus(s@),
            forall|k: int| start <= k < i ==> is_digit(#[trigger] s@[k]),
            value as int == digits_value(s@.subrange(start as int, i as int)),
        decreases n - i,
    {
        let c = s.get_char(i);
        proof {
            assert(s@.subrange(start as int, i + 1).drop_last() =~= s@.subrange(start as int, i as int));
        }
        if !('0' <= c && c <= '9') {
            proof {
                assert(t[i - start] == s@[i as int]);
                assert(!is_digit(t[i - start]));
            }
            return None;
        }
        let d = (c as u32 - '0' as u32) as usize;
        if value > (usize::MAX - d) / 10 {
            proof {
                assert(digits_value(s@.subrange(start as int, i + 1)) == value * 10 + d);
                assert(value * 10 + d > usize::MAX) by (nonlinear_arith)
                    requires
                        value > (usize::MAX - d) / 10,
                        d <= 9,
                ;
                lemma_digits_value_grows(t, (i + 1 - start) as int);
                assert(t.subrange(0, (i + 1 - start) as int) =~= s@.subrange(start as int, i + 1));
            }
            return None;
        }
        proof {
            assert(value * 10 + d <= usize::MAX) by (nonlinear_arith)
                requires
                    value <= (usize::MAX - d) / 10,
                    d <= 9,
            ;
        }
        value = value * 10 + d;
        i = i + 1;
    }
    proof {
        assert(s@.subrange(start as int, n as int) =~= t);
        assert forall|k: int| 0 <= k < t.len() implies is_digit(#[trigger] t[k]) by {
            assert(t[k] == s@[start + k]);
        }
    }
    Some(value)
}

proof fn lemma_digits_nonneg(t: Seq<char>)
    requires
        forall|k: int| 0 <= k < t.len() ==> is_digit(#[trigger] t[k]),
    ensures
        digits_value(t) >= 0,
    decreases t.len(),
{
    if t.len() > 0 {
        assert forall|k: int| 0 <= k < t.drop_last().len() implies is_digit(#[trigger] t.drop_last()[k]) by {
            assert(t.drop_last()[k] == t[k]);
        }
        lemma_digits_nonneg(t.drop_last());
    }
}

/// A longer run of digits never writes a smaller number.
proof fn lemma_digits_value_grows(t: Seq<char>, m: int)
    requires
        0 <= m <= t.len(),
    ensures
        (forall|k: int| 0 <= k < t.len() ==> is_digit(#[trigger] t[k])) ==> digits_value(t)
            >= digits_value(t.subrange(0, m)),
    decreases t.len() - m,
{
    if forall|k: int| 0 <= k < t.len() ==> is_digit(#[trigger] t[k]) {
        if m < t.len() {
            lemma_digits_value_grows(t, m + 1);
            let p = t.subrange(0, m + 1);
            assert(p.drop_last() =~= t.subrange(0, m));
            assert forall|k: int| 0 <= k < p.drop_last().len() implies is_digit(
                #[trigger] p.drop_last()[k],
            ) by {
                assert(p.drop_last()[k] == t[k]);
            }
            lemma_digits_nonneg(p.drop_last());
            assert(is_digit(t[m]));
        } else {
            assert(t.subrange(0, m) =~= t);
        }
    }
}

/// The index after `next`: one on, wrapping to the first.
pub open spec fn next_index(cur: nat, len: nat) -> nat {
    if cur + 1 < len {
        cur + 1
    } else {
        0
    }
}

/// The index after `previous`: one back, wrapping to the last.
pub open spec fn previous_index(cur: nat, len: nat) -> nat {
    if cur == 0 {
        (len - 1) as nat
    } else {
        (cur - 1) as nat
    }
}

/// The index after adding an item: the first item becomes current.
pub open spec fn current_after_add(old_len: nat, cur: Option<nat>) -> Option<nat> {
    if old_len == 0 {
        Some(0nat)
    } else {
        cur
    }
}

/// The index after a `remove` of index `i`: unchanged when there is no such
/// item.
pub open spec fn current_after_remove_text(cur: Option<nat>, i: int, old_len: nat, new_len: nat) -> Option<nat> {
    if i < old_len {
        current_after_removal(cur, i as nat, new_len)
    } else {
        cur
    }
}

/// The texts of the playlist action errors.
pub open spec fn playlist_action_error(action: Seq<char>, arg: Option<Seq<char>>) -> Option<Seq<char>> {
    if action == "add"@ {
        if arg is None {
            Some("Filename required for add action"@)
        } else {
            None
        }
    } else if action == "remove"@ {
        match arg {
            None => Some("Index required for remove action"@),
            Some(a) => if index_of_text(a) is None {
                Some("Invalid index for remove action"@)
            } else {
                None
            },
        }
    } else if action == "next"@ || action == "previous"@ || action == "clear"@ {
        None
    } else {
        Some("Unknown playlist action: "@ + action)
    }
}

fn same_text(a: &str, b: &str) -> (r: bool)
    ensures
        r == (a@ == b@),
{
    to_owned_text(a) == to_owned_text(b)
}

/// Runs a playlist action from the user (`add` with a file name, `remove`
/// with an index, `next`, `previous`, `clear`). On success, tells whether
/// the new item list is to be announced (after `add`, `remove` and
/// `clear`); the playlist changes as the named operation says.
pub fn apply_playlist_action(playlist: &mut Playlist, action: &str, arg: Option<String>) -> (r:
    Result<bool, String>)
    requires
        old(playlist).wf(),
    ensures
        final(playlist).wf(),
        ({
            let argv = match arg {
                Some(a) => Some(a@),
                None => None,
            };
            match playlist_action_error(action@, argv) {
                Some(e) => r is Err && r->Err_0@ == e && final(playlist).items() == old(
                    playlist,
                ).items() && final(playlist).current() == old(playlist).current(),
                None => r is Ok && r->Ok_0 == (action@ == "add"@ || action@ == "remove"@
                    || action@ == "clear"@),
            }
        }),
        action@ == "add"@ && arg is Some ==> final(playlist).items() == old(playlist).items().push(
            fresh_item(arg->0),
        ),
        action@ == "remove"@ && arg is Some && index_of_text(arg->0@) is Some
            && index_of_text(arg->0@)->0 < old(playlist).items().len() ==> final(playlist).items()
            == old(playlist).items().remove(index_of_text(arg->0@)->0),
        action@ == "add"@ && arg is Some ==> final(playlist).current() == current_after_add(
            old(playlist).items().len(),
            old(playlist).current(),
        ),
        action@ == "remove"@ && arg is Some && index_of_text(arg->0@) is Some
            ==> final(playlist).current() == current_after_remove_text(
            old(playlist).current(),
            index_of_text(arg->0@)->0,
            old(playlist).items().len(),
            final(playlist).items().len(),
        ),
        action@ == "remove"@ && arg is Some && index_of_text(arg->0@) is Some
            && index_of_text(arg->0@)->0 >= old(playlist).items().len() ==> final(playlist).items()
            == old(playlist).items(),
        action@ == "clear"@ ==> final(playlist).items().len() == 0 && final(playlist).current()
            is None,
        action@ == "next"@ || action@ == "previous"@ ==> final(playlist).items() == old(
            playlist,
        ).items(),
        (action@ == "next"@ || action@ == "previous"@) && old(playlist).items().len() == 0
            ==> final(playlist).current() is None,
        action@ == "next"@ && old(playlist).items().len() > 0 ==> final(playlist).current()
            == Some(next_index(old(playlist).current()->0, old(playlist).items().len())),
        action@ == "previous"@ && old(playlist).items().len() > 0 ==> final(playlist).current()
            == Some(previous_index(old(playlist).current()->0, old(playlist).items().len())),
{
    proof {
        reveal_strlit("add");
        reveal_strlit("remove");
        reveal_strlit("next");
        reveal_strlit("previous");
        reveal_strlit("clear");
        assert("add"@ != "remove"@) by {
            assert("add"@.len() != "remove"@.len());
        }
        assert("add"@ != "next"@) by {
            assert("add"@.len() != "next"@.len());
        }
        assert("add"@ != "previous"@) by {
            assert("add"@.len() != "previous"@.len());
        }
        assert("add"@ != "clear"@) by {
            assert("add"@.len() != "clear"@.len());
        }
        assert("remove"@ != "next"@) by {
            assert("remove"@.len() != "next"@.len());
        }
        assert("remove"@ != "previous"@) by {
            assert("remove"@.len() != "previous"@.len());
        }
        assert("remove"@ != "clear"@) by {
            assert("remove"@.len() != "clear"@.len());
        }
        assert("next"@ != "previous"@) by {
            assert("next"@.len() != "previous"@.len());
        }
        assert("next"@ != "clear"@) by {
            assert("next"@.len() != "clear"@.len());
        }
        assert("previous"@ != "clear"@) by {
            assert("previous"@.len() != "clear"@.len());
        }
    }
    if same_text(action, "add") {
        match arg {
            Some(f) => {
                playlist.add_item(f);
                Ok(true)
            },
            None => Err(to_owned_text("Filename required for add action")),
        }
    } else if same_text(action, "remove") {
        match arg {
            Some(a) => match parse_index(a.as_str()) {
                Some(i) => {
                    playlist.remove_item(i);
                    Ok(true)
                },
                None => Err(to_owned_text("Invalid index for remove action")),
            },
            None => Err(to_owned_text("Index required for remove action")),
        }
    } else if same_text(action, "next") {
        playlist.next();
        Ok(false)
    } else if same_text(action, "previous") {
        playlist.previous();
        Ok(false)
    } else if same_text(action, "clear") {
        playlist.clear();
        Ok(true)
    } else {
        let mut e = to_owned_text("Unknown playlist action: ");
        append_text(&mut e, action);
        Err(e)
    }
}

/// What to do when the player reaches the end of a file.
#[derive(Debug, Clone, PartialEq)]
pub enum EndOfFileAction {
    /// Nothing: shared playlists are off, or the playlist ends here and
    /// nothing loops.
    Nothing,
    /// Announce `index` as current and load `filename`.
    PlayNext { index: usize, filename: String },
    /// Load `filename` again.
    Replay(String),
}

/// Decides what follows the end of a file: with shared playlists on, the
/// next playlist item (wrapping only when `loop_at_end`); failing that, with
/// `loop_single_files`, the current item again, or else `current_file`.
pub fn end_of_file_action(
    playlist: &mut Playlist,
    shared_playlist_enabled: bool,
    loop_at_end: bool,
    loop_single_files: bool,
    current_file: &Option<String>,
) -> (r: EndOfFileAction)
    requires
        old(playlist).wf(),
    ensures
        final(playlist).wf(),
        final(playlist).items() == old(playlist).items(),
        !shared_playlist_enabled ==> r == EndOfFileAction::Nothing && final(playlist).current()
            == old(playlist).current(),
        r is PlayNext ==> final(playlist).current() == Some(r->index as nat)
            && r->filename == final(playlist).items()[r->index as int].filename
            && old(playlist).items().len() > 0 && r->index == next_index(
            old(playlist).current()->0,
            old(playlist).items().len(),
        ),
        r is Replay ==> loop_single_files && shared_playlist_enabled,
        shared_playlist_enabled && old(playlist).items().len() > 0 && (loop_at_end
            || old(playlist).current()->0 + 1 < old(playlist).items().len()) ==> r is PlayNext,
{
    if !shared_playlist_enabled {
        return EndOfFileAction::Nothing;
    }
    match playlist.next_with_loop(loop_at_end) {
        Some(item) => {
            let index = match playlist.get_current_index() {
                Some(i) => i,
                None => 0,
            };
            EndOfFileAction::PlayNext { index, filename: item.filename }
        },
        None => {
            if loop_single_files {
                match playlist.get_current_item() {
                    Some(item) => EndOfFileAction::Replay(item.filename),
                    None => match current_file {
                        Some(f) => EndOfFileAction::Replay(f.clone()),
                        None => EndOfFileAction::Nothing,
                    },
                }
            } else {
                EndOfFileAction::Nothing
            }
        },
    }
}

/// What chat input asks of the session.
#[derive(Debug, Clone, PartialEq)]
pub enum ChatInput {
    /// Send the text as a chat message.
    Say(String),
    /// Move to a room.
    ChangeRoom(String),
    /// Announce our readiness (as manually initiated).
    SetReady(bool),
    /// Show a system line locally.
    Show(String),
    /// Show an error line locally and report it.
    Fail(String),
}

/// `name (room)` for each user, joined with `, `, after `Users: `.
pub open spec fn user_list_text(users: Seq<User>) -> Seq<char>
    decreases users.len(),
{
    if users.len() == 0 {
        "Users: "@
    } else if users.len() == 1 {
        "Users: "@ + users[0].username@ + " ("@ + users[0].room@ + ")"@
    } else {
        user_list_text(users.drop_last()) + ", "@ + users.last().username@ + " ("@
            + users.last().room@ + ")"@
    }
}

fn user_list_string(users: &Vec<User>) -> (r: String)
    ensures
        r@ == user_list_text(users@),
{
    let mut out = to_owned_text("Users: ");
    let mut i: usize = 0;
    while i < users.len()
        invariant
            i <= users@.len(),
            out@ == user_list_text(users@.subrange(0, i as int)),
        decreases users@.len() - i,
    {
        proof {
            assert(users@.subrange(0, i + 1).drop_last() =~= users@.subrange(0, i as int));
        }
        if i > 0 {
            out.append(", ");
        }
        out.append(users[i].username.as_str());
        out.append(" (");
        out.append(users[i].room.as_str());
        out.append(")");
        proof {
            if i == 0 {
                assert(out@ =~= user_list_text(users@.subrange(0, 1)));
            } else {
                assert(out@ =~= user_list_text(users@.subrange(0, i + 1)));
            }
        }
        i = i + 1;
    }
    proof {
        assert(users@.subrange(0, users@.len() as int) =~= users@);
    }
    out
}

/// What a parsed command asks of the session.
pub open spec fn command_input(c: CommandView, users: Seq<User>) -> (Seq<char>, int) {
    match c {
        CommandView::Room(n) => (n, 1),
        CommandView::Ready => (seq![], 2),
        CommandView::Unready => (seq![], 3),
        CommandView::List => (user_list_text(users), 4),
        CommandView::Help => (crate::chat::help_text_spec(), 4),
        CommandView::Unknown(t) => (t, 5),
    }
}

/// The kind and text of a planned input, for contracts.
pub open spec fn input_view(i: ChatInput) -> (Seq<char>, int) {
    match i {
        ChatInput::Say(t) => (t@, 0),
        ChatInput::ChangeRoom(n) => (n@, 1),
        ChatInput::SetReady(b) => (seq![], if b {
            2int
        } else {
            3int
        }),
        ChatInput::Show(t) => (t@, 4),
        ChatInput::Fail(t) => (t@, 5),
    }
}

/// Plans a line typed into the chat box: text that is no command is said;
/// a command does what it names.
pub fn plan_chat_input(message: &str, users: &Vec<User>) -> (r: ChatInput)
    ensures
        !starts_with_slash(message@) || words(message@).len() == 0 ==> input_view(r) == (
            message@,
            0int,
        ),
        starts_with_slash(message@) && words(message@).len() > 0 ==> input_view(r)
            == command_input(
            command_of(lower_of(words(message@)[0]), words(message@).drop_first()),
            users@,
        ),
{
    match ChatCommand::parse(message) {
        None => ChatInput::Say(to_owned_text(message)),
        Some(ChatCommand::Room(n)) => ChatInput::ChangeRoom(n),
        Some(ChatCommand::Ready) => ChatInput::SetReady(true),
        Some(ChatCommand::Unready) => ChatInput::SetReady(false),
        Some(ChatCommand::List) => ChatInput::Show(user_list_string(users)),
        Some(ChatCommand::Help) => ChatInput::Show(ChatCommand::help_text()),
        Some(ChatCommand::Unknown(t)) => ChatInput::Fail(t),
    }
}

} // verus!
