//! Chat history and the slash-command parser.
use vstd::prelude::*;
use crate::clock::wall_clock_millis;
use crate::text::{
    join_spaced, join_from, split_words, strings_view, to_owned_text, append_text, words,
};

verus! {

/// What a chat line is.
#[derive(Debug, Clone, Copy, PartialEq, Eq, Structural)]
pub enum ChatMessageType {
    /// Regular user message
    User,
    /// System message
    System,
    /// Server message
    Server,
    /// Error message
    Error,
}

/// One chat line. `timestamp` is in milliseconds since the Unix epoch.
#[derive(Debug)]
pub struct ChatMessage {
    pub timestamp: i64,
    pub username: Option<String>,
    pub message: String,
    pub message_type: ChatMessageType,
}

impl Clone for ChatMessage {
    fn clone(&self) -> (r: Self)
        ensures
            r == *self,
    {
        let username = match &self.username {
            Some(u) => Some(u.clone()),
            None => None,
        };
        ChatMessage {
            timestamp: self.timestamp,
            username,
            message: self.message.clone(),
            message_type: self.message_type,
        }
    }
}

impl ChatMessage {
    pub fn user(username: String, message: String) -> (r: Self)
        ensures
            r.username == Some(username),
            r.message == message,
            r.message_type == ChatMessageType::User,
    {
        ChatMessage {
            timestamp: wall_clock_millis(),
            username: Some(username),
            message,
            message_type: ChatMessageType::User,
        }
    }

    pub fn system(message: String) -> (r: Self)
        ensures
            r.username is None,
            r.message == message,
            r.message_type == ChatMessageType::System,
    {
        ChatMessage {
            timestamp: wall_clock_millis(),
            username: None,
            message,
            message_type: ChatMessageType::System,
        }
    }

    pub fn server(message: String) -> (r: Self)
        ensures
            r.username is None,
            r.message == message,
            r.message_type == ChatMessageType::Server,
    {
        ChatMessage {
            timestamp: wall_clock_millis(),
            username: None,
            message,
            message_type: ChatMessageType::Server,
        }
    }

    pub fn error(message: String) -> (r: Self)
        ensures
            r.username is None,
            r.message == message,
            r.message_type == ChatMessageType::Error,
    {
        ChatMessage {
            timestamp: wall_clock_millis(),
            username: None,
            message,
            message_type: ChatMessageType::Error,
        }
    }
}

/// A slash command typed into the chat box.
#[derive(Debug, Clone, PartialEq)]
pub enum ChatCommand {
    /// Change room: /room <name>
    Room(String),
    /// List users: /list
    List,
    /// Show help: /help
    Help,
    /// Set ready: /ready
    Ready,
    /// Set not ready: /unready
    Unready,
    /// Unknown command, with the text to show
    Unknown(String),
}

/// The mathematical form of a [`ChatCommand`].
pub enum CommandView {
    Room(Seq<char>),
    List,
    Help,
    Ready,
    Unready,
    Unknown(Seq<char>),
}

impl View for ChatCommand {
    type V = CommandView;

    open spec fn view(&self) -> CommandView {
        match self {
            ChatCommand::Room(n) => CommandView::Room(n@),
            ChatCommand::List => CommandView::List,
            ChatCommand::Help => CommandView::Help,
            ChatCommand::Ready => CommandView::Ready,
            ChatCommand::Unready => CommandView::Unready,
            ChatCommand::Unknown(t) => CommandView::Unknown(t@),
        }
    }
}

/// What `str::to_lowercase` gives for `s`.
pub uninterp spec fn lower_of(s: Seq<char>) -> Seq<char>;

/// Relies on `str::to_lowercase`: the Unicode lower case of `s`, which depends
/// on the characters of `s` alone.
#[verifier::external_body]
fn lowercase(s: &str) -> (r: String)
    ensures
        r@ == lower_of(s@),
{
    s.to_lowercase()
}

/// The command that the lowered first word `cmd` and the remaining words
/// `args` of a chat line stand for.
pub open spec fn command_of(cmd: Seq<char>, args: Seq<Seq<char>>) -> CommandView {
    if cmd == "/room"@ || cmd == "/r"@ {
        if args.len() > 0 {
            CommandView::Room(join_spaced(args))
        } else {
            CommandView::Unknown("Usage: /room <name>"@)
        }
    } else if cmd == "/list"@ || cmd == "/l"@ {
        CommandView::List
    } else if cmd == "/help"@ || cmd == "/h"@ || cmd == "/?"@ {
        CommandView::Help
    } else if cmd == "/ready"@ {
        CommandView::Ready
    } else if cmd == "/unready"@ {
        CommandView::Unready
    } else {
        CommandView::Unknown("Unknown command: "@ + cmd)
    }
}

/// A chat line is a command when it starts with `/`.
pub open spec fn starts_with_slash(s: Seq<char>) -> bool {
    s.len() > 0 && s[0] == '/'
}

fn same_text(a: &String, b: &str) -> (r: bool)
    ensures
        r == (a@ == b@),
{
    *a == to_owned_text(b)
}

impl ChatCommand {
    /// The command for the lowered command word `cmd` and the words `parts`,
    /// whose first is the command word itself.
    pub fn from_parts(cmd: &String, parts: &Vec<String>) -> (r: Self)
        requires
            parts@.len() >= 1,
        ensures
            r@ == command_of(cmd@, strings_view(parts@).drop_first()),
    {
        proof {
            assert(strings_view(parts@).drop_first() =~= strings_view(parts@).subrange(
                1,
                parts@.len() as int,
            ));
        }
        if same_text(cmd, "/room") || same_text(cmd, "/r") {
            if parts.len() > 1 {
                ChatCommand::Room(join_from(parts, 1))
            } else {
                ChatCommand::Unknown(to_owned_text("Usage: /room <name>"))
            }
        } else if same_text(cmd, "/list") || same_text(cmd, "/l") {
            ChatCommand::List
        } else if same_text(cmd, "/help") || same_text(cmd, "/h") || same_text(cmd, "/?") {
            ChatCommand::Help
        } else if same_text(cmd, "/ready") {
            ChatCommand::Ready
        } else if same_text(cmd, "/unready") {
            ChatCommand::Unready
        } else {
            let mut text = to_owned_text("Unknown command: ");
            append_text(&mut text, cmd.as_str());
            ChatCommand::Unknown(text)
        }
    }

    /// Parses a chat line: `None` unless it starts with `/`; otherwise the
    /// command named by its first word, lowered, with the other words as
    /// arguments.
    pub fn parse(message: &str) -> (r: Option<Self>)
        ensures
            !starts_with_slash(message@) ==> r is None,
            starts_with_slash(message@) && words(message@).len() == 0 ==> r is None,
            starts_with_slash(message@) && words(message@).len() > 0 ==> r is Some && r->0@
                == command_of(lower_of(words(message@)[0]), words(message@).drop_first()),
    {
        let n = message.unicode_len();
        if n == 0 || message.get_char(0) != '/' {
            return None;
        }
        let parts = split_words(message);
        if parts.len() == 0 {
            return None;
        }
        let cmd = lowercase(parts[0].as_str());
        Some(ChatCommand::from_parts(&cmd, &parts))
    }

    /// The help text listing every command.
    pub fn help_text() -> (r: String)
        ensures
            r@ == help_text_spec(),
    {
        to_owned_text(
            "Available commands:\n/room <name> or /r <name> - Change to a different room\n/list or /l - List all users in the current room\n/ready - Mark yourself as ready\n/unready - Mark yourself as not ready\n/help or /h or /? - Show this help message",
        )
    }
}

pub open spec fn help_text_spec() -> Seq<char> {
    "Available commands:\n/room <name> or /r <name> - Change to a different room\n/list or /l - List all users in the current room\n/ready - Mark yourself as ready\n/unready - Mark yourself as not ready\n/help or /h or /? - Show this help message"@
}

/// The last `cap` entries of `s` (all of it when it is shorter).
pub open spec fn keep_last<T>(s: Seq<T>, cap: nat) -> Seq<T> {
    if s.len() > cap {
        s.subrange(s.len() - cap, s.len() as int)
    } else {
        s
    }
}

/// The history that `cap`-bounded insertion of `ms`, in order, into an
/// empty history leaves.
pub open spec fn ring_after<T>(ms: Seq<T>, cap: nat) -> Seq<T>
    decreases ms.len(),
{
    if ms.len() == 0 {
        Seq::empty()
    } else {
        keep_last(ring_after(ms.drop_last(), cap).push(ms.last()), cap)
    }
}

/// Bounded chat history: oldest entries leave first.
pub struct ChatManager {
    messages: Vec<ChatMessage>,
    max_messages: usize,
}

pub const DEFAULT_MAX_MESSAGES: usize = 1000;

impl ChatManager {
    pub closed spec fn messages(&self) -> Seq<ChatMessage> {
        self.messages@
    }

    pub closed spec fn capacity(&self) -> nat {
        self.max_messages as nat
    }

    pub closed spec fn wf(&self) -> bool {
        self.messages@.len() <= self.max_messages
    }

    pub fn new() -> (r: Self)
        ensures
            r.wf(),
            r.messages() == Seq::<ChatMessage>::empty(),
            r.capacity() == DEFAULT_MAX_MESSAGES,
    {
        ChatManager { messages: Vec::new(), max_messages: DEFAULT_MAX_MESSAGES }
    }

    pub fn with_max_messages(max_messages: usize) -> (r: Self)
        ensures
            r.wf(),
            r.messages() == Seq::<ChatMessage>::empty(),
            r.capacity() == max_messages,
    {
        ChatManager { messages: Vec::new(), max_messages }
    }

    /// Appends `message`; past the capacity the oldest entry leaves.
    pub fn add_message(&mut self, message: ChatMessage)
        requires
            old(self).wf(),
        ensures
            final(self).wf(),
            final(self).capacity() == old(self).capacity(),
            final(self).messages() == keep_last(old(self).messages().push(message), old(self).capacity()),
    {
        self.messages.push(message);
        if self.messages.len() > self.max_messages {
            self.messages.remove(0);
            proof {
                assert(self.messages@ =~= keep_last(
                    old(self).messages@.push(message),
                    self.max_messages as nat,
                ));
            }
        }
    }

    pub fn add_user_message(&mut self, username: String, message: String)
        requires
            old(self).wf(),
        ensures
            final(self).wf(),
            final(self).capacity() == old(self).capacity(),
            exists|m: ChatMessage|
                m.username == Some(username) && m.message == message && m.message_type
                    == ChatMessageType::User && final(self).messages() == keep_last(
                    #[trigger] old(self).messages().push(m),
                    old(self).capacity(),
                ),
    {
        let m = ChatMessage::user(username, message);
        let ghost g = m;
        self.add_message(m);
        assert(final(self).messages() == keep_last(old(self).messages().push(g), old(self).capacity()));
    }

    pub fn add_system_message(&mut self, message: String)
        requires
            old(self).wf(),
        ensures
            final(self).wf(),
            final(self).capacity() == old(self).capacity(),
            exists|m: ChatMessage|
                m.username is None && m.message == message && m.message_type
                    == ChatMessageType::System && final(self).messages() == keep_last(
                    #[trigger] old(self).messages().push(m),
                    old(self).capacity(),
                ),
    {
        let m = ChatMessage::system(message);
        let ghost g = m;
        self.add_message(m);
        assert(final(self).messages() == keep_last(old(self).messages().push(g), old(self).capacity()));
    }

    pub fn add_server_message(&mut self, message: String)
        requires
            old(self).wf(),
        ensures
            final(self).wf(),
            final(self).capacity() == old(self).capacity(),
            exists|m: ChatMessage|
                m.username is None && m.message == message && m.message_type
                    == ChatMessageType::Server && final(self).messages() == keep_last(
                    #[trigger] old(self).messages().push(m),
                    old(self).capacity(),
                ),
    {
        let m = ChatMessage::server(message);
        let ghost g = m;
        self.add_message(m);
        assert(final(self).messages() == keep_last(old(self).messages().push(g), old(self).capacity()));
    }

    pub fn add_error_message(&mut self, message: String)
        requires
            old(self).wf(),
        ensures
            final(self).wf(),
            final(self).capacity() == old(self).capacity(),
            exists|m: ChatMessage|
                m.username is None && m.message == message && m.message_type
                    == ChatMessageType::Error && final(self).messages() == keep_last(
                    #[trigger] old(self).messages().push(m),
                    old(self).capacity(),
                ),
    {
        let m = ChatMessage::error(message);
        let ghost g = m;
        self.add_message(m);
        assert(final(self).messages() == keep_last(old(self).messages().push(g), old(self).capacity()));
    }

    /// A copy of the whole history, oldest first.
    pub fn get_messages(&self) -> (r: Vec<ChatMessage>)
        ensures
            r@ == self.messages(),
    {
        self.get_recent_messages(self.messages.len())
    }

    /// A copy of the last `count` entries (all of them when there are fewer).
    pub fn get_recent_messages(&self, count: usize) -> (r: Vec<ChatMessage>)
        ensures
            r@ == keep_last(self.messages(), count as nat),
    {
        let n = self.messages.len();
        let start = if n > count {
            n - count
        } else {
            0
        };
        let mut out: Vec<ChatMessage> = Vec::new();
        let mut i: usize = start;
        while i < n
            invariant
                n == self.messages@.len(),
                start <= i <= n,
                out@ == self.messages@.subrange(start as int, i as int),
            decreases n - i,
        {
            out.push(self.messages[i].clone());
            proof {
                assert(out@ =~= self.messages@.subrange(start as int, i + 1));
            }
            i = i + 1;
        }
        proof {
            assert(out@ =~= keep_last(self.messages@, count as nat));
        }
        out
    }

    pub fn clear(&mut self)
        ensures
            final(self).wf(),
            final(self).capacity() == old(self).capacity(),
            final(self).messages() == Seq::<ChatMessage>::empty(),
    {
        self.messages.clear();
    }

    pub fn len(&self) -> (r: usize)
        ensures
            r == self.messages().len(),
    {
        self.messages.len()
    }

    pub fn is_empty(&self) -> (r: bool)
        ensures
            r == (self.messages().len() == 0),
    {
        self.messages.len() == 0
    }
}

impl Default for ChatManager {
    fn default() -> (r: Self)
        ensures
            r.wf(),
            r.messages() == Seq::<ChatMessage>::empty(),
            r.capacity() == DEFAULT_MAX_MESSAGES,
    {
        ChatManager::new()
    }
}

/// After `ms.len()` insertions into an empty history of capacity `cap`, the
/// history holds `min(ms.len(), cap)` entries: the last ones inserted, in
/// insertion order.
pub proof fn lemma_ring_keeps_last<T>(ms: Seq<T>, cap: nat)
    ensures
        ring_after(ms, cap).len() == if ms.len() < cap { ms.len() } else { cap },
        ring_after(ms, cap) == ms.subrange(ms.len() - ring_after(ms, cap).len(), ms.len() as int),
    decreases ms.len(),
{
    if ms.len() == 0 {
        assert(ms.subrange(0, 0) =~= Seq::<T>::empty());
    } else {
        let prev = ms.drop_last();
        lemma_ring_keeps_last(prev, cap);
        let r = ring_after(prev, cap);
        let k = r.len();
        assert(r.push(ms.last()) =~= ms.subrange(ms.len() - 1 - k, ms.len() as int));
        if k + 1 > cap {
            assert(ms.subrange(ms.len() - 1 - k, ms.len() as int).subrange(k + 1 - cap, (k + 1) as int)
                =~= ms.subrange(ms.len() - cap, ms.len() as int));
        }
    }
}

} // verus!
