//! The payloads published to the user interface.
use vstd::prelude::*;
use crate::chat::{ChatMessage, ChatMessageType};
use crate::playlist::Playlist;
use crate::room::User;
use crate::text::to_owned_text;

verus! {

#[derive(Debug, Clone)]
pub struct ConnectionStatusEvent {
    pub connected: bool,
    pub server: Option<String>,
}

/// One row of the user list.
#[derive(Debug, Clone)]
pub struct UserInfo {
    pub username: String,
    pub room: String,
    pub file: Option<String>,
    pub is_ready: bool,
    pub is_controller: bool,
}

#[derive(Debug, Clone)]
pub struct UserListEvent {
    pub users: Vec<UserInfo>,
}

/// A chat line; `timestamp` in milliseconds since the Unix epoch.
#[derive(Debug, Clone)]
pub struct ChatMessageEvent {
    pub timestamp: i64,
    pub username: Option<String>,
    pub message: String,
    pub message_type: String,
}

#[derive(Debug, Clone)]
pub struct PlaylistEvent {
    pub items: Vec<String>,
    pub current_index: Option<usize>,
}

/// The row a user is shown as.
pub open spec fn row_of(u: User) -> UserInfo {
    UserInfo {
        username: u.username,
        room: u.room,
        file: u.file,
        is_ready: u.is_ready,
        is_controller: u.is_controller,
    }
}

pub fn user_list_event(users: &Vec<User>) -> (r: UserListEvent)
    ensures
        r.users@.len() == users@.len(),
        forall|k: int| 0 <= k < users@.len() ==> #[trigger] r.users@[k] == row_of(users@[k]),
{
    let mut rows: Vec<UserInfo> = Vec::new();
    let mut i: usize = 0;
    while i < users.len()
        invariant
            i <= users@.len(),
            rows@.len() == i,
            forall|k: int| 0 <= k < i ==> #[trigger] rows@[k] == row_of(users@[k]),
        decreases users@.len() - i,
    {
        let u = users[i].clone();
        rows.push(
            UserInfo {
                username: u.username,
                room: u.room,
                file: u.file,
                is_ready: u.is_ready,
                is_controller: u.is_controller,
            },
        );
        i = i + 1;
    }
    UserListEvent { users: rows }
}

/// The item names and current index of a playlist.
pub fn playlist_event(playlist: &Playlist) -> (r: PlaylistEvent)
    ensures
        r.items@.len() == playlist.items().len(),
        forall|k: int| 0 <= k < r.items@.len() ==> #[trigger] r.items@[k] == playlist.items()[k].filename,
        match r.current_index {
            Some(i) => playlist.current() == Some(i as nat),
            None => playlist.current() is None,
        },
{
    let items = playlist.get_items();
    let mut names: Vec<String> = Vec::new();
    let mut i: usize = 0;
    while i < items.len()
        invariant
            i <= items@.len(),
            items@ == playlist.items(),
            names@.len() == i,
            forall|k: int| 0 <= k < i ==> #[trigger] names@[k] == items@[k].filename,
        decreases items@.len() - i,
    {
        names.push(items[i].filename.clone());
        i = i + 1;
    }
    PlaylistEvent { items: names, current_index: playlist.get_current_index() }
}

/// The name the interface knows a message type by.
pub open spec fn kind_label(t: ChatMessageType) -> Seq<char> {
    match t {
        ChatMessageType::User => "normal"@,
        ChatMessageType::System => "system"@,
        ChatMessageType::Server => "server"@,
        ChatMessageType::Error => "error"@,
    }
}

pub fn chat_message_event(m: &ChatMessage) -> (r: ChatMessageEvent)
    ensures
        r.timestamp == m.timestamp,
        r.username == m.username,
        r.message == m.message,
        r.message_type@ == kind_label(m.message_type),
{
    let c = m.clone();
    ChatMessageEvent {
        timestamp: c.timestamp,
        username: c.username,
        message: c.message,
        message_type: match m.message_type {
            ChatMessageType::User => to_owned_text("normal"),
            ChatMessageType::System => to_owned_text("system"),
            ChatMessageType::Server => to_owned_text("server"),
            ChatMessageType::Error => to_owned_text("error"),
        },
    }
}

} // verus!
