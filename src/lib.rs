//! A client library for the Syncplay co-watching protocol: chat, playlist,
//! playback synchronisation and the session rules around them.

pub mod chat;
pub mod clock;
pub mod commands;
pub mod config;
pub mod control;
pub mod dispatch;
pub mod events;
pub mod frame;
pub mod loader;
pub mod messages;
pub mod mpv;
pub mod ping;
pub mod player;
pub mod playlist;
pub mod pump;
pub mod room;
pub mod session;
pub mod state;
pub mod sync;
pub mod text;
pub mod trust;
