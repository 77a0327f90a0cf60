//! Verified core of a terminal Subsonic music client: the server's data
//! model, LRC lyrics parsing and synchronisation, the state transitions
//! behind the queue, browse, radio and lyrics pages, and what the
//! now-playing panel and the settings page show.

pub mod text;
pub mod subsonic;
pub mod lyrics;
pub mod models;
pub mod keys;
pub mod random;
pub mod queue;
pub mod radio;
pub mod lyrics_page;
pub mod browse;
pub mod notifications;
pub mod now_playing;
pub mod ui;
pub mod settings;
pub mod quality;
