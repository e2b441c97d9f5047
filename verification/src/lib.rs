//! Verified core of a terminal Deezer client: queue and playback decisions,
//! stream decryption, response parsing, offline index, i18n and themes.

pub mod client;
pub mod daemon;
pub mod decrypt;
pub mod favorites_cache;
pub mod gateway;
pub mod i18n;
pub mod json;
pub mod laws;
pub mod models;
pub mod offline;
pub mod player;
pub mod protocol;
pub mod text;
pub mod theme;
pub mod ui;
pub mod web_login;
