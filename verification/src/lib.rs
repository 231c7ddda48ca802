//! Verified core of a desktop client for browsing, tracking and streaming
//! anime: request building and reply decoding for the show catalogue
//! services, the remote-player command protocol, configuration layout and
//! the decisions that drive the user interface.

pub mod text;
pub mod url_encoding;
pub mod show_data;
pub mod stream_id;
pub mod stream_links;
pub mod episode_lookup;
pub mod requests;
pub mod player_data;
pub mod config;
pub mod show_object;
pub mod preferences;
pub mod devices;
pub mod pages;
