//! The logic of the Twitch extension API: its configuration, the checks that
//! guard its routes, and the decisions each route takes between database calls.
pub mod config;
pub mod http;
pub mod models;
