//! A small library behind a local HTTP bridge from emotion labels to
//! playback of curated playlists on a music streaming service.
//!
//! The library holds the decision logic of the bridge: the mapping from an
//! emotion label to a playlist reference, the responses of each HTTP
//! endpoint, and the validation of the startup configuration. The
//! surrounding binary performs the network calls and the browser side
//! effect and feeds their outcomes back in as plain values.

pub mod config;
pub mod endpoints;
pub mod playlist;
pub mod session;
