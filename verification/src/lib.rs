//! Core logic of a terminal anime client: provider payload decoding, stream
//! selection, metadata matching, player command planning, presence decisions
//! and the application state machine.

pub mod text;
pub mod avatar;
pub mod config;
pub mod layout;
pub mod mascot;
pub mod theme;
pub mod allanime;
pub mod crypto;
pub mod domain;
pub mod jikan;
pub mod json;
pub mod provider;
pub mod presence;
pub mod updater;
pub mod app;
pub mod runtime;
pub mod player;
