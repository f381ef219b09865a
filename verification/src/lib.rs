//! Reconstruction of a recorded multiplayer match from its decoded event
//! stream, together with a few helpers for the surrounding demo player.

pub mod analyser;
pub mod chat;
pub mod demo;
pub mod directory;
pub mod identity;
pub mod laws;
pub mod model;
pub mod presentation;
pub mod recorder;
pub mod records;
pub mod state;
pub mod text;
pub mod types;
pub mod util;
pub mod votes;
