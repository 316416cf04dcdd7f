//! A terminal music browser's library: the track and album model, search,
//! ordering, library assembly, the key-driven browser state machine and the
//! playback scheduler, all verified with Verus.

pub mod track;
pub mod nav;
pub mod text;
pub mod search;
pub mod order;
pub mod compare;
pub mod sort;
pub mod library;
pub mod types;
pub mod config;
pub mod app;
pub mod keys;
pub mod events;
pub mod player;
pub mod metadata;
pub mod display;
pub mod records;
pub mod art;
pub mod laws;
pub mod browser_laws;
