//! Backend state engine for a lyrics-presentation tool.
//!
//! The library keeps an ordered catalog of song slots, tracks which verse of
//! which slot is currently shown, and turns fetched lyrics pages into songs.

pub mod config;
pub mod display_selection;
pub mod lyrics;
pub mod querying;
pub mod song;
pub mod text;
