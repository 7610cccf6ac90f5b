//! Typed, verified models of the dungeon-mode binding layer: the overlay
//! lease token, the tagged dungeon-entity union and its accessors, the
//! log-message builder, and C-string conversion for game text.

pub mod dungeon_mode;
pub mod overlay;
pub mod string_util;
