//! Navigation core of a terminal flashcard manager: screens, key handling,
//! bounded text buffers, list cursors and the revision walk.
pub mod cursor;
pub mod buffer;
pub mod color;
pub mod entity;
pub mod config;
pub mod command;
pub mod state;
pub mod ui;
pub mod laws;
pub mod sql;
