//! Verified core of a terminal soundboard.

pub mod app;
pub mod audio;
pub mod board;
pub mod command;
pub mod controls;
pub mod dialog;
pub mod editor;
pub mod failure;
pub mod json;
pub mod key;
pub mod library;
pub mod mix;
pub mod order;
pub mod pads;
pub mod path;
pub mod picker;
pub mod playback;
pub mod player;
pub mod setup;
pub mod text;
pub mod wizard;
pub mod screen;
