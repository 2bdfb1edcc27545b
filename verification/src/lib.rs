//! Switching the default audio output between two endpoints: the grammar of
//! the shortcut, the choice of an icon image, the order of the calls that
//! change the default, and the controller that decides what each event
//! leads to. Nothing in this library talks to the platform; its callers do.

pub mod audio;
pub mod cli;
pub mod config;
pub mod controller;
pub mod hotkey;
pub mod icon;
pub mod setup;
pub mod text;
pub mod tray;
