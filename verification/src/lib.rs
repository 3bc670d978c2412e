//! Decision logic of the Cursory cursor-confinement tool.

pub mod geometry;
pub mod text;
pub mod domain;
pub mod settings;
pub mod confine;
pub mod monitor;
pub mod custom_rect;
pub mod tray;
pub mod hotkey;
pub mod app_core;
pub mod handlers;
pub mod target;
pub mod laws;
