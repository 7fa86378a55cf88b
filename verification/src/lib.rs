//! Control layer of a background music player: playlist cursor, hotkey
//! matching and command dispatch, stated over mathematical models and
//! verified.

pub mod bindings;
pub mod command;
pub mod config;
pub mod dispatch;
pub mod held;
pub mod hotkey;
pub mod key;
pub mod matcher;
pub mod modifiers;
pub mod paths;
pub mod playlist;
pub mod text;
pub mod volume;
