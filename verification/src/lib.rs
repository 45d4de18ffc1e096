//! Typed decoding of a window compositor's line-based notification stream.

pub mod catalog;
pub mod error;
pub mod events;
pub mod interpreter;
pub mod listener;
pub mod text;

pub use crate::listener::{Dispatcher, Hyprland, Listener};
