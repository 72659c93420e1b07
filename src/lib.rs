//! Decision core of a layout daemon for a tiling compositor.
//!
//! The compositor's window tree is observed as a flat pre-order snapshot
//! ([`tree::Tree`]); every engine turns a snapshot and an event into the
//! compositor command clauses to issue ([`command::Clause`]).
use vstd::prelude::*;

pub mod client;
pub mod command;
pub mod daemon;
pub mod error;
pub mod event;
pub mod layout;
pub mod message_handler;
pub mod relayout;
pub mod spiral;
pub mod stack_commands;
pub mod stack_main;
pub mod text;
pub mod tree;
pub mod window_focus;
pub mod workspace;
