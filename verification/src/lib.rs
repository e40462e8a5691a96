//! An interactive selector over the local branches of a repository.
//!
//! The crate holds the rules of the selector: how a branch listing is read,
//! how the cursor moves, which key asks for which action, what a frame of the
//! screen looks like, and how the session reacts to each action. Reading
//! keys, writing to the terminal and running the branch tool are left to the
//! program that drives a [`session::Session`].

pub mod branch;
pub mod keys;
pub mod render;
pub mod screen;
pub mod selection;
pub mod session;
pub mod text;
