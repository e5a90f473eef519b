//! A trivia host for chat: one open question at a time, shared by everyone
//! who talks to it, with a single-slot hand-off for data arriving from a
//! message broker.
//!
//! The crate holds the decisions only. Locks, sockets and the chat and
//! broker clients belong to the program that embeds it.

pub mod bridge;
pub mod command;
pub mod draw;
pub mod handler;
pub mod markup;
pub mod question;
pub mod reply;
pub mod session;
pub mod text;
