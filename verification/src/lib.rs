//! Verified core of a command-line tool that lists the recent public GitHub
//! activity of a user: username validation, decoding of events into a uniform
//! shape, their one-line descriptions, and the messages shown for failed
//! requests.

pub mod text;
pub mod username;
pub mod event;
pub mod render;
pub mod http;
