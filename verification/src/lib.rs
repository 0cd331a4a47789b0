//! The discrete core of a two-paddle ball game: which key means what, what the
//! paddles are being told to do, and which contacts turn a moving body around.
//! The command-line arguments of the companion text printer live here too.

pub mod config;
pub mod contact;
pub mod controls;
pub mod court;
pub mod keys;
