//! A configuration-driven HTTP gateway core: a fixed list of endpoints, each
//! bound to one action (run a shell command, read a text or binary file, or
//! write a file with optional permission and ownership changes).
//!
//! This crate holds the request-dispatch pipeline as verified logic on plain
//! values: authentication, endpoint matching, placeholder substitution into
//! action templates, action selection, and response shaping. The surrounding
//! process (the HTTP listener, the shell spawn, the filesystem and the user
//! database) hands values in and carries the chosen actions out.

pub mod auth;
pub mod bytes;
pub mod config;
pub mod dispatch;
pub mod query;
pub mod response;
pub mod router;
pub mod template;
pub mod unicode;
pub mod writefile;
