//! The core of a terminal-multiplexing daemon.
//!
//! A daemon hosts pseudo-terminal sessions ("tabs") and brokers their input
//! and output between many short-lived clients. This crate holds what the
//! daemon and its clients decide and remember, apart from every socket,
//! channel, timer and file:
//!
//! - `chunk`: byte-indexed chunks of output, and chunks of input;
//! - `scrollback`: the bounded history of one tab's output;
//! - `pty`: one tab's session, which numbers the output and keeps its
//!   history;
//! - `subscription`: the set of tabs that a client follows;
//! - `tab`, `manager`: tab names and metadata, and the registry of live
//!   tabs;
//! - `message`, `wire`: what travels inside the daemon, and what travels
//!   between a client and the daemon;
//! - `cli`, `session`: what a client's requests set in motion, and which of
//!   the tabs' messages the client is told;
//! - `websocket`, `daemon`: the turns of the loop between a socket and its
//!   connection, and the daemon's record of itself;
//! - `create_tab`, `terminal`, `history`: the client's own services.
//!
//! Every function is verified against its contract. The laws that hold
//! across calls are stated as public proof functions next to the functions
//! that they speak of.

pub mod chunk;
pub mod cli;
pub mod create_tab;
pub mod daemon;
pub mod history;
pub mod manager;
pub mod message;
pub mod pty;
pub mod scrollback;
pub mod session;
pub mod subscription;
pub mod tab;
pub mod terminal;
pub mod websocket;
pub mod wire;
