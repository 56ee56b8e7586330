//! The lifecycle of one SSH client session: connecting and authenticating,
//! then running commands and copying files over channels of the one
//! transport, each channel opened for one operation and closed again.
//!
//! The network itself is not touched here. Every operation is a small state
//! machine: it names the next action, a driver performs that action on the
//! transport and hands back what the transport answered, and the machine
//! decides what follows and which error a failure is.
//!
//! `session` holds the session and begins every operation; `connect`,
//! `keepalive`, `command`, `shell`, `transfer` and `agent` hold the
//! operations; `channel` holds what is common to their use of a channel;
//! `identity` holds the identities of an agent; `reply` and `error` hold what
//! goes in and what can go wrong; `engine` holds what is taken on trust of
//! libssh2.

pub mod agent;
pub mod channel;
pub mod command;
pub mod connect;
pub mod engine;
pub mod error;
pub mod identity;
pub mod keepalive;
pub mod reply;
pub mod session;
pub mod shell;
pub mod transfer;
