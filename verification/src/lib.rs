//! A sans-I/O driver for keeping firmware up to date from a 9P file server.
//!
//! The crate performs no I/O itself. Each component is a state machine that
//! is handed the outcome of what it last asked for and answers with what to
//! do next; the caller owns the socket, the timer and the update-apply
//! pipeline.
//!
//! - [`handshake`] establishes a session: version, authentication, attach.
//! - [`walk`] resolves a path to a fresh handle; [`path`] splits paths.
//! - [`reader`] decides single open, read and release exchanges, and
//!   [`fetch`] strings them together to read one file into a sink.
//! - [`ota`] runs the update cycle on top: compare versions, download,
//!   commit or abort.
//! - [`message`] and [`error`] hold the vocabulary shared by all of them.

pub mod config;
pub mod error;
pub mod fetch;
pub mod handshake;
pub mod message;
pub mod ota;
pub mod path;
pub mod reader;
pub mod version;
pub mod walk;
