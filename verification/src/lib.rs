//! The decision-making core of a small static-file web server.
//!
//! Everything here is plain data in, plain data out: which file answers a
//! request path, which status a response carries, how a listener moves from
//! binding to draining, what the settings mean. Sockets, files and signals
//! belong to the program around this library.

pub mod config;
pub mod error;
pub mod handle;
pub mod keys;
pub mod level;
pub mod lifecycle;
pub mod number;
pub mod observe;
pub mod path;
pub mod resolve;
pub mod respond;
pub mod text;
pub mod tree;
