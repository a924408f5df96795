//! The FUSE session protocol: frames, the INIT handshake, requests, replies and notifications.

pub mod bytes;
pub mod config;
pub mod connection;
pub mod error;
pub mod filesystem;
pub mod handshake;
pub mod host;
pub mod kernel;
pub mod notify;
pub mod reply;
pub mod request;
pub mod session;
pub mod wire;

pub use crate::bytes::Bytes;
pub use crate::config::{CapabilityFlags, Config};
pub use crate::connection::ConnectionInfo;
pub use crate::notify::Notifier;
pub use crate::request::{Data, Request};
pub use crate::session::Session;
