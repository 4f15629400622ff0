//! A transparent TCP reverse proxy that resolves its backend through a
//! service-discovery directory at connection time.
//!
//! The crate holds the proxy's connection-handling core: the candidate
//! selection and failover state machine, the bidirectional byte relay, and
//! the construction of the directory query. Socket and HTTP plumbing live
//! outside the library and drive these state machines with plain values.

pub mod consul;
pub mod error;
pub mod http;
pub mod proxy;
pub mod proxy_channel;
pub mod proxy_server;
pub mod text;

pub use crate::consul::ConsulSettings;
pub use crate::error::Error;
pub use crate::proxy_server::{ProxyServer, ProxyServerBuilder};

use vstd::prelude::*;

verus! {

/// This crate specific `Result` type.
pub type Result<T> = core::result::Result<T, Error>;

} // verus!

