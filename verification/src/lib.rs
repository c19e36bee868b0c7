//! Configuration of the HTTP client that a catalog integration talks through.
//!
//! [`ClientOptions`] collects the transport settings and an optional retry
//! configuration through consuming setters. [`ClientOptions::client`] turns
//! them, in a fixed order, into a client that retries transient failures with
//! exponential backoff, or into one classified construction error.

pub mod assembly;
pub mod backend;
pub mod error;
pub mod laws;
pub mod options;
pub mod retry;
pub mod transport;

pub use error::{ClientError, ErrorKind};
pub use options::ClientOptions;
pub use retry::{Jitter, RetryConfig};
pub use transport::{Protocol, TransportSetting};
