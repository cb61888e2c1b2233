//! A single error type for a DNS client: errors of the security, I/O, protocol
//! and queue layers are absorbed into one envelope, and every timeout that one
//! of them reports is classified as the one `Timeout` kind.

pub mod error;
pub mod foreign;
pub mod laws;

pub use error::{Error, ErrorKind, Result};
