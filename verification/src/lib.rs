//! A resilient object-retrieval layer over S3-compatible object storage.
//!
//! The crate derives deterministic, execution-scoped local paths for remote
//! objects, decides when a previously materialized file can be reused, drives
//! a bounded Fibonacci-backoff retry discipline, and checks that downloaded
//! credential files carry owner-read-only permissions. Network and filesystem
//! work is performed by callers; the decisions they follow are verified here.

pub mod errors;
pub mod harness;
pub mod kubeconfig;
pub mod model;
pub mod paths;
pub mod retry;
pub mod secrets;
pub mod secure;
pub mod spaces;

pub use errors::{EngineError, EngineErrorCause, SimpleError, SimpleErrorKind};
pub use model::{Context, Kind, Metadata, StringPath};
