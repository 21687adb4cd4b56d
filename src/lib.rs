//! Access-log records for HTTP requests: which fields to capture, how each is rendered at the
//! stage of the request where its value is known, which paths are left out, and a per-request
//! capture session that emits its record exactly once.
pub mod config;
pub mod field;
pub mod laws;
pub mod logger;
pub mod outside;
pub mod session;

pub use crate::field::{
    Completion, Field, HttpVersion, Pass, RequestId, RequestInfo, ResponseInfo,
};
pub use crate::config::{ConfigError, Fields, FieldsBuilder};
pub use crate::logger::{ExcludePattern, SLogger};
pub use crate::session::{kv_pairs, CaptureSession, Pair, Stage};
