//! Orchestration core for converting documents to text through Docling.
//!
//! A batch of files goes through the same steps whichever backend converts them: a file that
//! is text already is passed through ([`readiness`]), a file that was converted before and
//! has not changed is served from the cache ([`cache`]), and the rest is handed out for
//! conversion, a bounded number at a time ([`dispatch`]). A conversion runs through the local
//! executable ([`local`]) or through a service that answers at once or works on a job that
//! is polled ([`remote`], [`task`]); what comes back is turned into the files to store
//! ([`extract`]). The library decides and never acts: running programs, sending requests
//! and touching files is left to the caller, who reports back what happened.

pub mod backend;
pub mod cache;
pub mod config;
pub mod dispatch;
pub mod error;
pub mod extract;
pub mod json;
pub mod local;
pub mod readiness;
pub mod remote;
pub mod serve_config;
pub mod task;
pub mod text;

pub use backend::{DoclingBackend, DoclingServeBackend};
pub use config::DoclingConfig;
pub use error::JobError;
pub use serve_config::DoclingServeConfig;
