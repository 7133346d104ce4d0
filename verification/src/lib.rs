//! Verified core of a job-board apply bot: a polling wait engine, a posting
//! extractor with identifier-shape filtering and deduplication, a deep-link
//! composer, a search-URL builder, session bootstrap, and the multi-stage
//! apply state machine. Browser control and file handling live outside the
//! library and feed it plain values.

pub mod codec;
pub mod extract;
pub mod ident;
pub mod orchestrator;
pub mod probe;
pub mod search;
pub mod session;
pub mod wait;
