//! Verified core of a search-engine bridge: the task lifecycle store, the
//! NDJSON document intake, attribute projection of stored documents, and the
//! error vocabulary shared with the JavaScript side.

pub mod errors;
pub mod text;
pub mod task;
pub mod json;
pub mod index;
pub mod engine;
pub mod node;
pub mod handle;
