//! Mirrors a remote music library to local storage: a per-track pipeline of
//! idempotent stages (download, cover, resize, mux), driven by the caller,
//! with the naming, layout and reporting rules around it.

pub mod text;
pub mod responses;
pub mod utils;
pub mod layout;
pub mod pipeline;
pub mod world;
pub mod report;
pub mod progress;
pub mod server;
pub mod daemon;
pub mod media;
