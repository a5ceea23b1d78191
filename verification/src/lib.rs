//! Chunk-generation scheduling core: expanding-ring traversal of columns,
//! five-stage radius expansion of load requests, a fair round-robin
//! scheduler over in-flight requests, and the coordinate bookkeeping that
//! fills chunk storage from a per-column working buffer.

pub mod chunk;
pub mod column;
pub mod generator;
pub mod request;
pub mod ring;
pub mod scheduler;
