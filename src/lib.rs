//! A verified model of an RTSP bridge: a registry of media stages, a pipeline
//! graph with add and link operations, the decision taken when the source
//! exposes a new output, the two sink chains, and the lifecycle controller
//! that classifies runtime notifications.
pub mod error;
pub mod stage;
pub mod graph;
pub mod negotiation;
pub mod lifecycle;
pub mod config;
pub mod assembly;
