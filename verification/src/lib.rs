//! Control plane that sits beside a long-lived media pipeline.
//!
//! The pipeline is owned elsewhere and may disappear at any moment. This
//! library holds the decisions that surround it: how the lifecycle coordinator
//! reacts to status messages and termination signals, which diagnostic
//! endpoint a request addresses, and what each endpoint answers for every
//! outcome of resolving the pipeline and of running the diagram renderer.
//!
//! Everything here works on plain values. Resolving the pipeline, talking to
//! the network and running the renderer process are left to the caller, who
//! feeds the results in and carries the answers out.

pub mod history;
pub mod lifecycle;
pub mod render;
pub mod server;
