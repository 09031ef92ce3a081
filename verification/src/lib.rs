//! Supervision of a local backend sidecar process.
//!
//! The library holds the decision logic of a small process supervisor: it
//! models the lifecycle of one backend child (port allocation, environment
//! construction, bounded health polling, termination) as verified state
//! transitions and pure computations over plain values.  The host application
//! performs the surrounding I/O (binding sockets, spawning the child, issuing
//! HTTP requests, sleeping between attempts) and feeds the observed results
//! into these functions.

pub mod environment;
pub mod errors;
pub mod frontend;
pub mod health;
pub mod supervisor;
pub mod text;
