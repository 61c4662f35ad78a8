//! Supervision of a single long-lived worker process on behalf of a host
//! application: the decisions of starting and stopping it, the single-instance
//! rule, and the routing of the events that a running worker produces.

pub mod drain;
pub mod laws;
pub mod status;
pub mod supervisor;
