//! Data records and request objects of a messaging-platform client schema.
//!
//! Every record carries two pieces of routing metadata: a correlation
//! identifier (`extra`) and a session identifier (`client_id`). Request
//! objects additionally carry a fixed tag naming the remote operation.

pub mod types;
