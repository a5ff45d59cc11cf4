//! A TCP-level reverse proxy and load balancer, as a library.
//!
//! The library owns the rules of the proxy: which clients are admitted, which
//! backend serves a client, how each backend's load and health are kept, and
//! how the life of one proxied connection runs from admission to its outcome.
//! Sockets, tasks and output belong to the program that drives it.

pub mod address;
pub mod backend;
pub mod conf;
pub mod errors;
pub mod laws;
pub mod report;
pub mod session;
pub mod time;
pub mod workers;
