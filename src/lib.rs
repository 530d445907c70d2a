//! Routing table, control protocol and request routing of a single-host
//! application-deployment daemon.
//!
//! The daemon forwards each inbound HTTP request to the backend application
//! registered for its `Host` header, and lets a local operator register,
//! remove and list those applications over a line-delimited control channel.
//! This crate holds the decisions; the sockets, the HTTP engine and the JSON
//! codec live around it.

pub mod address;
pub mod application;
pub mod cli;
pub mod configuration;
pub mod control;
pub mod greeting;
pub mod proxy;
pub mod shutdown;
