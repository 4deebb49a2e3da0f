//! A host-monitoring agent's decision logic: endpoint derivation, metric
//! aggregation and scaling, the session supervisor, the command demultiplexer,
//! probe and command results, the terminal bridge, and netlink framing.

pub mod text;
pub mod urls;
pub mod metrics;
pub mod sample;
pub mod supervisor;
pub mod tasks;
pub mod pty;
pub mod netlink;
pub mod config;
pub mod host;
