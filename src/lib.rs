//! Supervisor and system-integration layer of a desktop proxy client.
//!
//! The library decides; the surrounding program performs the I/O. It owns
//! the lifecycle state of the proxy-engine process, the registry values that
//! mirror that lifecycle into the operating system's proxy setting, the
//! selected node, the traffic-rate computation over network counters, and
//! the layout of the data directory.
pub mod models;
pub mod monitor;
pub mod nodes;
pub mod paths;
pub mod probe;
pub mod selection;
pub mod supervisor;
pub mod system_proxy;
