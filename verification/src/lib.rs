//! Verified core of an IoT gateway: the registry of connected clients, the
//! server's traffic metrics, the per-connection session protocol, the TLS
//! server configuration read from PEM files, and the logic of the example
//! client and of the load generator.

pub mod clock;
pub mod decimal;
pub mod device;
pub mod duration;
pub mod message;
pub mod metrics;
pub mod perf;
pub mod registry;
pub mod session;
pub mod tls;
