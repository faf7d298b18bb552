//! Locating a telemetry attribute's provider, negotiating a managed
//! subscription for it, and consuming its updates over a broker that may drop
//! the connection.

pub mod discovery;
pub mod identity;
pub mod model;
pub mod negotiation;
pub mod provider;
pub mod retry;
pub mod stream;
