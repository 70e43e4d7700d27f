//! Connection establishment and resilience rules for a messaging client:
//! address racing, per-route throttling, multi-route failover, request
//! decoration and the service lifecycle, each as pure decisions on plain
//! values with machine-checked contracts.

pub mod endpoint;
pub mod errors;
pub mod multi_route;
pub mod params;
pub mod racing;
pub mod request;
pub mod service;
pub mod throttle;
pub mod transport;
pub mod ws;
