//! Supervision core for a desktop shell that launches a bundled backend
//! server, waits for it to become reachable and publishes its address.

pub mod endpoint;
pub mod health;
pub mod log;
pub mod port;
pub mod relay;
pub mod startup;
pub mod text;
