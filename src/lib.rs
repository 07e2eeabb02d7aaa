//! A monitoring agent's core: it classifies telemetry messages by routing key,
//! decodes their payloads, names the device that sent them and evaluates each
//! value against the configured thresholds.
pub mod alert;
pub mod config;
pub mod device;
pub mod ingest;
pub mod laws;
pub mod parser;
pub mod system_value;
pub mod watchdog;
pub mod wire;
