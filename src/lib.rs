//! Keeps a paired headset's hands-free link up while local audio plays and
//! drops it after a configurable idle period, with a live-reloadable policy.

pub mod address;
pub mod policy;
pub mod store;
pub mod devices;
pub mod monitor;
pub mod laws;
