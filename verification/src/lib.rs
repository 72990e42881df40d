//! Verified core of a device-bus to smart-home cloud gateway.
//!
//! The library models a user's device tree, converts raw device property
//! values to and from cloud representations, synthesizes cloud device
//! descriptors from node capabilities, plans fulfillment responses
//! (`sync`, `query`, `execute`), and drives a debounced cloud-sync
//! notifier. All I/O (the MQTT transport, the cloud reporting API, the
//! HTTP layer) lives outside this crate and hands it plain values.

pub mod client;
pub mod config;
pub mod convert;
pub mod decimal;
pub mod device;
pub mod errors;
pub mod events;
pub mod execute;
pub mod extractors;
pub mod frame;
pub mod ghome;
pub mod homie;
pub mod query;
pub mod ratelimit;
pub mod state;
pub mod sync;
pub mod text;
pub mod user;

pub use convert::cap;
