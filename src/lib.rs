//! A webhook receiver for a chat platform: signed deliveries, canned replies
//! from a preset registry, and the admin workflow that binds an uploaded
//! image to a preset in object storage.
//!
//! The library decides; the caller performs. Each inbound event is turned
//! into a plan of outbound operations whose every step is stated by a
//! contract over the spec functions of this crate.

pub mod paths;
pub mod signature;
pub mod registry;
pub mod text;
pub mod event;
pub mod postback;
pub mod workflow;
pub mod settings;
