//! A static registry of email-provider connection profiles, keyed by email
//! domain, together with the transformation and export pipeline that turns
//! each provider's server list into a client-facing autoconfiguration record
//! and serializes it as one JSON object per line.

pub mod config;
pub mod data;
pub mod export;
pub mod json;
pub mod model;
pub mod registry;
pub mod text;
pub mod transform;
