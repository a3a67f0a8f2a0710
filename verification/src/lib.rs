//! Verified core of the `opsctl` command-line client for the Opsd API.

pub mod text;
pub mod web_url;
pub mod auth;
pub mod device_flow;
pub mod credentials;
pub mod website;
pub mod businesses;
