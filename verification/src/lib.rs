//! Outbound event notification adapter for a webhook-delivery platform.
//!
//! The crate covers three concerns:
//! - a closed taxonomy of domain events and their pure conversion into a
//!   generic, self-describing event envelope ([`hook0_client`]);
//! - an optional-initialization policy for the delivery client: a complete
//!   configuration triple yields a handle, anything less yields nothing;
//! - an aggregator that merges caller-scoped organization roles with
//!   persisted metadata, tolerating missing rows ([`organizations`]).

pub mod hook0_client;
pub mod ids;
pub mod json;
pub mod organizations;
pub mod time;
