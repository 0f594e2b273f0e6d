//! Carbem: a unified client library for cloud carbon-emission telemetry.
//!
//! Each cloud vendor exposes its own REST API with its own filter semantics,
//! units, and response shapes.  This crate holds the provider-agnostic data
//! model, the per-provider adapters that translate a unified query into a
//! provider-native request and a provider-native response back into unified
//! emission records, the registry that constructs adapters by name, and the
//! client facade that dispatches queries to the matching adapter.
//!
//! The HTTP transport itself is not part of this crate: adapters produce the
//! full request URL and authorization value, and normalize the decoded
//! response, so a thin caller owns the network exchange.

pub mod calendar;
pub mod client;
pub mod error;
pub mod models;
pub mod providers;
pub mod text;

pub use client::{CarbemClient, CarbemClientBuilder, Configured, Empty};
pub use error::CarbemError;
pub use models::{
    CarbonEmission, EmissionMetadata, EmissionQuery, MicroQuantity, MilliQuantity, ProviderData,
    TimePeriod, UtcDateTime,
};
