//! The IBM Cloud provider: adapter and data shapes.

pub mod client;
pub mod models;

pub use client::IbmProvider;
pub use models::{IbmConfig, IbmGroupBy, IbmQueryConfig};
