//! Durable Stripe Billing behaviour: the decisions of the plugin as verified functions.

pub mod admin;
pub mod checkout;
pub mod clock;
pub mod config;
pub mod contract;
pub mod crypto;
pub mod effects;
pub mod hex;
pub mod json;
pub mod lease;
pub mod meter;
pub mod meter_effects;
pub mod portal;
pub mod receipt;
pub mod receipts;
pub mod reconcile;
pub mod request;
pub mod schema;
pub mod session;
pub mod store;
pub mod stripe;
pub mod subscription;
pub mod text;
pub mod web;
pub mod webhook;
