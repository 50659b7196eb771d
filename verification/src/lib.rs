//! Verified core of a batch email dispatch service.
//!
//! A batch of send requests is driven through an outbound mail transport under
//! a configurable dispatch policy; per-item failures are collected without
//! aborting the batch, and the outcome is aggregated into a single response.

pub mod auth;
pub mod dispatch;
pub mod handler;
pub mod mail;
pub mod models;
pub mod numeral;
pub mod policy;
pub mod response;
