//! The admission webhooks.

pub mod v1;
