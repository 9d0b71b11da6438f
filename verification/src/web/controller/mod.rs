//! The handlers of the API.

pub mod admission;
