//! Version `v1alpha1` of the group `app.demo`.

pub mod doge;

pub use doge::{Doge, Spec, SpecError};
