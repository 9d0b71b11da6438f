//! The custom resources that the webhook admits.

pub mod v1alpha1;
