//! Admission webhook for the `Doge` custom resource: the domain model, the
//! mutation and validation rules applied to admission requests, and the JSON
//! envelope in which the web layer answers.

pub mod crd;
pub mod admission;
pub mod domain;
pub mod error;
pub mod object;
pub mod patch;
pub mod text;
pub mod web;
