//! Incremental builders for an immutable network-request descriptor.
//!
//! Three construction disciplines assemble the same kind of value:
//! a reusable builder mutated through `&mut self`, an ownership-moving
//! builder that must be cloned before it is used twice, and a builder whose
//! type records which required fields were supplied and whether it is sealed.
//! Every builder is specified against one mathematical model (`model`), and
//! the general facts that hold of that model are proved in `laws`.

pub mod error;
mod fields;
pub mod laws;
pub mod model;
pub mod request;
pub mod task;
pub mod web;
