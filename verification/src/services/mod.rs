//! The requests to the upstream service and the work on a page of vendors.

pub mod api;
pub mod vendor;
