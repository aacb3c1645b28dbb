//! Extraction of paginated vendor records from a rate-limited upstream
//! service, and their delivery as one columnar artifact.
//!
//! The library holds every decision of a run: which identity makes a
//! request, how an attempt is read and what follows it, in which order pages
//! and vendors are worked on, how records are framed in the sink and read
//! back, how they are laid out in columns, and how the artifact is cut into
//! parts. It performs no input or output: each decision is a function from
//! the state of the work and the last event to the next state and the next
//! action, and the program around the library carries the actions out.

pub mod clients;
pub mod config;
pub mod error;
pub mod models;
pub mod pipeline;
pub mod services;
pub mod storage;
pub mod text;
pub mod utils;

pub use clients::pool::ClientPool;
pub use config::Settings;
pub use error::Error;
pub use models::{Vendor, VendorListResponse};
