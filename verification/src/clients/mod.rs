//! The transport identities and the pool that hands them out.

pub mod http;
pub mod pool;

pub use http::HttpClient;
pub use pool::ClientPool;
