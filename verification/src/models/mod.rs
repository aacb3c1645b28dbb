//! The records of a run and the answers of the upstream service.

pub mod payload;
pub mod ratings;
pub mod response;
pub mod vendor;

pub use payload::JsonText;
pub use ratings::{RatingScore, RatingsDistribution};
pub use response::{ReviewsResponse, VendorData, VendorDetailResponse, VendorItem, VendorListResponse};
pub use vendor::Vendor;
