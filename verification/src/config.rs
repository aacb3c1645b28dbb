//! The values that a run is configured with.

use vstd::prelude::*;

verus! {

/// Where the finished artifact is delivered.
#[derive(Debug)]
pub struct MinioConfig {
    pub endpoint: String,
    pub access_key: String,
    pub secret_key: String,
    pub bucket: String,
    pub region: String,
}

/// What every request to the upstream service carries.
#[derive(Debug)]
pub struct ApiConfig {
    /// Header names with their values, in the configured order. A name may
    /// stand more than once, also in another mix of capital and small
    /// letters; an identity then sends the value that stands last.
    pub headers: Vec<(String, String)>,
}

/// The values a run is started with.
#[derive(Debug)]
pub struct Settings {
    /// The logical grouping ids to extract, one run each.
    pub cities: Vec<String>,
    pub minio: MinioConfig,
    pub api: ApiConfig,
}

impl Settings {
    /// Puts the three parts of a configuration together.
    pub fn new(cities: Vec<String>, minio: MinioConfig, api: ApiConfig) -> (settings: Settings)
        ensures
            settings.cities == cities,
            settings.minio == minio,
            settings.api == api,
    {
        Settings { cities, minio, api }
    }
}

} // verus!
