//! The sink, the columns of the artifact, and its delivery.

pub mod json;
pub mod minio;
pub mod parquet;
pub mod target;

pub use json::JsonWriter;
pub use minio::MinioUploader;
pub use parquet::ParquetConverter;
pub use target::UploadTarget;
