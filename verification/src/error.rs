//! The failures of a run.

use vstd::prelude::*;

verus! {

/// Everything that can end a run early.
///
/// Failures raised by the transport, the file system or the object store
/// arrive as text: the library decides on their kind, not on their inner
/// structure.
#[derive(Debug)]
pub enum Error {
    /// A response or connection that is neither success nor retryable.
    Http(String),
    /// A failed read or write of a local file.
    Io(String),
    /// A body that is not the expected JSON document.
    Json(String),
    /// A failure reported by the object store.
    S3(String),
    /// A failure inside the object store client.
    AwsSdk(String),
    /// The upstream service asked the caller to slow down.
    RateLimit,
    /// The upstream service blocked the identity in use.
    Forbidden,
    /// Every permitted attempt of a request has failed.
    MaxRetriesExceeded,
    /// The sink was in use by another writer.
    Lock(String),
    /// The configuration could not be loaded.
    Config(String),
    /// The storage session could not be used as asked.
    Storage(String),
    /// The artifact could not be streamed.
    ByteStream(String),
    /// The columnar encoder rejected the batch.
    Parquet(String),
    /// The columnar batch could not be assembled.
    Arrow(String),
}

impl Error {
    /// The fixed words that open the description of each kind.
    pub open spec fn prefix(self) -> Seq<char> {
        match self {
            Error::Http(_) => "HTTP error: "@,
            Error::Io(_) => "IO error: "@,
            Error::Json(_) => "JSON error: "@,
            Error::S3(_) => "S3 error: "@,
            Error::AwsSdk(_) => "AWS SDK error: "@,
            Error::RateLimit => "Rate limit exceeded"@,
            Error::Forbidden => "Forbidden - Access denied"@,
            Error::MaxRetriesExceeded => "Maximum retries exceeded"@,
            Error::Lock(_) => "Lock error: "@,
            Error::Config(_) => "Configuration error: "@,
            Error::Storage(_) => "Storage error: "@,
            Error::ByteStream(_) => "ByteStream error: "@,
            Error::Parquet(_) => "Parquet error: "@,
            Error::Arrow(_) => "Arrow error: "@,
        }
    }

    /// The detail that a kind carries, empty for the kinds that carry none.
    pub open spec fn detail(self) -> Seq<char> {
        match self {
            Error::Http(m) => m@,
            Error::Io(m) => m@,
            Error::Json(m) => m@,
            Error::S3(m) => m@,
            Error::AwsSdk(m) => m@,
            Error::RateLimit => Seq::empty(),
            Error::Forbidden => Seq::empty(),
            Error::MaxRetriesExceeded => Seq::empty(),
            Error::Lock(m) => m@,
            Error::Config(m) => m@,
            Error::Storage(m) => m@,
            Error::ByteStream(m) => m@,
            Error::Parquet(m) => m@,
            Error::Arrow(m) => m@,
        }
    }

    /// The description shown to the user: prefix followed by detail.
    pub open spec fn message_text(self) -> Seq<char> {
        self.prefix() + self.detail()
    }

    /// Describes the failure for the user.
    pub fn message(&self) -> (text: String)
        ensures
            text@ == self.message_text(),
    {
        match self {
            Error::Http(m) => labelled("HTTP error: ", m),
            Error::Io(m) => labelled("IO error: ", m),
            Error::Json(m) => labelled("JSON error: ", m),
            Error::S3(m) => labelled("S3 error: ", m),
            Error::AwsSdk(m) => labelled("AWS SDK error: ", m),
            Error::RateLimit => bare("Rate limit exceeded"),
            Error::Forbidden => bare("Forbidden - Access denied"),
            Error::MaxRetriesExceeded => bare("Maximum retries exceeded"),
            Error::Lock(m) => labelled("Lock error: ", m),
            Error::Config(m) => labelled("Configuration error: ", m),
            Error::Storage(m) => labelled("Storage error: ", m),
            Error::ByteStream(m) => labelled("ByteStream error: ", m),
            Error::Parquet(m) => labelled("Parquet error: ", m),
            Error::Arrow(m) => labelled("Arrow error: ", m),
        }
    }
}

fn labelled(prefix: &str, detail: &String) -> (text: String)
    ensures
        text@ == prefix@ + detail@,
{
    let mut text = String::from_str(prefix);
    text.append(detail.as_str());
    text
}

fn bare(words: &str) -> (text: String)
    ensures
        text@ == words@ + Seq::<char>::empty(),
{
    let text = String::from_str(words);
    text
}

} // verus!
