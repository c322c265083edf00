//! Error taxonomy of the pipeline.
//!
//! `Decode` covers unreadable or unsupported bytes, `Encode` an encoder
//! that rejected pixel data, `Fetch` a download failure split into a
//! permanent and a transient class, `Resource` a disk or temporary-file
//! allocation failure, and `Busy` the single-flight lock already held.

use vstd::prelude::*;

verus! {

/// Whether a fetch failure may be retried.
#[derive(Debug, Clone, Copy, PartialEq, Eq, Structural)]
pub enum FetchClass {
    Permanent,
    Transient,
}

/// One error of the pipeline, with the underlying cause as text.
#[derive(Debug, Clone)]
pub enum PipelineError {
    Decode(String),
    Encode(String),
    Fetch(FetchClass, String),
    Resource(String),
    Busy,
}

impl PipelineError {
    /// A single-line description, prefixed with the error class.
    pub fn message(&self) -> (r: String)
        ensures
            r@ == match self {
                PipelineError::Decode(m) => "decode error: "@ + m@,
                PipelineError::Encode(m) => "encode error: "@ + m@,
                PipelineError::Fetch(FetchClass::Permanent, m) => "permanent fetch error: "@ + m@,
                PipelineError::Fetch(FetchClass::Transient, m) => "transient fetch error: "@ + m@,
                PipelineError::Resource(m) => "resource error: "@ + m@,
                PipelineError::Busy => "thumbnail generation is already in progress"@,
            },
    {
        match self {
            PipelineError::Decode(m) => String::from_str("decode error: ").concat(m.as_str()),
            PipelineError::Encode(m) => String::from_str("encode error: ").concat(m.as_str()),
            PipelineError::Fetch(FetchClass::Permanent, m) => String::from_str(
                "permanent fetch error: ",
            ).concat(m.as_str()),
            PipelineError::Fetch(FetchClass::Transient, m) => String::from_str(
                "transient fetch error: ",
            ).concat(m.as_str()),
            PipelineError::Resource(m) => String::from_str("resource error: ").concat(m.as_str()),
            PipelineError::Busy => String::from_str("thumbnail generation is already in progress"),
        }
    }
}

} // verus!
