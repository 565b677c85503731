use vstd::prelude::*;

verus! {

/// Every way a request can end without a color: a missing query parameter,
/// the two fetch failures, a decode failure, and the two cache-store
/// failures. All are terminal for the request; none is retried.
#[derive(Clone, Copy, PartialEq, Eq, Structural, Debug)]
pub enum PipelineError {
    MissingParameter,
    FetchNotFound,
    FetchTransportError,
    DecodeError,
    CacheReadError,
    CacheWriteError,
}

/// The message reported for each error in the JSON error body.
pub open spec fn error_message_spec(e: PipelineError) -> Seq<char> {
    match e {
        PipelineError::MissingParameter => "missing img query parameter"@,
        PipelineError::FetchNotFound => "image not found at origin"@,
        PipelineError::FetchTransportError => "failed to fetch image"@,
        PipelineError::DecodeError => "failed to decode image"@,
        PipelineError::CacheReadError => "failed to read color cache"@,
        PipelineError::CacheWriteError => "failed to write color cache"@,
    }
}

impl PipelineError {
    /// The human-readable message carried in the error response.
    pub fn message(&self) -> (r: String)
        ensures
            r@ == error_message_spec(*self),
    {
        match self {
            PipelineError::MissingParameter => String::from_str("missing img query parameter"),
            PipelineError::FetchNotFound => String::from_str("image not found at origin"),
            PipelineError::FetchTransportError => String::from_str("failed to fetch image"),
            PipelineError::DecodeError => String::from_str("failed to decode image"),
            PipelineError::CacheReadError => String::from_str("failed to read color cache"),
            PipelineError::CacheWriteError => String::from_str("failed to write color cache"),
        }
    }
}

} // verus!
