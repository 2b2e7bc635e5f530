//! The errors of the embedding pipeline.
use vstd::prelude::*;

verus! {

/// What went wrong, with a message from the component that failed.
#[derive(Debug)]
pub enum ClipError {
    /// The model or the tokenizer could not be resolved or loaded.
    Construction(String),
    /// An image path does not exist.
    NotFound(String),
    /// Image data is malformed or of an unsupported format.
    Decode(String),
    /// The tokenizer rejected the text.
    Tokenization(String),
    /// A numeric computation on the device failed.
    Compute(String),
}

impl ClipError {
    /// The message carried by the error.
    pub fn message(&self) -> (r: &String)
        ensures
            r == match self {
                ClipError::Construction(m) => m,
                ClipError::NotFound(m) => m,
                ClipError::Decode(m) => m,
                ClipError::Tokenization(m) => m,
                ClipError::Compute(m) => m,
            },
    {
        match self {
            ClipError::Construction(m) => m,
            ClipError::NotFound(m) => m,
            ClipError::Decode(m) => m,
            ClipError::Tokenization(m) => m,
            ClipError::Compute(m) => m,
        }
    }
}

/// Relies on the `Display` impl of `candle_core::Error` for its message.
#[verifier::external_body]
pub(crate) fn candle_message(e: &candle_core::Error) -> (r: String) {
    e.to_string()
}

/// A failed tensor or model operation.
pub fn compute_error(e: &candle_core::Error) -> (r: ClipError)
    ensures
        r is Compute,
{
    ClipError::Compute(candle_message(e))
}

} // verus!
