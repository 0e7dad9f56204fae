use vstd::prelude::*;

verus! {

/// Why an invocation of the pipeline produced no payload.
#[derive(Debug, PartialEq, Eq)]
pub enum PipelineError {
    /// The format hint is none of the accepted tokens.
    UnsupportedFormat,
    /// The codec rejected the input buffer for the declared format.
    DecodeFailure { reason: String },
    /// The codec could not serialise the selected raster.
    EncodeFailure { reason: String },
}

/// The mathematical value of a [`PipelineError`]: the same variants, with the
/// reason as a sequence of characters.
pub enum ErrorModel {
    UnsupportedFormat,
    DecodeFailure { reason: Seq<char> },
    EncodeFailure { reason: Seq<char> },
}

impl View for PipelineError {
    type V = ErrorModel;

    open spec fn view(&self) -> ErrorModel {
        match *self {
            PipelineError::UnsupportedFormat => ErrorModel::UnsupportedFormat,
            PipelineError::DecodeFailure { reason } => ErrorModel::DecodeFailure { reason: reason@ },
            PipelineError::EncodeFailure { reason } => ErrorModel::EncodeFailure { reason: reason@ },
        }
    }
}

} // verus!
