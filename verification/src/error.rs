//! The ways in which a classification request can fail.

use vstd::prelude::*;

verus! {

/// The part of a request envelope that was missing or malformed.
#[derive(Clone, Copy, Debug, PartialEq, Eq, Structural)]
pub enum RequestField {
    /// The envelope as a whole is not a JSON document.
    Envelope,
    /// The `model_path` member.
    ModelPath,
    /// The `labels_path` member.
    LabelsPath,
    /// The `input` member.
    Input,
}

/// Why a request could not be completed.
///
/// Every error is final: no partial result accompanies it.
#[derive(Clone, Copy, Debug, PartialEq, Eq, Structural)]
pub enum PipelineError {
    /// The base64 payload or the image bytes are malformed.
    Decode,
    /// The requested tensor height and width cannot be produced.
    Shape { height: u32, width: u32 },
    /// A tensor buffer of `length` bytes is not a whole number of 4-byte groups.
    Codec { length: usize },
    /// The engine returned no tensor under the expected output name.
    OutputNotFound,
    /// A class index has no entry in the label table.
    Lookup { index: usize },
    /// The request envelope lacks a member, or the member is not a string.
    MalformedRequest { field: RequestField },
    /// A model or label file could not be read.
    Io,
}

impl PipelineError {
    /// Whether the fault lies in what the client sent, as opposed to the
    /// engine or the machine. Resubmitting such a request unchanged cannot
    /// succeed.
    pub open spec fn spec_is_malformed_input(self) -> bool {
        self is Decode || self is Shape || self is MalformedRequest
    }

    #[verifier::when_used_as_spec(spec_is_malformed_input)]
    pub fn is_malformed_input(self) -> (out: bool)
        ensures
            out == self.spec_is_malformed_input(),
    {
        match self {
            PipelineError::Decode => true,
            PipelineError::Shape { .. } => true,
            PipelineError::MalformedRequest { .. } => true,
            _ => false,
        }
    }
}

} // verus!
