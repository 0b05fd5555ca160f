use vstd::prelude::*;

verus! {

/// The reasons a builder's terminal `build` call can fail. Every variant is a
/// final, non-retryable validation or serialization failure.
#[derive(Debug, Clone)]
pub enum MessageBuilderError {
    /// No body could be derived at all. Reserved; no current builder returns it.
    MissingBody,
    /// Encoding a body record failed. Indicates an internal fault, not bad input.
    SerializationError,
    /// A key-sharing build was attempted with zero keys.
    MissingKey,
    /// A direct-message build was attempted with no content set.
    MissingMessage,
    /// A media-sharing build was attempted with zero media items of either kind.
    MissingMediaItem,
}

impl MessageBuilderError {
    /// The human-readable description of this error.
    pub open spec fn text(&self) -> Seq<char> {
        match self {
            MessageBuilderError::MissingBody => "Missing body in the message"@,
            MessageBuilderError::SerializationError => "Error during message serialization"@,
            MessageBuilderError::MissingKey => "Missing at least one key in the message"@,
            MessageBuilderError::MissingMessage => "Missing message content"@,
            MessageBuilderError::MissingMediaItem => "Missing media item"@,
        }
    }

    /// Renders the error as its human-readable description.
    pub fn message(&self) -> (r: String)
        ensures
            r@ == self.text(),
    {
        match self {
            MessageBuilderError::MissingBody => "Missing body in the message".to_string(),
            MessageBuilderError::SerializationError => "Error during message serialization".to_string(),
            MessageBuilderError::MissingKey => "Missing at least one key in the message".to_string(),
            MessageBuilderError::MissingMessage => "Missing message content".to_string(),
            MessageBuilderError::MissingMediaItem => "Missing media item".to_string(),
        }
    }
}

} // verus!
