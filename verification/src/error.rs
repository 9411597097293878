//! The conditions under which generation fails.

use vstd::prelude::*;
use vstd::string::*;

verus! {

/// Why no project was produced. Each condition is reported as it arose;
/// nothing is retried and no partial project is handed out.
#[derive(Clone, Debug)]
pub enum GenerationError {
    /// The specification cannot be honoured; holds the offending feature tag.
    MalformedSpecification(String),
    /// Input or output could not be encoded or decoded; holds the reason.
    SerializationError(String),
    /// The description analysis could not be reached; holds the reason.
    UpstreamUnavailable(String),
}

/// The view of a [`GenerationError`].
pub ghost enum ErrorModel {
    MalformedSpecification(Seq<char>),
    SerializationError(Seq<char>),
    UpstreamUnavailable(Seq<char>),
}

impl View for GenerationError {
    type V = ErrorModel;

    open spec fn view(&self) -> ErrorModel {
        match self {
            GenerationError::MalformedSpecification(tag) => ErrorModel::MalformedSpecification(
                tag@,
            ),
            GenerationError::SerializationError(reason) => ErrorModel::SerializationError(reason@),
            GenerationError::UpstreamUnavailable(reason) => ErrorModel::UpstreamUnavailable(
                reason@,
            ),
        }
    }
}

/// The sentence that reports `error`.
pub open spec fn error_text(error: ErrorModel) -> Seq<char> {
    match error {
        ErrorModel::MalformedSpecification(tag) => "malformed specification: unknown feature tag "@
            + tag,
        ErrorModel::SerializationError(reason) => "serialization error: "@ + reason,
        ErrorModel::UpstreamUnavailable(reason) => "upstream unavailable: "@ + reason,
    }
}

impl GenerationError {
    /// A sentence that reports the condition.
    pub fn message(&self) -> (text: String)
        ensures
            text@ == error_text(self@),
    {
        let mut text = String::new();
        match self {
            GenerationError::MalformedSpecification(tag) => {
                text.append("malformed specification: unknown feature tag ");
                text.append(tag.as_str());
            },
            GenerationError::SerializationError(reason) => {
                text.append("serialization error: ");
                text.append(reason.as_str());
            },
            GenerationError::UpstreamUnavailable(reason) => {
                text.append("upstream unavailable: ");
                text.append(reason.as_str());
            },
        }
        text
    }
}

} // verus!
