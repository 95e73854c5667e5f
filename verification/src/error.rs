use vstd::prelude::*;

verus! {

/// Why a request to the data layer failed. Each variant carries a message for
/// the operator.
#[derive(Debug, Clone, PartialEq, Eq)]
pub enum DataLayerError {
    /// The caller asked for something that the data layer refuses to do.
    InvalidInput(String),
    /// The database holds, or answered with, something that breaks a rule of
    /// the data layer.
    UnexpectedValue(String),
    /// The Postgres driver reported a failure.
    Postgres(String),
}

impl DataLayerError {
    /// The error is an `InvalidInput` with exactly this message.
    pub open spec fn is_invalid_input(self, text: Seq<char>) -> bool {
        self matches DataLayerError::InvalidInput(message) && message@ == text
    }

    /// The error is an `UnexpectedValue` with exactly this message.
    pub open spec fn is_unexpected_value(self, text: Seq<char>) -> bool {
        self matches DataLayerError::UnexpectedValue(message) && message@ == text
    }

    /// The message that the error carries.
    pub open spec fn text(self) -> Seq<char> {
        match self {
            DataLayerError::InvalidInput(message) => message@,
            DataLayerError::UnexpectedValue(message) => message@,
            DataLayerError::Postgres(message) => message@,
        }
    }

    /// The errors are of one variant and carry the same message.
    pub open spec fn same_error(self, other: DataLayerError) -> bool {
        match self {
            DataLayerError::InvalidInput(message) => other.is_invalid_input(message@),
            DataLayerError::UnexpectedValue(message) => other.is_unexpected_value(message@),
            DataLayerError::Postgres(message) => other matches DataLayerError::Postgres(text)
                && text@ == message@,
        }
    }

    /// Returns the message that the error carries.
    pub fn message(&self) -> (message: &str)
        ensures
            message@ == self.text(),
            match *self {
                DataLayerError::InvalidInput(text) => message@ == text@,
                DataLayerError::UnexpectedValue(text) => message@ == text@,
                DataLayerError::Postgres(text) => message@ == text@,
            },
    {
        match self {
            DataLayerError::InvalidInput(message) => message.as_str(),
            DataLayerError::UnexpectedValue(message) => message.as_str(),
            DataLayerError::Postgres(message) => message.as_str(),
        }
    }
}

/// The results are equal, or both are errors of one variant with the same
/// message.
pub open spec fn same_result<T>(
    a: Result<T, DataLayerError>,
    b: Result<T, DataLayerError>,
) -> bool {
    match (a, b) {
        (Ok(a), Ok(b)) => a == b,
        (Err(a), Err(b)) => a.same_error(b),
        _ => false,
    }
}

/// Builds an `InvalidInput` error from a message.
pub(crate) fn invalid_input(text: &str) -> (error: DataLayerError)
    ensures
        error.is_invalid_input(text@),
{
    DataLayerError::InvalidInput(text.to_string())
}

/// Builds an `UnexpectedValue` error from a message.
pub(crate) fn unexpected_value(text: &str) -> (error: DataLayerError)
    ensures
        error.is_unexpected_value(text@),
{
    DataLayerError::UnexpectedValue(text.to_string())
}

} // verus!
