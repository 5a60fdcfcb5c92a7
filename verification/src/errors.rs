use vstd::prelude::*;

verus! {

/// The error value a flow run can end with.
///
/// Configuration errors (a broken definition) are fatal: they are never
/// retried and never caught by a step's failure fallback. Operational
/// errors are recoverable: a step's non-empty fallback list catches them.
#[derive(Clone, Copy, Debug, PartialEq, Eq, Structural)]
pub enum FlowError {
    /// An AbortFlow step was executed.
    Aborted,
    /// A Notify step named a notifier that the flow does not declare.
    MissingNotifier,
    /// A CompareVar step asked for a comparison kind other than equality.
    UnsupportedComparison,
    /// A text-extraction pattern is not a valid regular expression.
    InvalidPattern,
    /// A step needed an input variable that is not set, or there is no
    /// previous output to fall back on.
    MissingInput,
    /// The extraction pattern matched nothing, or had no first capture group.
    NoCapture,
    /// An external operation (HTTP, file, notification delivery) failed
    /// after its retry budget was exhausted.
    OperationFailed,
}

impl FlowError {
    /// Fatal errors mark a broken flow definition: they skip every
    /// per-step failure fallback.
    pub open spec fn spec_is_fatal(&self) -> bool {
        match self {
            FlowError::MissingNotifier => true,
            FlowError::UnsupportedComparison => true,
            FlowError::InvalidPattern => true,
            FlowError::MissingInput => true,
            _ => false,
        }
    }

    #[verifier::when_used_as_spec(spec_is_fatal)]
    pub fn is_fatal(&self) -> (r: bool)
        ensures
            r == self.spec_is_fatal(),
    {
        match self {
            FlowError::MissingNotifier => true,
            FlowError::UnsupportedComparison => true,
            FlowError::InvalidPattern => true,
            FlowError::MissingInput => true,
            _ => false,
        }
    }

    /// A short description, for the embedding program's logs.
    pub fn describe(&self) -> &'static str {
        match self {
            FlowError::Aborted => "flow aborted",
            FlowError::MissingNotifier => "no notifier found with the specified name",
            FlowError::UnsupportedComparison => "unsupported comparison type",
            FlowError::InvalidPattern => "error creating regex from input",
            FlowError::MissingInput => "no input available",
            FlowError::NoCapture => "text not found in text extractor",
            FlowError::OperationFailed => "operation failed",
        }
    }
}

/// A fatal error found while building a flow's notifier set.
#[derive(Clone, Copy, Debug, PartialEq, Eq, Structural)]
pub enum ConfigError {
    /// A notifier config names a type other than "print" or "telegram".
    InvalidNotifierType,
    /// A telegram notifier config without a token.
    MissingToken,
    /// A telegram notifier config without a chat id.
    MissingChatId,
    /// A telegram chat id that is not a signed 64-bit integer.
    InvalidChatId,
}

impl ConfigError {
    /// A short description, for the embedding program's logs.
    pub fn describe(&self) -> &'static str {
        match self {
            ConfigError::InvalidNotifierType => "invalid notifier type found",
            ConfigError::MissingToken => "telegram notifier without token",
            ConfigError::MissingChatId => "telegram notifier without chat id",
            ConfigError::InvalidChatId => "invalid chat id",
        }
    }
}

} // verus!
