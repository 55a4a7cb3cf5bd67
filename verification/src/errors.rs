//! The error channel of the operator. Every failure surfaces immediately as
//! one tagged variant carrying a human-readable description; callers at the
//! plan boundary see a single uniform execution error, while the tags keep
//! the cause precise.

use vstd::prelude::*;
use vstd::string::*;

verus! {

/// Everything `execute` and the other plan-node operations can fail with.
///
/// Grafting children onto the leaf raises `UnsupportedOperation`; a partition
/// index outside the declared range raises `IndexOutOfRange` before any
/// network contact; a failure to reach or to read from the remote worker is
/// wrapped, unretried, as `Connect` or `Fetch`, both of which count as
/// remote-execution failures at the plan boundary.
#[derive(Clone, Debug)]
pub enum ExecutionError {
    UnsupportedOperation { message: String, cause: Option<String> },
    IndexOutOfRange { requested: usize, available: usize },
    Connect { message: String, cause: Option<String> },
    Fetch { message: String, cause: Option<String> },
}

/// The rendered form of a message with its optional underlying cause.
pub open spec fn with_cause(message: Seq<char>, cause: Option<String>) -> Seq<char> {
    match cause {
        Option::None => message,
        Option::Some(c) => message + ": "@ + c@,
    }
}

impl ExecutionError {
    /// True of the variants that wrap a connection or fetch failure: the
    /// failures a caller sees as one uniform remote-execution error.
    pub open spec fn spec_is_remote(self) -> bool {
        self is Connect || self is Fetch
    }

    /// Whether this error reports a remote-execution failure.
    pub fn is_remote_execution(&self) -> (r: bool)
        ensures
            r == self.spec_is_remote(),
    {
        match self {
            ExecutionError::Connect { .. } => true,
            ExecutionError::Fetch { .. } => true,
            _ => false,
        }
    }

    /// The full text of this error: its message followed, when a cause was
    /// recorded, by the underlying cause.
    pub open spec fn rendered(self) -> Seq<char> {
        match self {
            ExecutionError::UnsupportedOperation { message, cause } => with_cause(message@, cause),
            ExecutionError::IndexOutOfRange { .. } => "partition index out of range"@,
            ExecutionError::Connect { message, cause } => with_cause(message@, cause),
            ExecutionError::Fetch { message, cause } => with_cause(message@, cause),
        }
    }

    /// Renders this error as text.
    pub fn describe(&self) -> (r: String)
        ensures
            r@ == self.rendered(),
    {
        match self {
            ExecutionError::UnsupportedOperation { message, cause } => render(message, cause),
            ExecutionError::IndexOutOfRange { .. } => String::from_str(
                "partition index out of range",
            ),
            ExecutionError::Connect { message, cause } => render(message, cause),
            ExecutionError::Fetch { message, cause } => render(message, cause),
        }
    }
}

/// Joins a message with its optional cause, as `rendered` states.
fn render(message: &String, cause: &Option<String>) -> (r: String)
    ensures
        r@ == with_cause(message@, *cause),
{
    match cause {
        Option::None => message.clone(),
        Option::Some(c) => message.clone().concat(": ").concat(c.as_str()),
    }
}

} // verus!
