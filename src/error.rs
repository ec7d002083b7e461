use vstd::prelude::*;
use vstd::string::*;

verus! {

/// Text that does not name a supported operator, kept verbatim.
#[derive(Debug)]
pub struct UnsupportedOperatorError {
    operator: String,
}

impl View for UnsupportedOperatorError {
    type V = Seq<char>;

    /// The offending text.
    closed spec fn view(&self) -> Seq<char> {
        self.operator@
    }
}

/// Builds the error for the given operator text.
pub fn new(operator: String) -> (r: UnsupportedOperatorError)
    ensures
        r@ == operator@,
{
    UnsupportedOperatorError { operator }
}

/// Prefix of the message of an `UnsupportedOperatorError`.
pub open spec fn unsupported_prefix() -> Seq<char> {
    "unsupported operator "@
}

/// Prefix of the message of a `FailedOperationError`.
pub open spec fn failed_prefix() -> Seq<char> {
    "Failed to perform operation: "@
}

impl UnsupportedOperatorError {
    /// The text that was refused.
    pub fn operator(&self) -> (r: &str)
        ensures
            r@ == self@,
    {
        self.operator.as_str()
    }

    /// The message shown to a user: `unsupported operator <text>`.
    pub fn message(&self) -> (r: String)
        ensures
            r@ == unsupported_prefix() + self@,
    {
        String::from_str("unsupported operator ").concat(self.operator.as_str())
    }
}

/// An operation that could not be carried out, with a readable reason.
#[derive(Debug)]
pub struct FailedOperationError {
    pub reason: String,
}

impl FailedOperationError {
    /// The message shown to a user: `Failed to perform operation: <reason>`.
    pub fn message(&self) -> (r: String)
        ensures
            r@ == failed_prefix() + self.reason@,
    {
        String::from_str("Failed to perform operation: ").concat(self.reason.as_str())
    }
}

} // verus!
