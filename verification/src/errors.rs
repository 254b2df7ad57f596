use vstd::prelude::*;
use vstd::string::StringExecFns;

verus! {

/// Default retry count used in the clients.
pub const DEFAULT_RETRY_COUNT: u32 = 5;

/// A uniform error wrapper carrying a human-readable message.
///
/// Every failure of the library is normalized into this one kind; callers can
/// only inspect the message. Distinguishable failures carry distinguishable
/// messages, which the operations' contracts pin down exactly.
pub struct AwsError {
    details: String,
}

impl AwsError {
    /// The message the error carries.
    pub closed spec fn spec_details(self) -> Seq<char> {
        self.details@
    }

    /// Wraps `msg` as an error.
    pub fn new(msg: &str) -> (e: AwsError)
        ensures
            e.spec_details() == msg@,
    {
        AwsError { details: msg.to_owned() }
    }

    /// Wraps a lower-level failure text `detail` behind a fixed `prefix`
    /// describing the failed operation.
    pub fn with_prefix(prefix: &str, detail: &str) -> (e: AwsError)
        ensures
            e.spec_details() == prefix@ + detail@,
    {
        let message: String = prefix.to_owned();
        AwsError { details: message.concat(detail) }
    }

    /// The human-readable message; what a report of the error shows.
    pub fn message(&self) -> (m: &str)
        ensures
            m@ == self.spec_details(),
    {
        self.details.as_str()
    }
}

} // verus!
