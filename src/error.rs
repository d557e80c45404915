use vstd::prelude::*;
use vstd::string::StringExecFns;

verus! {

/// The closed set of failures that every layer of the service reports.
#[derive(Clone, Debug, PartialEq, Eq)]
pub enum AppError {
    /// Caller-supplied data broke a validation rule.
    InvalidArgument(String),
    /// A requested entity does not exist.
    NotFound(String),
    /// A technical failure: storage unreachable, corrupted stored data.
    Internal(String),
}

impl AppError {
    /// The text that the error carries.
    pub open spec fn spec_message(&self) -> Seq<char> {
        match self {
            AppError::InvalidArgument(m) => m@,
            AppError::NotFound(m) => m@,
            AppError::Internal(m) => m@,
        }
    }

    /// Returns the text that the error carries.
    pub fn message(&self) -> (r: &str)
        ensures
            r@ == self.spec_message(),
    {
        match self {
            AppError::InvalidArgument(m) => m.as_str(),
            AppError::NotFound(m) => m.as_str(),
            AppError::Internal(m) => m.as_str(),
        }
    }

    /// Whether two errors are of the same kind.
    pub open spec fn same_kind(&self, other: &AppError) -> bool {
        match (self, other) {
            (AppError::InvalidArgument(_), AppError::InvalidArgument(_)) => true,
            (AppError::NotFound(_), AppError::NotFound(_)) => true,
            (AppError::Internal(_), AppError::Internal(_)) => true,
            _ => false,
        }
    }

    /// Adds `context` in front of the message, keeping the kind.
    pub fn context(self, context: &str) -> (r: AppError)
        ensures
            r.same_kind(&self),
            r.spec_message() == context@ + ": "@ + self.spec_message(),
    {
        proof {
            reveal_strlit(": ");
        }
        let text = String::from_str(context).concat(": ");
        match self {
            AppError::InvalidArgument(m) => AppError::InvalidArgument(text.concat(m.as_str())),
            AppError::NotFound(m) => AppError::NotFound(text.concat(m.as_str())),
            AppError::Internal(m) => AppError::Internal(text.concat(m.as_str())),
        }
    }
}

} // verus!
