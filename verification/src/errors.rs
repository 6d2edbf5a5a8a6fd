//! Failures that commands and use cases report.

use vstd::prelude::*;

verus! {

/// The class of a failure.
#[derive(Debug, Clone, Copy, PartialEq, Eq, Structural)]
pub enum ErrorKind {
    /// The command itself is malformed.
    Validation,
    /// The command conflicts with the current state.
    BusinessRule,
    /// The addressed record does not exist.
    NotFound,
}

/// A rejected command: its class, a stable machine code and a message for people.
#[derive(Debug, Clone, PartialEq, Eq)]
pub struct UseCaseError {
    pub kind: ErrorKind,
    pub code: String,
    pub message: String,
}

impl UseCaseError {
    pub fn validation(code: &str, message: &str) -> (r: Self)
        ensures
            r.kind == ErrorKind::Validation,
            r.code@ == code@,
            r.message@ == message@,
    {
        UseCaseError { kind: ErrorKind::Validation, code: String::from_str(code), message: String::from_str(message) }
    }

    pub fn business_rule(code: &str, message: &str) -> (r: Self)
        ensures
            r.kind == ErrorKind::BusinessRule,
            r.code@ == code@,
            r.message@ == message@,
    {
        UseCaseError { kind: ErrorKind::BusinessRule, code: String::from_str(code), message: String::from_str(message) }
    }

    /// The failure's class, code and message.
    pub open spec fn outcome(self) -> (ErrorKind, Seq<char>, Seq<char>) {
        (self.kind, self.code@, self.message@)
    }
}

/// The result is a validation failure with this code and message.
pub open spec fn fails_with<T>(r: Result<T, UseCaseError>, code: Seq<char>, message: Seq<char>) -> bool {
    &&& r is Err
    &&& r->Err_0.kind == ErrorKind::Validation
    &&& r->Err_0.code@ == code
    &&& r->Err_0.message@ == message
}

/// The result is a business-rule failure with this code and message.
pub open spec fn breaks_rule<T>(r: Result<T, UseCaseError>, code: Seq<char>, message: Seq<char>) -> bool {
    &&& r is Err
    &&& r->Err_0.kind == ErrorKind::BusinessRule
    &&& r->Err_0.code@ == code
    &&& r->Err_0.message@ == message
}

} // verus!
