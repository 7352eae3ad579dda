use vstd::prelude::*;
use vstd::string::*;

verus! {

/// The namespace under which an error code is read.
#[derive(Clone, Copy, Debug, PartialEq, Eq, Structural)]
pub enum ErrorType {
    Invalid,
    Generic,
    MachKernel,
    Posix,
    Expression,
    Win32,
}

/// What an `SBError` reports.
pub struct SBErrorView {
    pub valid: bool,
    pub failure: bool,
    pub code: u32,
    pub kind: ErrorType,
    pub message: Seq<char>,
}

impl SBErrorView {
    /// Bound to an error record that reports success.
    pub open spec fn is_success(self) -> bool {
        self.valid && !self.failure
    }

    /// Bound to an error record that reports failure.
    pub open spec fn is_failure(self) -> bool {
        self.valid && self.failure
    }

    /// The one-line account of this record.
    pub open spec fn summary(self) -> Seq<char> {
        if !self.valid {
            "Invalid SBError"@
        } else if !self.failure {
            "SBError representing success"@
        } else {
            "SBError: "@ + self.message
        }
    }

    /// A failure always carries a message.
    pub open spec fn wf(self) -> bool {
        self.is_failure() ==> self.message.len() > 0
    }
}

/// The outcome of an engine operation: validity, success or failure, a
/// code scoped by its type, and a message.
#[derive(Debug)]
pub struct SBError {
    valid: bool,
    failure: bool,
    code: u32,
    kind: ErrorType,
    message: String,
}

impl View for SBError {
    type V = SBErrorView;

    closed spec fn view(&self) -> SBErrorView {
        SBErrorView {
            valid: self.valid,
            failure: self.failure,
            code: self.code,
            kind: self.kind,
            message: self.message@,
        }
    }
}

impl SBError {
    /// A failure always carries a message.
    #[verifier::type_invariant]
    spec fn inv(&self) -> bool {
        self@.wf()
    }

    /// A fresh error record: valid, and reporting success.
    pub fn new() -> (r: SBError)
        ensures
            r@ == (SBErrorView {
                valid: true,
                failure: false,
                code: 0,
                kind: ErrorType::Invalid,
                message: Seq::empty(),
            }),
            r@.is_success(),
            !r@.is_failure(),
    {
        SBError {
            valid: true,
            failure: false,
            code: 0,
            kind: ErrorType::Invalid,
            message: String::new(),
        }
    }

    /// The error record that an engine call reported.
    pub fn wrap(valid: bool, failure: bool, code: u32, kind: ErrorType, message: String) -> (r:
        SBError)
        requires
            valid && failure ==> message@.len() > 0,
        ensures
            r@ == (SBErrorView { valid, failure, code, kind, message: message@ }),
            r@.wf(),
    {
        SBError { valid, failure, code, kind, message }
    }

    /// The error record an engine call reported, where it is valid.
    pub fn maybe_wrap(valid: bool, failure: bool, code: u32, kind: ErrorType, message: String) -> (r:
        Option<SBError>)
        requires
            valid && failure ==> message@.len() > 0,
        ensures
            r is Some <==> valid,
            r matches Some(e) ==> e@ == (SBErrorView { valid, failure, code, kind, message: message@ }),
    {
        if valid {
            Some(SBError::wrap(valid, failure, code, kind, message))
        } else {
            None
        }
    }

    pub fn is_valid(&self) -> (r: bool)
        ensures
            r == self@.valid,
    {
        self.valid
    }

    /// The message; empty where there is none.
    pub fn error_string(&self) -> (r: &str)
        ensures
            r@ == self@.message,
    {
        self.message.as_str()
    }

    pub fn is_failure(&self) -> (r: bool)
        ensures
            r == self@.is_failure(),
    {
        self.valid && self.failure
    }

    pub fn is_success(&self) -> (r: bool)
        ensures
            r == self@.is_success(),
    {
        self.valid && !self.failure
    }

    /// The error code, to be read under `error_type`.
    pub fn error(&self) -> (r: u32)
        ensures
            r == self@.code,
    {
        self.code
    }

    pub fn error_type(&self) -> (r: ErrorType)
        ensures
            r == self@.kind,
    {
        self.kind
    }

    /// `"Invalid SBError"`, `"SBError representing success"`, or
    /// `"SBError: "` followed by the message of a failure.
    pub fn summary(&self) -> (r: String)
        ensures
            r@ == self@.summary(),
    {
        if !self.valid {
            String::from_str("Invalid SBError")
        } else if !self.failure {
            String::from_str("SBError representing success")
        } else {
            String::from_str("SBError: ").concat(self.message.as_str())
        }
    }

    /// `Ok(())` on success; otherwise the record itself, moved, as the error.
    pub fn into_result(self) -> (r: Result<(), SBError>)
        ensures
            r is Ok <==> self@.is_success(),
            r matches Err(e) ==> e@ == self@ && (e@.is_failure() ==> e@.message.len() > 0),
    {
        proof {
            use_type_invariant(&self);
        }
        if self.is_success() {
            Ok(())
        } else {
            Err(self)
        }
    }
}

impl Clone for SBError {
    /// An independent copy that reports the same as `self`.
    fn clone(&self) -> (r: SBError)
        ensures
            r@ == self@,
    {
        proof {
            use_type_invariant(self);
        }
        SBError {
            valid: self.valid,
            failure: self.failure,
            code: self.code,
            kind: self.kind,
            message: self.message.clone(),
        }
    }
}

impl Default for SBError {
    fn default() -> (r: SBError)
        ensures
            r@.is_success(),
    {
        SBError::new()
    }
}

} // verus!
