use vstd::prelude::*;

verus! {

/// What went wrong, by category.
#[derive(Debug, Clone, Copy, PartialEq, Eq, Structural)]
pub enum ErrorKind {
    Unimplemented,
    SyntaxException,
    SemanticError,
    StorageOther,
    Internal,
    BadArguments,
    InvalidArgument,
    NotYetImplemented,
    ExternalFormat,
    PermissionDenied,
    LogicalError,
    CloudControlNotEnabled,
}

/// An error: its category and a message for the user.
#[derive(Debug, Clone, PartialEq, Eq)]
pub struct ErrorCode {
    pub kind: ErrorKind,
    pub message: String,
}

impl View for ErrorCode {
    type V = (ErrorKind, Seq<char>);

    open spec fn view(&self) -> (ErrorKind, Seq<char>) {
        (self.kind, self.message@)
    }
}

impl ErrorCode {
    pub fn new(kind: ErrorKind, message: String) -> (e: ErrorCode)
        ensures
            e@ == (kind, message@),
    {
        ErrorCode { kind, message }
    }
}

} // verus!
