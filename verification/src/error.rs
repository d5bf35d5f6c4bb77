//! The two kinds of error the code generator can report.
use vstd::prelude::*;

verus! {

#[derive(Debug)]
pub enum CompilerError {
    UndefinedVariable(String),
    TypeMismatch(String),
}

/// The mathematical form of a compiler error.
pub enum CompErrV {
    UndefinedVariable(Seq<char>),
    TypeMismatch(Seq<char>),
}

impl View for CompilerError {
    type V = CompErrV;

    open spec fn view(&self) -> CompErrV {
        match self {
            CompilerError::UndefinedVariable(name) => CompErrV::UndefinedVariable(name@),
            CompilerError::TypeMismatch(msg) => CompErrV::TypeMismatch(msg@),
        }
    }
}

/// The message shown for an error.
pub open spec fn error_text(e: CompErrV) -> Seq<char> {
    match e {
        CompErrV::UndefinedVariable(name) => "Undefined variable: "@ + name,
        CompErrV::TypeMismatch(msg) => "Type mismatch: "@ + msg,
    }
}

impl CompilerError {
    /// Renders the error as the message the driver writes to its user.
    pub fn to_text(&self) -> (s: String)
        ensures
            s@ == error_text(self@),
    {
        match self {
            CompilerError::UndefinedVariable(name) => {
                let mut s = String::from_str("Undefined variable: ");
                s.append(name.as_str());
                s
            },
            CompilerError::TypeMismatch(msg) => {
                let mut s = String::from_str("Type mismatch: ");
                s.append(msg.as_str());
                s
            },
        }
    }
}

} // verus!
