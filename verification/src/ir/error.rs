use vstd::prelude::*;

verus! {

/// The kinds of error the IR compiler reports.
#[derive(Debug, Clone, Copy, PartialEq, Eq, Structural)]
pub enum IRErrorKind {
    VariableNotFound,
    TypeError,
    NotImplemented,
    LabelNotFound,
    LabelAlreadyDefined,
    AssignmentRequired,
}

/// An error of the IR compiler: its kind and a human-readable message.
#[derive(Debug, Clone)]
pub struct IRError {
    pub kind: IRErrorKind,
    pub message: String,
}

impl IRError {
    /// An error of the given kind with the given message.
    pub fn new(kind: IRErrorKind, message: &str) -> (e: IRError)
        ensures
            e.kind == kind,
            e.message@ == message@,
    {
        IRError { kind, message: message.to_owned() }
    }

    /// An error of the given kind whose message is already built.
    pub fn with_message(kind: IRErrorKind, message: String) -> (e: IRError)
        ensures
            e.kind == kind,
            e.message@ == message@,
    {
        IRError { kind, message }
    }
}

/// Concatenation of three strings, the middle one usually a name.
pub fn concat3(a: &str, b: &str, c: &str) -> (s: String)
    ensures
        s@ == a@ + b@ + c@,
{
    let mut s = String::from_str(a);
    s.append(b);
    s.append(c);
    s
}

} // verus!
