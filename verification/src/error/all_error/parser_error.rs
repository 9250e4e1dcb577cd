use vstd::prelude::*;

use crate::strings::{append_signed_decimal, spec_signed_decimal};

verus! {

/// An error of the parser: a message and the identifier of the place that raised it.
#[derive(Debug, Clone, PartialEq, Eq, Hash)]
pub struct ParserError {
    pub message: String,
    pub uid: i32,
}

impl ParserError {
    /// A parser error with the given identifier and message.
    pub fn new(uid: i32, message: String) -> (e: Self)
        ensures
            e.uid == uid,
            e.message@ == message@,
    {
        ParserError { message, uid }
    }

    /// The text of the error: `Parser error: <message> (<uid>)`.
    pub fn to_string(&self) -> (s: String)
        ensures
            s@ == "Parser error: "@ + self.message@ + " ("@ + spec_signed_decimal(self.uid as int)
                + ")"@,
    {
        let mut s = String::from_str("Parser error: ");
        s.append(self.message.as_str());
        s.append(" (");
        append_signed_decimal(&mut s, self.uid);
        s.append(")");
        s
    }
}

} // verus!
