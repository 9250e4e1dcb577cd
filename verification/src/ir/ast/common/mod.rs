use vstd::prelude::*;

use crate::ir::ast::types::IRType;

pub mod literal;

verus! {

/// A named value of the IR with its type.
#[derive(Debug)]
pub struct Identifier {
    pub type_: IRType,
    pub name: String,
}

impl Identifier {
    /// An identifier without type information.
    pub fn named(name: &str) -> (id: Identifier)
        ensures
            id.name@ == name@,
            id.type_ == IRType::Untyped,
    {
        Identifier { name: name.to_owned(), type_: IRType::Untyped }
    }
}

impl<'a> From<&'a str> for Identifier {
    fn from(name: &'a str) -> (id: Self)
        ensures
            id.name@ == name@,
            id.type_ == IRType::Untyped,
    {
        Identifier::named(name)
    }
}

impl<'a> vstd::std_specs::convert::FromSpecImpl<&'a str> for Identifier {
    open spec fn obeys_from_spec() -> bool {
        false
    }

    open spec fn from_spec(name: &'a str) -> Self {
        arbitrary()
    }
}

/// An operand of an instruction: a named value or a literal.
#[derive(Debug)]
pub enum Operand {
    Identifier(Identifier),
    Literal(literal::LiteralValue),
}

/// The name of a jump target.
#[derive(Debug)]
pub struct Label {
    pub name: String,
}

impl Label {
    /// A label with the given name.
    pub fn named(name: &str) -> (l: Label)
        ensures
            l.name@ == name@,
    {
        Label { name: name.to_owned() }
    }
}

impl<'a> From<&'a str> for Label {
    fn from(name: &'a str) -> (l: Self)
        ensures
            l.name@ == name@,
    {
        Label::named(name)
    }
}

impl<'a> vstd::std_specs::convert::FromSpecImpl<&'a str> for Label {
    open spec fn obeys_from_spec() -> bool {
        false
    }

    open spec fn from_spec(name: &'a str) -> Self {
        arbitrary()
    }
}

impl<'a> From<&'a str> for Operand {
    fn from(name: &'a str) -> (op: Self)
        ensures
            op matches Operand::Identifier(id) && id.name@ == name@ && id.type_ == IRType::Untyped,
    {
        Operand::Identifier(Identifier::named(name))
    }
}

impl<'a> vstd::std_specs::convert::FromSpecImpl<&'a str> for Operand {
    open spec fn obeys_from_spec() -> bool {
        false
    }

    open spec fn from_spec(name: &'a str) -> Self {
        arbitrary()
    }
}

} // verus!
