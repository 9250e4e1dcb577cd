use vstd::prelude::*;

verus! {

/// The type system of the IR.
#[derive(Debug, PartialEq, Eq, Hash)]
pub enum IRType {
    Primitive(IRPrimitiveType),
    Custom(IRCustomType),
    /// No type information (treated as a 64-bit integer by arithmetic).
    Untyped,
}

/// A user-defined type (struct, class and the like).
#[derive(Debug, Clone, PartialEq, Eq, Hash)]
pub struct IRCustomType {
    pub name: String,
}

/// The primitive types of the IR.
#[derive(Debug, PartialEq, Eq, Hash)]
pub enum IRPrimitiveType {
    Int8,
    Int16,
    Int32,
    Int64,
    UInt8,
    UInt16,
    UInt32,
    UInt64,
    Float32,
    Float64,
    /// One byte.
    Bool,
    /// A pointer to a value of the inner type.
    Pointer(Box<IRType>),
    /// No value.
    Void,
}

impl IRPrimitiveType {
    /// Size in bytes of a value of the type.
    pub open spec fn spec_size(&self) -> nat {
        match self {
            IRPrimitiveType::Int8 | IRPrimitiveType::UInt8 | IRPrimitiveType::Bool => 1,
            IRPrimitiveType::Int16 | IRPrimitiveType::UInt16 => 2,
            IRPrimitiveType::Int32 | IRPrimitiveType::UInt32 | IRPrimitiveType::Float32 => 4,
            IRPrimitiveType::Int64 | IRPrimitiveType::UInt64 | IRPrimitiveType::Float64 => 8,
            IRPrimitiveType::Pointer(_) => 8,
            IRPrimitiveType::Void => 0,
        }
    }

    /// Signed and unsigned integers of 8 to 64 bits.
    pub open spec fn spec_is_integer(&self) -> bool {
        match self {
            IRPrimitiveType::Int8 | IRPrimitiveType::Int16 | IRPrimitiveType::Int32
            | IRPrimitiveType::Int64 | IRPrimitiveType::UInt8 | IRPrimitiveType::UInt16
            | IRPrimitiveType::UInt32 | IRPrimitiveType::UInt64 => true,
            _ => false,
        }
    }

    /// Signed integers.
    pub open spec fn spec_is_signed(&self) -> bool {
        match self {
            IRPrimitiveType::Int8 | IRPrimitiveType::Int16 | IRPrimitiveType::Int32
            | IRPrimitiveType::Int64 => true,
            _ => false,
        }
    }

    /// Floating-point types.
    pub open spec fn spec_is_float(&self) -> bool {
        self is Float32 || self is Float64
    }

    /// Returns the size in bytes of a value of the type.
    pub fn size_in_bytes(&self) -> (n: usize)
        ensures
            n == self.spec_size(),
            n <= 8,
    {
        match self {
            IRPrimitiveType::Int8 | IRPrimitiveType::UInt8 | IRPrimitiveType::Bool => 1,
            IRPrimitiveType::Int16 | IRPrimitiveType::UInt16 => 2,
            IRPrimitiveType::Int32 | IRPrimitiveType::UInt32 | IRPrimitiveType::Float32 => 4,
            IRPrimitiveType::Int64 | IRPrimitiveType::UInt64 | IRPrimitiveType::Float64 => 8,
            IRPrimitiveType::Pointer(_) => 8,
            IRPrimitiveType::Void => 0,
        }
    }

    /// Whether the type is an integer type.
    pub fn is_integer(&self) -> (b: bool)
        ensures
            b == self.spec_is_integer(),
    {
        match self {
            IRPrimitiveType::Int8 | IRPrimitiveType::Int16 | IRPrimitiveType::Int32
            | IRPrimitiveType::Int64 | IRPrimitiveType::UInt8 | IRPrimitiveType::UInt16
            | IRPrimitiveType::UInt32 | IRPrimitiveType::UInt64 => true,
            _ => false,
        }
    }

    /// Whether the type is a signed integer type.
    pub fn is_signed(&self) -> (b: bool)
        ensures
            b == self.spec_is_signed(),
    {
        match self {
            IRPrimitiveType::Int8 | IRPrimitiveType::Int16 | IRPrimitiveType::Int32
            | IRPrimitiveType::Int64 => true,
            _ => false,
        }
    }

    /// Whether the type is a floating-point type.
    pub fn is_float(&self) -> (b: bool)
        ensures
            b == self.spec_is_float(),
    {
        match self {
            IRPrimitiveType::Float32 | IRPrimitiveType::Float64 => true,
            _ => false,
        }
    }

    /// Whether the type is a pointer type.
    pub fn is_pointer(&self) -> (b: bool)
        ensures
            b == (self is Pointer),
    {
        match self {
            IRPrimitiveType::Pointer(_) => true,
            _ => false,
        }
    }

    /// The textual form of the type ("i64", "*i32", ...).
    pub open spec fn spec_to_string(&self) -> Seq<char>
        decreases self,
    {
        match self {
            IRPrimitiveType::Int8 => "i8"@,
            IRPrimitiveType::Int16 => "i16"@,
            IRPrimitiveType::Int32 => "i32"@,
            IRPrimitiveType::Int64 => "i64"@,
            IRPrimitiveType::UInt8 => "u8"@,
            IRPrimitiveType::UInt16 => "u16"@,
            IRPrimitiveType::UInt32 => "u32"@,
            IRPrimitiveType::UInt64 => "u64"@,
            IRPrimitiveType::Float32 => "f32"@,
            IRPrimitiveType::Float64 => "f64"@,
            IRPrimitiveType::Bool => "bool"@,
            IRPrimitiveType::Pointer(inner) => "*"@ + inner.spec_to_string(),
            IRPrimitiveType::Void => "void"@,
        }
    }

    /// Returns the textual form of the type.
    pub fn type_to_string(&self) -> (s: String)
        ensures
            s@ == self.spec_to_string(),
        decreases self,
    {
        match self {
            IRPrimitiveType::Int8 => String::from_str("i8"),
            IRPrimitiveType::Int16 => String::from_str("i16"),
            IRPrimitiveType::Int32 => String::from_str("i32"),
            IRPrimitiveType::Int64 => String::from_str("i64"),
            IRPrimitiveType::UInt8 => String::from_str("u8"),
            IRPrimitiveType::UInt16 => String::from_str("u16"),
            IRPrimitiveType::UInt32 => String::from_str("u32"),
            IRPrimitiveType::UInt64 => String::from_str("u64"),
            IRPrimitiveType::Float32 => String::from_str("f32"),
            IRPrimitiveType::Float64 => String::from_str("f64"),
            IRPrimitiveType::Bool => String::from_str("bool"),
            IRPrimitiveType::Pointer(inner) => {
                let inner_text = inner.type_to_string();
                let mut s = String::from_str("*");
                s.append(inner_text.as_str());
                s
            },
            IRPrimitiveType::Void => String::from_str("void"),
        }
    }
}

impl IRType {
    /// The textual form of the type.
    pub open spec fn spec_to_string(&self) -> Seq<char>
        decreases self,
    {
        match self {
            IRType::Primitive(prim) => prim.spec_to_string(),
            IRType::Custom(custom) => custom.name@,
            IRType::Untyped => "untyped"@,
        }
    }

    /// Returns the textual form of the type.
    pub fn type_to_string(&self) -> (s: String)
        ensures
            s@ == self.spec_to_string(),
        decreases self,
    {
        match self {
            IRType::Primitive(prim) => prim.type_to_string(),
            IRType::Custom(custom) => custom.name.clone(),
            IRType::Untyped => String::from_str("untyped"),
        }
    }
}

/// The classification predicates of primitive types are consistent: signed types are
/// integers, no type is two of integer, float and pointer, and integer sizes are powers of two.
pub proof fn lemma_primitive_type_classes(t: IRPrimitiveType)
    ensures
        t.spec_is_signed() ==> t.spec_is_integer(),
        !(t.spec_is_integer() && t.spec_is_float()),
        !(t.spec_is_integer() && t is Pointer),
        !(t.spec_is_float() && t is Pointer),
        t.spec_is_integer() ==> (t.spec_size() == 1 || t.spec_size() == 2 || t.spec_size() == 4
            || t.spec_size() == 8),
        t.spec_is_float() ==> (t.spec_size() == 4 || t.spec_size() == 8),
        t.spec_size() == 0 <==> t is Void,
{
}

} // verus!
