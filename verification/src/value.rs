//! The value tree the serializer consumes.
//!
//! A node mirrors, one for one, what a self-describing traversal of a value
//! reports: a scalar with its exact width, an option, a growable sequence, a
//! fixed-length group whose target shape (array or tuple) is decided only by
//! the host compiler, a map, or a named record or variant.  Names carried by
//! nodes must be valid host identifiers in scope where the emitted text is
//! compiled; the serializer does not check this, by design.

use vstd::prelude::*;

verus! {

/// One node of the value tree.
///
/// Floating-point nodes carry the decimal rendering of their value rather
/// than the number itself: the verified core works on plain text, and the
/// caller renders the float before handing the node over.
pub enum Value {
    Bool(bool),
    I8(i8),
    I16(i16),
    I32(i32),
    I64(i64),
    I128(i128),
    U8(u8),
    U16(u16),
    U32(u32),
    U64(u64),
    U128(u128),
    /// A 32-bit float, as the decimal text of its value.
    F32(String),
    /// A 64-bit float, as the decimal text of its value.
    F64(String),
    Char(char),
    Str(String),
    Bytes(Vec<u8>),
    NoneVal,
    SomeVal(Box<Value>),
    Unit,
    /// A unit struct, by name.
    UnitStruct(String),
    /// A unit variant: enum name, then variant name.
    UnitVariant(String, String),
    /// A newtype struct: name, then the single inner value.
    NewtypeStruct(String, Box<Value>),
    /// A newtype variant: enum name, variant name, inner value.
    NewtypeVariant(String, String, Box<Value>),
    /// A growable sequence of elements.
    Sequence(Vec<Value>),
    /// A fixed-length group whose target shape is resolved at host-compile
    /// time: a homogeneous array or a heterogeneous tuple.
    Tuple(Vec<Value>),
    /// A tuple struct: name, then the elements.
    TupleStruct(String, Vec<Value>),
    /// A tuple variant: enum name, variant name, elements.
    TupleVariant(String, String, Vec<Value>),
    /// A map, as ordered key-value entries.
    Mapping(Vec<(Value, Value)>),
    /// A struct: name, then fields as (field name, value) in declaration
    /// order.
    Struct(String, Vec<(String, Value)>),
    /// A struct variant: enum name, variant name, then fields.
    StructVariant(String, String, Vec<(String, Value)>),
}

} // verus!
