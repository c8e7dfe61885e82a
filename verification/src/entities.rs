//! Entities that the code generator uses: value, block and variable handles,
//! named references with accessor chains, and ABI type descriptors.

use vstd::prelude::*;
use crate::instruction::InstructionInfo;

verus! {

/// An opaque handle to an IR value: a 0-based index into the value table of
/// the block that owns it.  It is meaningful only relative to that block.
#[derive(Clone, Copy, PartialEq, Eq, Structural)]
pub struct Value(pub u32);

/// An opaque handle to an IR block: a 0-based index into the block list of
/// the function (or enclosing block) that owns it.
#[derive(Clone, Copy, PartialEq, Eq, Structural)]
pub struct Block(pub u32);

/// An opaque reference to a function-local variable, usable as a named
/// reference through [`Variable::named`].
#[derive(Clone)]
pub struct Variable(pub String);

impl Variable {
    /// Turns the variable into a named reference with no properties.
    pub fn named(&self) -> (r: Named)
        ensures
            r.name@ == self.0@,
            r.properties@.len() == 0,
    {
        Named::new(self.0.clone())
    }
}

/// An opaque reference to a module-level global variable, usable as a named
/// reference through [`GlobalVariable::named`].
#[derive(Clone)]
pub struct GlobalVariable(pub String);

impl GlobalVariable {
    /// Turns the global variable into a named reference with no properties.
    pub fn named(&self) -> (r: Named)
        ensures
            r.name@ == self.0@,
            r.properties@.len() == 0,
    {
        Named::new(self.0.clone())
    }
}

/// The shape of an ABI type.
#[derive(Clone, Copy, PartialEq, Eq, Structural)]
pub enum Type {
    /// A plain type, such as `int` or `double`.
    Plain,
    /// An array type, such as `int[7]` or `char[]`.  A negative size (by
    /// convention `-1`) marks an implicitly sized array, rendered `[]`.
    Array(isize),
    /// A pointer type, such as `char*` or `int*`.
    Pointer,
}

/// An ABI type: a named type plus a shape.
#[derive(Clone)]
pub struct AbiType(pub Named, pub Type);

/// A named function argument: an argument name plus its ABI type.
#[derive(Clone)]
pub struct AbiParam(pub String, pub AbiType);

/// One accessor in the property chain of a [`Named`] reference.
#[derive(Clone)]
pub enum NamedProperty {
    /// A basic field access, rendered `.field`.
    Basic(String),
    /// A static-scope access (`::member` in other languages).  The C backend
    /// has no rendering for it and reports it as an unsupported construct.
    Static(String),
    /// A pointer field access, rendered `->field`.
    Pointer(String),
    /// An index access, rendered `[value]`; the index is a value handle in
    /// the owning block.
    Index(Value),
}

/// A named reference to an object: a root symbol name followed by an ordered
/// chain of property accessors, applied strictly left to right.
#[derive(Clone)]
pub struct Named {
    /// The name of the first object in the reference.
    pub name: String,
    /// The accessor chain performed on the root name, for example
    /// `name.field->other[index]`.
    pub properties: Vec<NamedProperty>,
}

impl Named {
    /// Creates a named reference with no properties.
    pub fn new(name: String) -> (r: Named)
        ensures
            r.name@ == name@,
            r.properties@.len() == 0,
    {
        Named { name, properties: Vec::new() }
    }

    /// Creates a named reference with the given property chain.
    pub fn new_props(name: String, properties: Vec<NamedProperty>) -> (r: Named)
        ensures
            r.name@ == name@,
            r.properties == properties,
    {
        Named { name, properties }
    }
}

/// One entry of a block's value table.
///
/// Instructions are themselves values, so an expression tree nests
/// `ValueInfo::Instruction` directly as an operand's payload; the emitter
/// renders such a tree in one recursive pass.  Floating-point constants
/// carry the literal's source text, which is all the emitter reads of them.
#[derive(Clone)]
pub enum ValueInfo {
    /// An unsigned 64-bit integer constant.
    IntegerConstant(u64),
    /// A floating point constant, held as its literal text.
    FloatConstant(String),
    /// A double-precision constant, held as its literal text.
    DoubleConstant(String),
    /// A boolean constant.
    BooleanConstant(bool),
    /// A string constant, rendered wrapped in double quotes.
    StringConstant(String),
    /// A character constant, held as its literal text and rendered wrapped
    /// in single quotes.
    CharConstant(String),
    /// A named reference.
    Named(Named),
    /// A value reference to a block, rendered as the block's label.
    Block(Block),
    /// An embedded instruction, rendered as the expression it computes.
    Instruction(InstructionInfo),
}

} // verus!
