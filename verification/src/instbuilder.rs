//! The instruction-building interface over a block: one method per opcode
//! plus value-construction primitives and C-specific ABI type constructors.
//!
//! Every operation appends to the owning block's value table and/or
//! instruction list, returns a fresh handle equal to the table's length
//! before the call, and never invalidates a previously returned handle.
//! No cross-operand checking happens here: operand mismatches surface only
//! at emission.

use vstd::prelude::*;
use crate::entities::{AbiType, Block, Named, NamedProperty, Type, Value, ValueInfo};
use crate::instruction::{InstBlock, InstructionInfo, Opcode};
use crate::instruction::{import_added, inst_appended, is_inst, is_inst_value, value_appended};

verus! {

impl InstBlock {
    /// Appends an expression value with the given opcode and two operands.
    fn push_binary(&mut self, op: Opcode, l: Value, r: Value) -> (v: Value)
        requires
            old(self).values@.len() < u32::MAX,
        ensures
            value_appended(*old(self), *final(self)),
            is_inst_value(final(self).values@.last(), op, seq![l, r]),
            v == Value(old(self).values@.len() as u32),
    {
        let mut args: Vec<Value> = Vec::new();
        args.push(l);
        args.push(r);
        proof {
            assert(args@ =~= seq![l, r]);
        }
        self.create_value(ValueInfo::Instruction(InstructionInfo { opcode: op, arguments: args }))
    }

    /// Appends an expression value with the given opcode and one operand.
    fn push_unary(&mut self, op: Opcode, l: Value) -> (v: Value)
        requires
            old(self).values@.len() < u32::MAX,
        ensures
            value_appended(*old(self), *final(self)),
            is_inst_value(final(self).values@.last(), op, seq![l]),
            v == Value(old(self).values@.len() as u32),
    {
        let mut args: Vec<Value> = Vec::new();
        args.push(l);
        proof {
            assert(args@ =~= seq![l]);
        }
        self.create_value(ValueInfo::Instruction(InstructionInfo { opcode: op, arguments: args }))
    }

    /// Creates an unsigned 64-bit integer constant.
    pub fn iconst_int(&mut self, value: u64) -> (v: Value)
        requires
            old(self).values@.len() < u32::MAX,
        ensures
            value_appended(*old(self), *final(self)),
            final(self).values@.last() == ValueInfo::IntegerConstant(value),
            v == Value(old(self).values@.len() as u32),
    {
        self.create_value(ValueInfo::IntegerConstant(value))
    }

    /// Creates a floating point constant from its literal text.
    pub fn iconst_float(&mut self, value: String) -> (v: Value)
        requires
            old(self).values@.len() < u32::MAX,
        ensures
            value_appended(*old(self), *final(self)),
            final(self).values@.last() == ValueInfo::FloatConstant(value),
            v == Value(old(self).values@.len() as u32),
    {
        self.create_value(ValueInfo::FloatConstant(value))
    }

    /// Creates a double-precision constant from its literal text.
    pub fn iconst_double(&mut self, value: String) -> (v: Value)
        requires
            old(self).values@.len() < u32::MAX,
        ensures
            value_appended(*old(self), *final(self)),
            final(self).values@.last() == ValueInfo::DoubleConstant(value),
            v == Value(old(self).values@.len() as u32),
    {
        self.create_value(ValueInfo::DoubleConstant(value))
    }

    /// Creates a boolean constant.
    pub fn iconst_bool(&mut self, value: bool) -> (v: Value)
        requires
            old(self).values@.len() < u32::MAX,
        ensures
            value_appended(*old(self), *final(self)),
            final(self).values@.last() == ValueInfo::BooleanConstant(value),
            v == Value(old(self).values@.len() as u32),
    {
        self.create_value(ValueInfo::BooleanConstant(value))
    }

    /// Creates a string constant.
    pub fn iconst_str(&mut self, value: String) -> (v: Value)
        requires
            old(self).values@.len() < u32::MAX,
        ensures
            value_appended(*old(self), *final(self)),
            final(self).values@.last() == ValueInfo::StringConstant(value),
            v == Value(old(self).values@.len() as u32),
    {
        self.create_value(ValueInfo::StringConstant(value))
    }

    /// Creates a character constant from its literal text.
    pub fn iconst_char(&mut self, value: String) -> (v: Value)
        requires
            old(self).values@.len() < u32::MAX,
        ensures
            value_appended(*old(self), *final(self)),
            final(self).values@.last() == ValueInfo::CharConstant(value),
            v == Value(old(self).values@.len() as u32),
    {
        self.create_value(ValueInfo::CharConstant(value))
    }

    /// Creates a named reference constant with no properties.
    pub fn iconst_named(&mut self, name: String) -> (v: Value)
        requires
            old(self).values@.len() < u32::MAX,
        ensures
            value_appended(*old(self), *final(self)),
            final(self).values@.last() matches ValueInfo::Named(n)
                && n.name@ == name@ && n.properties@.len() == 0,
            v == Value(old(self).values@.len() as u32),
    {
        self.create_value(ValueInfo::Named(Named::new(name)))
    }

    /// Creates a named reference constant with the given property chain.
    pub fn iconst_named_props(&mut self, name: String, props: Vec<NamedProperty>) -> (v: Value)
        requires
            old(self).values@.len() < u32::MAX,
        ensures
            value_appended(*old(self), *final(self)),
            final(self).values@.last() matches ValueInfo::Named(n)
                && n.name@ == name@ && n.properties == props,
            v == Value(old(self).values@.len() as u32),
    {
        self.create_value(ValueInfo::Named(Named::new_props(name, props)))
    }

    /// Returns a new basic property accessor.
    pub fn iconst_named_property(&self, name: String) -> (r: NamedProperty)
        ensures
            r == NamedProperty::Basic(name),
    {
        NamedProperty::Basic(name)
    }

    /// Returns a new static-scope property accessor.
    pub fn iconst_named_static(&self, name: String) -> (r: NamedProperty)
        ensures
            r == NamedProperty::Static(name),
    {
        NamedProperty::Static(name)
    }

    /// Returns a new pointer property accessor.
    pub fn iconst_named_pointer(&self, name: String) -> (r: NamedProperty)
        ensures
            r == NamedProperty::Pointer(name),
    {
        NamedProperty::Pointer(name)
    }

    /// Returns a new index property accessor.
    pub fn iconst_named_index(&self, name: Value) -> (r: NamedProperty)
        ensures
            r == NamedProperty::Index(name),
    {
        NamedProperty::Index(name)
    }

    /// Creates the C boolean type, requiring the `stdbool.h` import.
    pub fn ctype_bool(&mut self) -> (r: AbiType)
        ensures
            import_added(*old(self), *final(self), "stdbool.h"@),
            r.0.name@ == "bool"@ && r.0.properties@.len() == 0 && r.1 == Type::Plain,
    {
        self.require_import("stdbool.h".to_owned());
        AbiType(Named::new("bool".to_owned()), Type::Plain)
    }

    /// Creates the C 8-bit unsigned integer type, requiring `stdint.h`.
    pub fn ctype_uint8(&mut self) -> (r: AbiType)
        ensures
            import_added(*old(self), *final(self), "stdint.h"@),
            r.0.name@ == "uint8_t"@ && r.0.properties@.len() == 0 && r.1 == Type::Plain,
    {
        self.require_import("stdint.h".to_owned());
        AbiType(Named::new("uint8_t".to_owned()), Type::Plain)
    }

    /// Creates the C 16-bit unsigned integer type, requiring `stdint.h`.
    pub fn ctype_uint16(&mut self) -> (r: AbiType)
        ensures
            import_added(*old(self), *final(self), "stdint.h"@),
            r.0.name@ == "uint16_t"@ && r.0.properties@.len() == 0 && r.1 == Type::Plain,
    {
        self.require_import("stdint.h".to_owned());
        AbiType(Named::new("uint16_t".to_owned()), Type::Plain)
    }

    /// Creates the C 32-bit unsigned integer type, requiring `stdint.h`.
    pub fn ctype_uint32(&mut self) -> (r: AbiType)
        ensures
            import_added(*old(self), *final(self), "stdint.h"@),
            r.0.name@ == "uint32_t"@ && r.0.properties@.len() == 0 && r.1 == Type::Plain,
    {
        self.require_import("stdint.h".to_owned());
        AbiType(Named::new("uint32_t".to_owned()), Type::Plain)
    }

    /// Creates the C 64-bit unsigned integer type, requiring `stdint.h`.
    pub fn ctype_uint64(&mut self) -> (r: AbiType)
        ensures
            import_added(*old(self), *final(self), "stdint.h"@),
            r.0.name@ == "uint64_t"@ && r.0.properties@.len() == 0 && r.1 == Type::Plain,
    {
        self.require_import("stdint.h".to_owned());
        AbiType(Named::new("uint64_t".to_owned()), Type::Plain)
    }

    /// Creates the C unsigned pointer-sized integer type, requiring
    /// `stdint.h`.
    pub fn ctype_usize(&mut self) -> (r: AbiType)
        ensures
            import_added(*old(self), *final(self), "stdint.h"@),
            r.0.name@ == "uintptr"@ && r.0.properties@.len() == 0 && r.1 == Type::Plain,
    {
        self.require_import("stdint.h".to_owned());
        AbiType(Named::new("uintptr".to_owned()), Type::Plain)
    }

    /// Creates the C 8-bit signed integer type, requiring `stdint.h`.
    pub fn ctype_int8(&mut self) -> (r: AbiType)
        ensures
            import_added(*old(self), *final(self), "stdint.h"@),
            r.0.name@ == "int8_t"@ && r.0.properties@.len() == 0 && r.1 == Type::Plain,
    {
        self.require_import("stdint.h".to_owned());
        AbiType(Named::new("int8_t".to_owned()), Type::Plain)
    }

    /// Creates the C 16-bit signed integer type, requiring `stdint.h`.
    pub fn ctype_int16(&mut self) -> (r: AbiType)
        ensures
            import_added(*old(self), *final(self), "stdint.h"@),
            r.0.name@ == "int16_t"@ && r.0.properties@.len() == 0 && r.1 == Type::Plain,
    {
        self.require_import("stdint.h".to_owned());
        AbiType(Named::new("int16_t".to_owned()), Type::Plain)
    }

    /// Creates the C 32-bit signed integer type, requiring `stdint.h`.
    pub fn ctype_int32(&mut self) -> (r: AbiType)
        ensures
            import_added(*old(self), *final(self), "stdint.h"@),
            r.0.name@ == "int32_t"@ && r.0.properties@.len() == 0 && r.1 == Type::Plain,
    {
        self.require_import("stdint.h".to_owned());
        AbiType(Named::new("int32_t".to_owned()), Type::Plain)
    }

    /// Creates the C 64-bit signed integer type, requiring `stdint.h`.
    pub fn ctype_int64(&mut self) -> (r: AbiType)
        ensures
            import_added(*old(self), *final(self), "stdint.h"@),
            r.0.name@ == "int64_t"@ && r.0.properties@.len() == 0 && r.1 == Type::Plain,
    {
        self.require_import("stdint.h".to_owned());
        AbiType(Named::new("int64_t".to_owned()), Type::Plain)
    }

    /// Creates the C signed pointer-sized integer type, requiring
    /// `stdint.h`.
    pub fn ctype_isize(&mut self) -> (r: AbiType)
        ensures
            import_added(*old(self), *final(self), "stdint.h"@),
            r.0.name@ == "intptr"@ && r.0.properties@.len() == 0 && r.1 == Type::Plain,
    {
        self.require_import("stdint.h".to_owned());
        AbiType(Named::new("intptr".to_owned()), Type::Plain)
    }

    /// Creates the C character type.
    pub fn ctype_char(&mut self) -> (r: AbiType)
        ensures
            *final(self) == *old(self),
            r.0.name@ == "char"@ && r.0.properties@.len() == 0 && r.1 == Type::Plain,
    {
        AbiType(Named::new("char".to_owned()), Type::Plain)
    }

    /// Appends an addition expression and returns its handle.
    pub fn iadd(&mut self, l: Value, r: Value) -> (v: Value)
        requires
            old(self).values@.len() < u32::MAX,
        ensures
            value_appended(*old(self), *final(self)),
            is_inst_value(final(self).values@.last(), Opcode::Add, seq![l, r]),
            v == Value(old(self).values@.len() as u32),
    {
        self.push_binary(Opcode::Add, l, r)
    }

    /// Appends a subtraction expression and returns its handle.
    pub fn isub(&mut self, l: Value, r: Value) -> (v: Value)
        requires
            old(self).values@.len() < u32::MAX,
        ensures
            value_appended(*old(self), *final(self)),
            is_inst_value(final(self).values@.last(), Opcode::Sub, seq![l, r]),
            v == Value(old(self).values@.len() as u32),
    {
        self.push_binary(Opcode::Sub, l, r)
    }

    /// Appends a multiplication expression and returns its handle.
    pub fn imul(&mut self, l: Value, r: Value) -> (v: Value)
        requires
            old(self).values@.len() < u32::MAX,
        ensures
            value_appended(*old(self), *final(self)),
            is_inst_value(final(self).values@.last(), Opcode::Mul, seq![l, r]),
            v == Value(old(self).values@.len() as u32),
    {
        self.push_binary(Opcode::Mul, l, r)
    }

    /// Appends a division expression and returns its handle.
    pub fn idiv(&mut self, l: Value, r: Value) -> (v: Value)
        requires
            old(self).values@.len() < u32::MAX,
        ensures
            value_appended(*old(self), *final(self)),
            is_inst_value(final(self).values@.last(), Opcode::Div, seq![l, r]),
            v == Value(old(self).values@.len() as u32),
    {
        self.push_binary(Opcode::Div, l, r)
    }

    /// Appends a remainder expression and returns its handle.
    pub fn imod(&mut self, l: Value, r: Value) -> (v: Value)
        requires
            old(self).values@.len() < u32::MAX,
        ensures
            value_appended(*old(self), *final(self)),
            is_inst_value(final(self).values@.last(), Opcode::Mod, seq![l, r]),
            v == Value(old(self).values@.len() as u32),
    {
        self.push_binary(Opcode::Mod, l, r)
    }

    /// Appends a bitwise AND expression and returns its handle.
    pub fn ibit_and(&mut self, l: Value, r: Value) -> (v: Value)
        requires
            old(self).values@.len() < u32::MAX,
        ensures
            value_appended(*old(self), *final(self)),
            is_inst_value(final(self).values@.last(), Opcode::BitAnd, seq![l, r]),
            v == Value(old(self).values@.len() as u32),
    {
        self.push_binary(Opcode::BitAnd, l, r)
    }

    /// Appends a bitwise OR expression and returns its handle.
    pub fn ibit_or(&mut self, l: Value, r: Value) -> (v: Value)
        requires
            old(self).values@.len() < u32::MAX,
        ensures
            value_appended(*old(self), *final(self)),
            is_inst_value(final(self).values@.last(), Opcode::BitOr, seq![l, r]),
            v == Value(old(self).values@.len() as u32),
    {
        self.push_binary(Opcode::BitOr, l, r)
    }

    /// Appends a bitwise XOR expression and returns its handle.
    pub fn ibit_xor(&mut self, l: Value, r: Value) -> (v: Value)
        requires
            old(self).values@.len() < u32::MAX,
        ensures
            value_appended(*old(self), *final(self)),
            is_inst_value(final(self).values@.last(), Opcode::BitXor, seq![l, r]),
            v == Value(old(self).values@.len() as u32),
    {
        self.push_binary(Opcode::BitXor, l, r)
    }

    /// Appends a bitwise NOT expression and returns its handle.
    pub fn ibit_not(&mut self, l: Value) -> (v: Value)
        requires
            old(self).values@.len() < u32::MAX,
        ensures
            value_appended(*old(self), *final(self)),
            is_inst_value(final(self).values@.last(), Opcode::BitNot, seq![l]),
            v == Value(old(self).values@.len() as u32),
    {
        self.push_unary(Opcode::BitNot, l)
    }

    /// Appends a left shift expression and returns its handle.
    pub fn ibit_left(&mut self, l: Value, r: Value) -> (v: Value)
        requires
            old(self).values@.len() < u32::MAX,
        ensures
            value_appended(*old(self), *final(self)),
            is_inst_value(final(self).values@.last(), Opcode::BitLeft, seq![l, r]),
            v == Value(old(self).values@.len() as u32),
    {
        self.push_binary(Opcode::BitLeft, l, r)
    }

    /// Appends a right shift expression and returns its handle.
    pub fn ibit_right(&mut self, l: Value, r: Value) -> (v: Value)
        requires
            old(self).values@.len() < u32::MAX,
        ensures
            value_appended(*old(self), *final(self)),
            is_inst_value(final(self).values@.last(), Opcode::BitRight, seq![l, r]),
            v == Value(old(self).values@.len() as u32),
    {
        self.push_binary(Opcode::BitRight, l, r)
    }

    /// Appends an equality test expression and returns its handle.
    pub fn itest_eq(&mut self, l: Value, r: Value) -> (v: Value)
        requires
            old(self).values@.len() < u32::MAX,
        ensures
            value_appended(*old(self), *final(self)),
            is_inst_value(final(self).values@.last(), Opcode::TestEq, seq![l, r]),
            v == Value(old(self).values@.len() as u32),
    {
        self.push_binary(Opcode::TestEq, l, r)
    }

    /// Appends an inequality test expression and returns its handle.
    pub fn itest_neq(&mut self, l: Value, r: Value) -> (v: Value)
        requires
            old(self).values@.len() < u32::MAX,
        ensures
            value_appended(*old(self), *final(self)),
            is_inst_value(final(self).values@.last(), Opcode::TestNeq, seq![l, r]),
            v == Value(old(self).values@.len() as u32),
    {
        self.push_binary(Opcode::TestNeq, l, r)
    }

    /// Appends a greater-than test expression and returns its handle.
    pub fn itest_gt(&mut self, l: Value, r: Value) -> (v: Value)
        requires
            old(self).values@.len() < u32::MAX,
        ensures
            value_appended(*old(self), *final(self)),
            is_inst_value(final(self).values@.last(), Opcode::TestGt, seq![l, r]),
            v == Value(old(self).values@.len() as u32),
    {
        self.push_binary(Opcode::TestGt, l, r)
    }

    /// Appends a greater-or-equal test expression and returns its handle.
    pub fn itest_gt_eq(&mut self, l: Value, r: Value) -> (v: Value)
        requires
            old(self).values@.len() < u32::MAX,
        ensures
            value_appended(*old(self), *final(self)),
            is_inst_value(final(self).values@.last(), Opcode::TestGtEq, seq![l, r]),
            v == Value(old(self).values@.len() as u32),
    {
        self.push_binary(Opcode::TestGtEq, l, r)
    }

    /// Appends a less-than test expression and returns its handle.
    pub fn itest_lt(&mut self, l: Value, r: Value) -> (v: Value)
        requires
            old(self).values@.len() < u32::MAX,
        ensures
            value_appended(*old(self), *final(self)),
            is_inst_value(final(self).values@.last(), Opcode::TestLt, seq![l, r]),
            v == Value(old(self).values@.len() as u32),
    {
        self.push_binary(Opcode::TestLt, l, r)
    }

    /// Appends a less-or-equal test expression and returns its handle.
    pub fn itest_lt_eq(&mut self, l: Value, r: Value) -> (v: Value)
        requires
            old(self).values@.len() < u32::MAX,
        ensures
            value_appended(*old(self), *final(self)),
            is_inst_value(final(self).values@.last(), Opcode::TestLtEq, seq![l, r]),
            v == Value(old(self).values@.len() as u32),
    {
        self.push_binary(Opcode::TestLtEq, l, r)
    }

    /// Appends a boolean negation expression and returns its handle.
    pub fn inot(&mut self, l: Value) -> (v: Value)
        requires
            old(self).values@.len() < u32::MAX,
        ensures
            value_appended(*old(self), *final(self)),
            is_inst_value(final(self).values@.last(), Opcode::Not, seq![l]),
            v == Value(old(self).values@.len() as u32),
    {
        self.push_unary(Opcode::Not, l)
    }

    /// Appends a boolean OR expression and returns its handle.
    pub fn ior(&mut self, l: Value, r: Value) -> (v: Value)
        requires
            old(self).values@.len() < u32::MAX,
        ensures
            value_appended(*old(self), *final(self)),
            is_inst_value(final(self).values@.last(), Opcode::Or, seq![l, r]),
            v == Value(old(self).values@.len() as u32),
    {
        self.push_binary(Opcode::Or, l, r)
    }

    /// Appends a boolean AND expression and returns its handle.
    pub fn iand(&mut self, l: Value, r: Value) -> (v: Value)
        requires
            old(self).values@.len() < u32::MAX,
        ensures
            value_appended(*old(self), *final(self)),
            is_inst_value(final(self).values@.last(), Opcode::And, seq![l, r]),
            v == Value(old(self).values@.len() as u32),
    {
        self.push_binary(Opcode::And, l, r)
    }

    /// Appends an unconditional jump to the given block: first a
    /// block-valued entry in the value table, then a `Jmp` instruction
    /// referencing it.
    pub fn jmp(&mut self, block: Block)
        requires
            old(self).values@.len() < u32::MAX,
        ensures
            final(self).values@ == old(self).values@.push(ValueInfo::Block(block)),
            final(self).insts@.len() == old(self).insts@.len() + 1,
            final(self).insts@.take(old(self).insts@.len() as int) == old(self).insts@,
            is_inst(final(self).insts@.last(), Opcode::Jmp,
                seq![Value(old(self).values@.len() as u32)]),
            final(self).block_type == old(self).block_type,
            final(self).elses == old(self).elses,
            final(self).else_block == old(self).else_block,
            final(self).imports == old(self).imports,
            final(self).blocks == old(self).blocks,
    {
        let ghost pre = self.values@;
        let b = self.create_value(ValueInfo::Block(block));
        let mut args: Vec<Value> = Vec::new();
        args.push(b);
        proof {
            assert(args@ =~= seq![b]);
        }
        self.create_inst(InstructionInfo { opcode: Opcode::Jmp, arguments: args });
        proof {
            assert(self.values@ =~= pre.push(ValueInfo::Block(block)));
        }
    }

    /// Uses a named reference as a value.
    pub fn iuse(&mut self, named: Named) -> (v: Value)
        requires
            old(self).values@.len() < u32::MAX,
        ensures
            value_appended(*old(self), *final(self)),
            final(self).values@.last() == ValueInfo::Named(named),
            v == Value(old(self).values@.len() as u32),
    {
        self.create_value(ValueInfo::Named(named))
    }

    /// Appends an assignment statement, rendered with the `=` operator:
    /// `k` becomes the left-hand side, `v` the right-hand side.
    pub fn set(&mut self, k: Value, v: Value)
        ensures
            inst_appended(*old(self), *final(self)),
            is_inst(final(self).insts@.last(), Opcode::Assign, seq![k, v]),
    {
        let mut args: Vec<Value> = Vec::new();
        args.push(k);
        args.push(v);
        proof {
            assert(args@ =~= seq![k, v]);
        }
        self.create_inst(InstructionInfo { opcode: Opcode::Assign, arguments: args });
    }

    /// Appends a call statement whose result is discarded.  Operand 0 is the
    /// callee `k`; the remaining operands are `args` in call order.
    pub fn call(&mut self, k: Value, args: Vec<Value>)
        ensures
            inst_appended(*old(self), *final(self)),
            is_inst(final(self).insts@.last(), Opcode::Call, seq![k] + args@),
    {
        let ops = prepend_callee(k, &args);
        self.create_inst(InstructionInfo { opcode: Opcode::Call, arguments: ops });
    }

    /// Appends a call expression usable as a value.  Operand 0 is the callee
    /// `k`; the remaining operands are `args` in call order.
    pub fn icall(&mut self, k: Value, args: Vec<Value>) -> (v: Value)
        requires
            old(self).values@.len() < u32::MAX,
        ensures
            value_appended(*old(self), *final(self)),
            is_inst_value(final(self).values@.last(), Opcode::Call, seq![k] + args@),
            v == Value(old(self).values@.len() as u32),
    {
        let ops = prepend_callee(k, &args);
        self.create_value(ValueInfo::Instruction(InstructionInfo {
            opcode: Opcode::Call,
            arguments: ops,
        }))
    }

    /// Appends a statement returning `v` from the enclosing function.
    pub fn return_(&mut self, v: Value)
        ensures
            inst_appended(*old(self), *final(self)),
            is_inst(final(self).insts@.last(), Opcode::Ret, seq![v]),
    {
        let mut args: Vec<Value> = Vec::new();
        args.push(v);
        proof {
            assert(args@ =~= seq![v]);
        }
        self.create_inst(InstructionInfo { opcode: Opcode::Ret, arguments: args });
    }

    /// Appends a bare return statement, for functions returning `void`.
    pub fn return_none(&mut self)
        ensures
            inst_appended(*old(self), *final(self)),
            is_inst(final(self).insts@.last(), Opcode::Ret, Seq::empty()),
    {
        let args: Vec<Value> = Vec::new();
        self.create_inst(InstructionInfo { opcode: Opcode::Ret, arguments: args });
    }
}

/// Builds the operand list of a call: the callee followed by the arguments.
fn prepend_callee(k: Value, args: &Vec<Value>) -> (r: Vec<Value>)
    ensures
        r@ == seq![k] + args@,
{
    let mut r: Vec<Value> = Vec::new();
    r.push(k);
    let mut i: usize = 0;
    while i < args.len()
        invariant
            i <= args.len(),
            r@ == seq![k] + args@.take(i as int),
        decreases args.len() - i,
    {
        r.push(args[i]);
        proof {
            assert(seq![k] + args@.take(i as int) + seq![args@[i as int]]
                =~= seq![k] + args@.take(i + 1));
        }
        i += 1;
    }
    proof {
        assert(args@.take(args@.len() as int) =~= args@);
    }
    r
}

} // verus!
