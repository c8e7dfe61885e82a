//! The closed opcode set, the instruction record, and the block that owns a
//! value table and an instruction sequence.

use vstd::prelude::*;
use crate::entities::{Block, Value, ValueInfo};

verus! {

/// The fixed set of operations an instruction can perform.
#[derive(Clone, Copy, PartialEq, Eq, Structural)]
pub enum Opcode {
    Add,
    Sub,
    Mul,
    Div,
    Mod,
    BitAnd,
    BitOr,
    BitXor,
    BitLeft,
    BitRight,
    BitNot,
    TestEq,
    TestNeq,
    TestGt,
    TestGtEq,
    TestLt,
    TestLtEq,
    Not,
    Or,
    And,
    Jmp,
    Assign,
    Call,
    Ret,
}

/// An instruction: an opcode plus its ordered operand handles.
///
/// Arity is fixed per opcode, except `Call`, where operand 0 is the callee
/// and the remainder are the arguments in call order.
#[derive(Clone)]
pub struct InstructionInfo {
    /// The opcode of the instruction.
    pub opcode: Opcode,
    /// The operand handles provided with the instruction.
    pub arguments: Vec<Value>,
}

/// The kind of a block: either conditional on a value, or unconditional.
#[derive(Clone)]
pub enum BlockType {
    /// A conditional block that uses a value as its condition expression.
    If(Value),
    /// A basic block with no condition.
    Basic,
}

/// A block for instruction building.
///
/// A block owns an append-only value table, an append-only instruction
/// sequence and a deduplicated set of required import names.  The
/// conditional structure (`block_type`, `elses`, `else_block`, nested
/// `blocks`) is carried by the model for `if`/`else` lowering but is not
/// consumed by the C emitter today.
pub struct InstBlock {
    /// The kind of the block.
    pub block_type: BlockType,
    /// Else-if blocks attached to a conditional block.
    pub elses: Vec<InstBlock>,
    /// The else block of a conditional block.
    pub else_block: Option<Box<InstBlock>>,
    /// The value table: every value defined in the block, in issuance order.
    pub values: Vec<ValueInfo>,
    /// The instructions of the block, in the order they were appended.
    pub insts: Vec<InstructionInfo>,
    /// The import names the block requires, each held at most once.
    pub imports: Vec<String>,
    /// Nested blocks owned by this block.
    pub blocks: Vec<InstBlock>,
}

/// Holds when `v` is an embedded instruction with the given opcode and
/// operand handles.
pub open spec fn is_inst_value(v: ValueInfo, op: Opcode, args: Seq<Value>) -> bool {
    &&& v matches ValueInfo::Instruction(ii)
    &&& ii.opcode == op
    &&& ii.arguments@ == args
}

/// Holds when `inst` has the given opcode and operand handles.
pub open spec fn is_inst(inst: InstructionInfo, op: Opcode, args: Seq<Value>) -> bool {
    &&& inst.opcode == op
    &&& inst.arguments@ == args
}

/// Holds when `post` is `pre` with exactly one entry appended to the value
/// table and every other field untouched.  Every handle issued before keeps
/// its meaning: the old table is a prefix of the new one.
pub open spec fn value_appended(pre: InstBlock, post: InstBlock) -> bool {
    &&& post.values@.len() == pre.values@.len() + 1
    &&& post.values@.take(pre.values@.len() as int) == pre.values@
    &&& post.block_type == pre.block_type
    &&& post.elses == pre.elses
    &&& post.else_block == pre.else_block
    &&& post.insts == pre.insts
    &&& post.imports == pre.imports
    &&& post.blocks == pre.blocks
}

/// Holds when `post` is `pre` with exactly one instruction appended and
/// every other field untouched.
pub open spec fn inst_appended(pre: InstBlock, post: InstBlock) -> bool {
    &&& post.insts@.len() == pre.insts@.len() + 1
    &&& post.insts@.take(pre.insts@.len() as int) == pre.insts@
    &&& post.block_type == pre.block_type
    &&& post.elses == pre.elses
    &&& post.else_block == pre.else_block
    &&& post.values == pre.values
    &&& post.imports == pre.imports
    &&& post.blocks == pre.blocks
}

/// Holds when `post` is `pre` with the import `name` required: the name is
/// present afterwards, it was appended exactly when it was missing, the list
/// stays free of duplicates, and every other field is untouched.
pub open spec fn import_added(pre: InstBlock, post: InstBlock, name: Seq<char>) -> bool {
    &&& crate::text::has_text(post.imports.deep_view(), name)
    &&& crate::text::has_text(pre.imports.deep_view(), name) ==> post.imports == pre.imports
    &&& !crate::text::has_text(pre.imports.deep_view(), name)
        ==> post.imports.deep_view() == pre.imports.deep_view().push(name)
    &&& crate::text::no_dup_texts(pre.imports.deep_view())
        ==> crate::text::no_dup_texts(post.imports.deep_view())
    &&& post.block_type == pre.block_type
    &&& post.elses == pre.elses
    &&& post.else_block == pre.else_block
    &&& post.values == pre.values
    &&& post.insts == pre.insts
    &&& post.blocks == pre.blocks
}

/// Appending to the value table never invalidates a previously issued
/// handle: every old entry is still there, unchanged, and exactly one entry
/// was added.
pub proof fn lemma_append_preserves_handles(pre: InstBlock, post: InstBlock, i: int)
    requires
        value_appended(pre, post),
        0 <= i < pre.values@.len(),
    ensures
        post.values@.len() == pre.values@.len() + 1,
        post.values@[i] == pre.values@[i],
{
    assert(post.values@.take(pre.values@.len() as int)[i] == post.values@[i]);
}

impl InstBlock {
    /// Adds a required import, unless the block already holds it.  The
    /// import list never holds a name twice.
    pub fn require_import(&mut self, name: String)
        ensures
            import_added(*old(self), *final(self), name@),
    {
        let ghost nv = name@;
        if !crate::text::contains_text(&self.imports, &name) {
            let ghost pre = self.imports.deep_view();
            self.imports.push(name);
            proof {
                assert(self.imports.deep_view() =~= pre.push(nv));
                assert(self.imports.deep_view()[pre.len() as int] == nv);
            }
        }
    }

    /// Defines a value in the block's value table and returns its handle,
    /// which equals the table's length before the call: handles are issued
    /// in 0-based order.
    pub fn create_value(&mut self, value: ValueInfo) -> (v: Value)
        requires
            old(self).values@.len() < u32::MAX,
        ensures
            value_appended(*old(self), *final(self)),
            final(self).values@.last() == value,
            v == Value(old(self).values@.len() as u32),
    {
        let val = Value(self.values.len() as u32);
        let ghost pre = self.values@;
        self.values.push(value);
        proof {
            assert(self.values@.take(pre.len() as int) =~= pre);
        }
        val
    }

    /// Registers a nested block and returns its handle, which equals the
    /// block list's length before the call.
    pub fn create_block(&mut self, block: InstBlock) -> (b: Block)
        requires
            old(self).blocks@.len() < u32::MAX,
        ensures
            final(self).blocks@.len() == old(self).blocks@.len() + 1,
            final(self).blocks@.take(old(self).blocks@.len() as int) == old(self).blocks@,
            final(self).blocks@.last() == block,
            b == Block(old(self).blocks@.len() as u32),
            final(self).block_type == old(self).block_type,
            final(self).elses == old(self).elses,
            final(self).else_block == old(self).else_block,
            final(self).values == old(self).values,
            final(self).insts == old(self).insts,
            final(self).imports == old(self).imports,
    {
        let val = Block(self.blocks.len() as u32);
        let ghost pre = self.blocks@;
        self.blocks.push(block);
        proof {
            assert(self.blocks@.take(pre.len() as int) =~= pre);
        }
        val
    }

    /// Appends an instruction to the block's instruction list.
    pub fn create_inst(&mut self, inst: InstructionInfo)
        ensures
            inst_appended(*old(self), *final(self)),
            final(self).insts@.last() == inst,
    {
        let ghost pre = self.insts@;
        self.insts.push(inst);
        proof {
            assert(self.insts@.take(pre.len() as int) =~= pre);
        }
    }

    /// Borrows the nested block with the given handle for further building.
    pub fn use_block(&mut self, block: Block) -> (ret: &mut InstBlock)
        requires
            block.0 < old(self).blocks@.len(),
        ensures
            *ret == old(self).blocks@[block.0 as int],
            final(self).blocks@ == old(self).blocks@.update(block.0 as int, *final(ret)),
            final(self).block_type == old(self).block_type,
            final(self).elses == old(self).elses,
            final(self).else_block == old(self).else_block,
            final(self).values == old(self).values,
            final(self).insts == old(self).insts,
            final(self).imports == old(self).imports,
    {
        let i = block.0 as usize;
        &mut self.blocks[i]
    }
}

} // verus!
