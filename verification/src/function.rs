//! Function declarations and definitions: a named signature, declared
//! variables, and an ordered list of blocks.

use vstd::prelude::*;
use crate::entities::{AbiParam, AbiType, Block, Named, Type, Variable};
use crate::instruction::{BlockType, InstBlock};

verus! {

/// A function: a name, a signature, name-keyed declared variables, and an
/// ordered list of blocks that store its instructions.
pub struct Function {
    /// The variables declared in the function, each name held once, in
    /// declaration order.
    pub variables: Vec<(String, AbiType)>,
    /// The blocks that store the function's instructions, in declaration
    /// order.
    pub blocks: Vec<InstBlock>,
    /// The name of the function.
    pub name: String,
    /// The signature of the function.
    pub signature: FunctionSignature,
}

/// A function signature: the ordered argument types and the return type.
pub struct FunctionSignature {
    /// The named arguments of the function, in order.
    pub arguments: Vec<AbiParam>,
    /// The return type of the function.  Defaults to `void`.
    pub returns: AbiType,
}

/// Holds when `t` is the plain `void` type.
pub open spec fn is_void(t: AbiType) -> bool {
    &&& t.0.name@ == "void"@
    &&& t.0.properties@.len() == 0
    &&& t.1 == Type::Plain
}

/// Holds when no name is keyed twice in `entries`.
pub open spec fn keys_distinct(entries: Seq<(String, AbiType)>) -> bool {
    forall|i: int, j: int|
        0 <= i < j < entries.len() ==> (#[trigger] entries[i]).0@ != (#[trigger] entries[j]).0@
}

/// Holds when `post` is `pre` with `entry` bound to its name: replacing the
/// first entry of the same name if there is one, appended otherwise.
pub open spec fn upserted(
    pre: Seq<(String, AbiType)>,
    post: Seq<(String, AbiType)>,
    entry: (String, AbiType),
) -> bool {
    &&& (forall|j: int| 0 <= j < pre.len() ==> (#[trigger] pre[j]).0@ != entry.0@)
        ==> post == pre.push(entry)
    &&& forall|j: int|
        (0 <= j < pre.len() && (#[trigger] pre[j]).0@ == entry.0@
            && (forall|m: int| 0 <= m < j ==> (#[trigger] pre[m]).0@ != entry.0@))
            ==> post == pre.update(j, entry)
}

/// Finds the first entry keyed by `name`, if any.
pub(crate) fn find_key(entries: &Vec<(String, AbiType)>, name: &String) -> (r: Option<usize>)
    ensures
        match r {
            Some(i) => i < entries@.len() && entries@[i as int].0@ == name@
                && forall|m: int| 0 <= m < i ==> (#[trigger] entries@[m]).0@ != name@,
            None => forall|m: int|
                0 <= m < entries@.len() ==> (#[trigger] entries@[m]).0@ != name@,
        },
{
    let mut i: usize = 0;
    while i < entries.len()
        invariant
            i <= entries.len(),
            forall|m: int| 0 <= m < i ==> (#[trigger] entries@[m]).0@ != name@,
        decreases entries.len() - i,
    {
        if entries[i].0.eq(name) {
            return Some(i);
        }
        i += 1;
    }
    None
}

/// Binds `name` to `val` in `entries`: replaces the first entry of that name
/// or appends a new one, keeping declaration order and key uniqueness.
pub(crate) fn upsert_key(entries: &mut Vec<(String, AbiType)>, name: String, val: AbiType)
    ensures
        upserted(old(entries)@, final(entries)@, (name, val)),
        keys_distinct(old(entries)@) ==> keys_distinct(final(entries)@),
{
    match find_key(entries, &name) {
        Some(i) => {
            entries[i] = (name, val);
        },
        None => {
            entries.push((name, val));
        },
    }
}

impl FunctionSignature {
    /// Creates an empty signature: no arguments, returning `void`.
    pub fn new() -> (r: FunctionSignature)
        ensures
            r.arguments@.len() == 0,
            is_void(r.returns),
    {
        FunctionSignature {
            arguments: Vec::new(),
            returns: AbiType(Named::new("void".to_owned()), Type::Plain),
        }
    }
}

impl Function {
    /// Creates a new function with the given name and signature, with no
    /// variables and no blocks.
    pub fn new(name: String, sig: FunctionSignature) -> (r: Function)
        ensures
            r.name@ == name@,
            r.signature == sig,
            r.variables@.len() == 0,
            r.blocks@.len() == 0,
    {
        Function { name, signature: sig, variables: Vec::new(), blocks: Vec::new() }
    }

    /// Declares a variable, hoisted to the start of the function when the
    /// function is emitted.  A redeclared name replaces the earlier type and
    /// keeps its position; the declared names stay pairwise distinct.
    pub fn declare_var(&mut self, name: String, var_type: AbiType) -> (v: Variable)
        ensures
            v.0@ == name@,
            upserted(old(self).variables@, final(self).variables@, (name, var_type)),
            keys_distinct(old(self).variables@) ==> keys_distinct(final(self).variables@),
            final(self).blocks == old(self).blocks,
            final(self).name == old(self).name,
            final(self).signature == old(self).signature,
    {
        let val = Variable(name.clone());
        upsert_key(&mut self.variables, name, var_type);
        val
    }

    /// Borrows the block with the given handle for further building.
    pub fn use_block(&mut self, block: Block) -> (ret: &mut InstBlock)
        requires
            block.0 < old(self).blocks@.len(),
        ensures
            *ret == old(self).blocks@[block.0 as int],
            final(self).blocks@ == old(self).blocks@.update(block.0 as int, *final(ret)),
            final(self).variables == old(self).variables,
            final(self).name == old(self).name,
            final(self).signature == old(self).signature,
    {
        let i = block.0 as usize;
        &mut self.blocks[i]
    }

    /// Creates a new empty basic block and returns its handle, which equals
    /// the block list's length before the call.
    pub fn create_block(&mut self) -> (b: Block)
        requires
            old(self).blocks@.len() < u32::MAX,
        ensures
            final(self).blocks@.len() == old(self).blocks@.len() + 1,
            final(self).blocks@.take(old(self).blocks@.len() as int) == old(self).blocks@,
            is_empty_basic_block(final(self).blocks@.last()),
            b == Block(old(self).blocks@.len() as u32),
            final(self).variables == old(self).variables,
            final(self).name == old(self).name,
            final(self).signature == old(self).signature,
    {
        let block = InstBlock {
            block_type: BlockType::Basic,
            blocks: Vec::new(),
            else_block: None,
            elses: Vec::new(),
            imports: Vec::new(),
            insts: Vec::new(),
            values: Vec::new(),
        };

        let val = Block(self.blocks.len() as u32);
        let ghost pre = self.blocks@;
        self.blocks.push(block);
        proof {
            assert(self.blocks@.take(pre.len() as int) =~= pre);
        }
        val
    }
}

/// Holds when `b` is a freshly created block: basic, with every table empty.
pub open spec fn is_empty_basic_block(b: InstBlock) -> bool {
    &&& b.block_type == BlockType::Basic
    &&& b.elses@.len() == 0
    &&& b.else_block matches Option::None
    &&& b.values@.len() == 0
    &&& b.insts@.len() == 0
    &&& b.imports@.len() == 0
    &&& b.blocks@.len() == 0
}

} // verus!
