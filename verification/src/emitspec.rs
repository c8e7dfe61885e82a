//! The mathematical model of C emission: spec functions that give, for every
//! value table, instruction, block, function and module, either the exact
//! text the emitter produces or the error it reports.
//!
//! A handle is valid only as an index into its owning table, and an operand
//! of an entry embedded in the value table must have been issued before that
//! entry (the builder only ever hands out such operands).  Every violation
//! is a [`RenderErr::InvalidHandle`], carrying the offending index: a value
//! handle out of bounds, or the position of a missing operand.  A named
//! reference that uses a static-scope accessor is a
//! [`RenderErr::UnsupportedConstruct`], carrying the root name of the
//! reference; emission never renders around it.  When a failure leaves its
//! block, [`EmitErr`] places it in its owning container: the name of the
//! function and the position of the block it was found in.

use vstd::prelude::*;
use crate::entities::{AbiParam, AbiType, Named, NamedProperty, Type, Value, ValueInfo};
use crate::function::Function;
use crate::instruction::{InstBlock, InstructionInfo, Opcode};
use crate::text::{dec_rep, has_text, spec_bool_text};

verus! {

/// Why rendering inside one block failed, at the specification level; the
/// owning container is attached when the failure leaves the block.
pub enum RenderErr {
    /// A handle used outside the bounds of its owning table: the offending
    /// index, either into a value table or into an operand list.
    InvalidHandle { handle: int },
    /// A named reference used a static-scope accessor, which the C backend
    /// cannot render: the root name of the offending reference.
    UnsupportedConstruct { name: Seq<char> },
}

/// Why emission of a module failed: a rendering failure placed in its
/// owning container.
pub enum EmitErr {
    /// A handle used outside the bounds of its owning table: the offending
    /// index (a value handle or an operand position), together with the
    /// name of the function and the position of the block in which it was
    /// used.
    InvalidHandle { handle: int, function: Seq<char>, block: int },
    /// A named reference used a static-scope accessor, which the C backend
    /// cannot render: the root name of the offending reference.
    UnsupportedConstruct { name: Seq<char> },
}

/// Places a rendering failure in its owning container: an invalid handle
/// learns the name of the function and the position of the block it was
/// found in.
pub open spec fn spec_err_in_block(e: RenderErr, function: Seq<char>, block: int) -> EmitErr {
    match e {
        RenderErr::InvalidHandle { handle } => EmitErr::InvalidHandle { handle, function, block },
        RenderErr::UnsupportedConstruct { name } => EmitErr::UnsupportedConstruct { name },
    }
}

/// The infix operator text of a binary opcode, with its surrounding spaces.
pub open spec fn spec_infix_sym(op: Opcode) -> Seq<char> {
    match op {
        Opcode::Add => " + "@,
        Opcode::Sub => " - "@,
        Opcode::Mul => " * "@,
        Opcode::Div => " / "@,
        Opcode::Mod => " % "@,
        Opcode::BitAnd => " & "@,
        Opcode::BitOr => " | "@,
        Opcode::BitXor => " ^ "@,
        Opcode::BitLeft => " << "@,
        Opcode::BitRight => " >> "@,
        Opcode::TestEq => " == "@,
        Opcode::TestNeq => " != "@,
        Opcode::TestGt => " > "@,
        Opcode::TestGtEq => " >= "@,
        Opcode::TestLt => " < "@,
        Opcode::TestLtEq => " <= "@,
        Opcode::Or => " || "@,
        Opcode::And => " && "@,
        Opcode::Assign => " = "@,
        _ => Seq::empty(),
    }
}

/// Renders the operand `a` of an entry whose table index (or, for a
/// statement, whose table length) is `bound`: the operand must have been
/// issued earlier.
pub open spec fn spec_render_arg(vals: Seq<ValueInfo>, bound: int, a: Value) -> Result<
    Seq<char>,
    RenderErr,
>
    decreases bound, 0int, 0int,
{
    if a.0 >= bound {
        Err(RenderErr::InvalidHandle { handle: a.0 as int })
    } else {
        spec_render_value(vals, a.0 as int)
    }
}

/// Renders the value table entry at index `i`.
pub open spec fn spec_render_value(vals: Seq<ValueInfo>, i: int) -> Result<Seq<char>, RenderErr>
    decreases i, 3int, 0int,
{
    if i < 0 || i >= vals.len() {
        Err(RenderErr::InvalidHandle { handle: i })
    } else {
        match vals[i] {
            ValueInfo::IntegerConstant(n) => Ok(dec_rep(n as nat)),
            ValueInfo::FloatConstant(s) => Ok(s@),
            ValueInfo::DoubleConstant(s) => Ok(s@),
            ValueInfo::BooleanConstant(b) => Ok(spec_bool_text(b)),
            ValueInfo::StringConstant(s) => Ok("\""@ + s@ + "\""@),
            ValueInfo::CharConstant(s) => Ok("'"@ + s@ + "'"@),
            ValueInfo::Named(n) => spec_render_named(vals, i, n),
            ValueInfo::Block(b) => Ok("block"@ + dec_rep(b.0 as nat)),
            ValueInfo::Instruction(ii) => spec_render_inst(vals, i, ii),
        }
    }
}

/// Renders a named reference: its root name followed by its accessor chain.
pub open spec fn spec_render_named(vals: Seq<ValueInfo>, bound: int, n: Named) -> Result<
    Seq<char>,
    RenderErr,
>
    decreases bound, 2int, 0int,
{
    match spec_render_props(vals, bound, n.name@, n.properties@, 0) {
        Ok(t) => Ok(n.name@ + t),
        Err(e) => Err(e),
    }
}

/// Renders the accessor chain `props` of a named reference rooted at
/// `root`, from position `k` on, applied strictly left to right.  A
/// static-scope accessor fails with `UnsupportedConstruct`; an index
/// operand is rendered recursively.
pub open spec fn spec_render_props(
    vals: Seq<ValueInfo>,
    bound: int,
    root: Seq<char>,
    props: Seq<NamedProperty>,
    k: int,
) -> Result<Seq<char>, RenderErr>
    decreases bound, 1int, props.len() - k,
{
    if k < 0 || k >= props.len() {
        Ok(Seq::empty())
    } else {
        let head = match props[k] {
            NamedProperty::Basic(n) => Ok("."@ + n@),
            NamedProperty::Pointer(n) => Ok("->"@ + n@),
            NamedProperty::Index(v) => match spec_render_arg(vals, bound, v) {
                Ok(t) => Ok("["@ + t + "]"@),
                Err(e) => Err(e),
            },
            NamedProperty::Static(_) => Err(RenderErr::UnsupportedConstruct { name: root }),
        };
        match head {
            Err(e) => Err(e),
            Ok(t) => match spec_render_props(vals, bound, root, props, k + 1) {
                Err(e) => Err(e),
                Ok(rest) => Ok(t + rest),
            },
        }
    }
}

/// Renders a binary infix expression over the first two operands.
pub open spec fn spec_render_binary(
    vals: Seq<ValueInfo>,
    bound: int,
    args: Seq<Value>,
    sym: Seq<char>,
) -> Result<Seq<char>, RenderErr>
    decreases bound, 1int, 0int,
{
    if args.len() < 1 {
        Err(RenderErr::InvalidHandle { handle: 0 })
    } else {
        match spec_render_arg(vals, bound, args[0]) {
            Err(e) => Err(e),
            Ok(l) => if args.len() < 2 {
                Err(RenderErr::InvalidHandle { handle: 1 })
            } else {
                match spec_render_arg(vals, bound, args[1]) {
                    Err(e) => Err(e),
                    Ok(r) => Ok(l + sym + r),
                }
            },
        }
    }
}

/// Renders a prefix expression over the first operand.
pub open spec fn spec_render_prefix(
    vals: Seq<ValueInfo>,
    bound: int,
    args: Seq<Value>,
    sym: Seq<char>,
) -> Result<Seq<char>, RenderErr>
    decreases bound, 1int, 0int,
{
    if args.len() < 1 {
        Err(RenderErr::InvalidHandle { handle: 0 })
    } else {
        match spec_render_arg(vals, bound, args[0]) {
            Err(e) => Err(e),
            Ok(t) => Ok(sym + t),
        }
    }
}

/// Renders the arguments of a call from position `k` on, joined with
/// commas, in call order.
pub open spec fn spec_render_call_args(
    vals: Seq<ValueInfo>,
    bound: int,
    args: Seq<Value>,
    k: int,
) -> Result<Seq<char>, RenderErr>
    decreases bound, 2int, args.len() - k,
{
    if k < 0 || k >= args.len() {
        Ok(Seq::empty())
    } else {
        match spec_render_arg(vals, bound, args[k]) {
            Err(e) => Err(e),
            Ok(t) => if k == args.len() - 1 {
                Ok(t)
            } else {
                match spec_render_call_args(vals, bound, args, k + 1) {
                    Err(e) => Err(e),
                    Ok(rest) => Ok(t + ", "@ + rest),
                }
            },
        }
    }
}

/// Renders one instruction whose operands must have been issued before
/// `bound`: for an instruction embedded in the value table, the index of
/// its entry; for a statement, the table's length.
pub open spec fn spec_render_inst(
    vals: Seq<ValueInfo>,
    bound: int,
    inst: InstructionInfo,
) -> Result<Seq<char>, RenderErr>
    decreases bound, 2int, inst.arguments@.len() + 1,
{
    match inst.opcode {
        Opcode::BitNot => spec_render_prefix(vals, bound, inst.arguments@, "~"@),
        Opcode::Not => spec_render_prefix(vals, bound, inst.arguments@, "!"@),
        Opcode::Jmp => spec_render_prefix(vals, bound, inst.arguments@, "goto "@),
        Opcode::Call => if inst.arguments@.len() < 1 {
            Err(RenderErr::InvalidHandle { handle: 0 })
        } else {
            match spec_render_arg(vals, bound, inst.arguments@[0]) {
                Err(e) => Err(e),
                Ok(callee) => match spec_render_call_args(vals, bound, inst.arguments@, 1) {
                    Err(e) => Err(e),
                    Ok(args) => Ok(callee + "("@ + args + ")"@),
                },
            }
        },
        Opcode::Ret => if inst.arguments@.len() == 0 {
            Ok("return"@)
        } else {
            spec_render_prefix(vals, bound, inst.arguments@, "return "@)
        },
        _ => spec_render_binary(vals, bound, inst.arguments@, spec_infix_sym(inst.opcode)),
    }
}

/// Renders an instruction of a block's statement list: every value of the
/// table is in scope.
pub open spec fn spec_render_stmt(vals: Seq<ValueInfo>, inst: InstructionInfo) -> Result<
    Seq<char>,
    RenderErr,
> {
    spec_render_inst(vals, vals.len() as int, inst)
}

/// Renders the statements of a block from position `k` on, joined with
/// `;\n`.
pub open spec fn spec_insts_text(
    vals: Seq<ValueInfo>,
    insts: Seq<InstructionInfo>,
    k: int,
) -> Result<Seq<char>, RenderErr>
    decreases insts.len() - k,
{
    if k < 0 || k >= insts.len() {
        Ok(Seq::empty())
    } else {
        match spec_render_stmt(vals, insts[k]) {
            Err(e) => Err(e),
            Ok(t) => if k == insts.len() - 1 {
                Ok(t)
            } else {
                match spec_insts_text(vals, insts, k + 1) {
                    Err(e) => Err(e),
                    Ok(rest) => Ok(t + ";\n"@ + rest),
                }
            },
        }
    }
}

/// Renders one block as a labelled braced group: the label is the block's
/// position in its function.
pub open spec fn spec_block_text(b: InstBlock, idx: int) -> Result<Seq<char>, RenderErr> {
    match spec_insts_text(b.values@, b.insts@, 0) {
        Err(e) => Err(e),
        Ok(t) => Ok("block"@ + dec_rep(idx as nat) + ": {\n"@ + t + ";\n}\n"@),
    }
}

/// Renders the blocks of the function named `fname` from position `k` on,
/// joined with newlines, each labelled by its position.  A failure is
/// reported in its owning container: the function's name and the failing
/// block's position.
pub open spec fn spec_blocks_text(fname: Seq<char>, blocks: Seq<InstBlock>, k: int) -> Result<
    Seq<char>,
    EmitErr,
>
    decreases blocks.len() - k,
{
    if k < 0 || k >= blocks.len() {
        Ok(Seq::empty())
    } else {
        match spec_block_text(blocks[k], k) {
            Err(e) => Err(spec_err_in_block(e, fname, k)),
            Ok(t) => if k == blocks.len() - 1 {
                Ok(t)
            } else {
                match spec_blocks_text(fname, blocks, k + 1) {
                    Err(e) => Err(e),
                    Ok(rest) => Ok(t + "\n"@ + rest),
                }
            },
        }
    }
}

/// Renders an ABI type: `name` plain, `name[N]` or `name[]` for arrays,
/// `name*` for pointers.
pub open spec fn spec_abitype_text(t: AbiType) -> Seq<char> {
    match t.1 {
        Type::Plain => t.0.name@,
        Type::Array(n) => if n >= 0 {
            t.0.name@ + "["@ + dec_rep(n as nat) + "]"@
        } else {
            t.0.name@ + "[]"@
        },
        Type::Pointer => t.0.name@ + "*"@,
    }
}

/// Renders the signature arguments from position `k` on, joined with
/// commas, each as `type name`.
pub open spec fn spec_params_text(ps: Seq<AbiParam>, k: int) -> Seq<char>
    decreases ps.len() - k,
{
    if k < 0 || k >= ps.len() {
        Seq::empty()
    } else if k == ps.len() - 1 {
        spec_abitype_text(ps[k].1) + " "@ + ps[k].0@
    } else {
        spec_abitype_text(ps[k].1) + " "@ + ps[k].0@ + ", "@ + spec_params_text(ps, k + 1)
    }
}

/// Renders a function's signature: `return-type name(arg, ...)`.
pub open spec fn spec_signature_text(f: Function) -> Seq<char> {
    spec_abitype_text(f.signature.returns) + " "@ + f.name@ + "("@ + spec_params_text(
        f.signature.arguments@,
        0,
    ) + ")"@
}

/// Renders the declared variables from position `k` on, joined with `;\n`,
/// each as `type name`.
pub open spec fn spec_vars_text(vars: Seq<(String, AbiType)>, k: int) -> Seq<char>
    decreases vars.len() - k,
{
    if k < 0 || k >= vars.len() {
        Seq::empty()
    } else if k == vars.len() - 1 {
        spec_abitype_text(vars[k].1) + " "@ + vars[k].0@
    } else {
        spec_abitype_text(vars[k].1) + " "@ + vars[k].0@ + ";\n"@ + spec_vars_text(vars, k + 1)
    }
}

/// The variable declarations hoisted before a function's blocks: the joined
/// declarations with a closing `;\n`, or nothing when none were declared.
pub open spec fn spec_var_decls(vars: Seq<(String, AbiType)>) -> Seq<char> {
    if vars.len() == 0 {
        Seq::empty()
    } else {
        spec_vars_text(vars, 0) + ";\n"@
    }
}

/// The import names required by a function's blocks from position `k` on,
/// concatenated in block order, duplicates kept.
pub open spec fn spec_block_imports(blocks: Seq<InstBlock>, k: int) -> Seq<Seq<char>>
    decreases blocks.len() - k,
{
    if k < 0 || k >= blocks.len() {
        Seq::empty()
    } else {
        blocks[k].imports.deep_view() + spec_block_imports(blocks, k + 1)
    }
}

/// Renders one function: its text and the import names its blocks require.
/// A function with no blocks renders as its bare signature, a prototype;
/// otherwise the signature opens a body holding the hoisted variable
/// declarations and then every block.
pub open spec fn spec_compile_function(f: Function) -> Result<
    (Seq<char>, Seq<Seq<char>>),
    EmitErr,
> {
    if f.blocks@.len() == 0 {
        Ok((spec_signature_text(f), Seq::empty()))
    } else {
        match spec_blocks_text(f.name@, f.blocks@, 0) {
            Err(e) => Err(e),
            Ok(bt) => Ok(
                (
                    spec_signature_text(f) + " {\n"@ + spec_var_decls(f.variables@) + bt + "}"@,
                    spec_block_imports(f.blocks@, 0),
                ),
            ),
        }
    }
}

/// Renders the functions of a module from position `k` on: their texts
/// joined with newlines, and their import names concatenated in function
/// order.  The first failing function aborts the whole emission.
pub open spec fn spec_emit_funcs(funcs: Seq<Function>, k: int) -> Result<
    (Seq<char>, Seq<Seq<char>>),
    EmitErr,
>
    decreases funcs.len() - k,
{
    if k < 0 || k >= funcs.len() {
        Ok((Seq::empty(), Seq::empty()))
    } else {
        match spec_compile_function(funcs[k]) {
            Err(e) => Err(e),
            Ok((t, imps)) => if k == funcs.len() - 1 {
                Ok((t, imps))
            } else {
                match spec_emit_funcs(funcs, k + 1) {
                    Err(e) => Err(e),
                    Ok((rest_t, rest_i)) => Ok((t + "\n"@ + rest_t, imps + rest_i)),
                }
            },
        }
    }
}

/// Adds `names` to `acc` in order, skipping every name already present:
/// the deduplicated import list, in first-seen order.
pub open spec fn spec_dedup(acc: Seq<Seq<char>>, names: Seq<Seq<char>>) -> Seq<Seq<char>>
    decreases names.len(),
{
    if names.len() == 0 {
        acc
    } else if has_text(acc, names[0]) {
        spec_dedup(acc, names.drop_first())
    } else {
        spec_dedup(acc.push(names[0]), names.drop_first())
    }
}

/// Renders the `#include` lines for the names from position `k` on, joined
/// with newlines.
pub open spec fn spec_includes_text(names: Seq<Seq<char>>, k: int) -> Seq<char>
    decreases names.len() - k,
{
    if k < 0 || k >= names.len() {
        Seq::empty()
    } else if k == names.len() - 1 {
        "#include <"@ + names[k] + ">"@
    } else {
        "#include <"@ + names[k] + ">"@ + "\n"@ + spec_includes_text(names, k + 1)
    }
}

/// Renders a whole module: one `#include` line per required import name in
/// first-seen order across the module, a newline, then every function's
/// text in declaration order.
pub open spec fn spec_emit(m: crate::module::Module) -> Result<Seq<char>, EmitErr> {
    match spec_emit_funcs(m.functions@, 0) {
        Err(e) => Err(e),
        Ok((body, raw)) => Ok(
            spec_includes_text(spec_dedup(Seq::empty(), raw), 0) + "\n"@ + body,
        ),
    }
}

} // verus!
