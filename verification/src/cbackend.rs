//! The C backend: a pure, read-only traversal of a module that renders it
//! to C source text, proved to produce exactly the text that the model in
//! [`crate::emitspec`] gives.

use vstd::prelude::*;
use vstd::string::StringExecFns;
use crate::entities::{AbiType, Named, NamedProperty, Type, Value, ValueInfo};
use crate::emitspec::{
    spec_abitype_text, spec_block_imports, spec_block_text, spec_blocks_text,
    spec_compile_function, spec_dedup, spec_emit, spec_emit_funcs, spec_includes_text,
    spec_insts_text, spec_params_text, spec_render_arg, spec_render_binary,
    spec_render_call_args, spec_render_inst, spec_render_named, spec_render_prefix,
    spec_render_props, spec_render_value, spec_signature_text, spec_var_decls, spec_vars_text,
    spec_err_in_block, EmitErr, RenderErr,
};
use crate::function::Function;
use crate::instruction::{InstBlock, InstructionInfo, Opcode};
use crate::module::Module;
use crate::text::{bool_to_string, contains_text, u64_to_string};

verus! {

/// Why rendering inside one block failed; the owning container is attached
/// when the failure leaves the block.
enum RenderError {
    /// A handle used outside the bounds of its owning table: the offending
    /// index, either into a value table or into an operand list.
    InvalidHandle { handle: u64 },
    /// A named reference used a static-scope accessor, which the C backend
    /// cannot render: the root name of the offending reference.
    UnsupportedConstruct { name: String },
}

impl View for RenderError {
    type V = RenderErr;

    closed spec fn view(&self) -> RenderErr {
        match self {
            RenderError::InvalidHandle { handle } => RenderErr::InvalidHandle {
                handle: *handle as int,
            },
            RenderError::UnsupportedConstruct { name } => RenderErr::UnsupportedConstruct {
                name: name@,
            },
        }
    }
}

/// Why emission failed.
///
/// Emission either completes for the whole module or reports one of these;
/// no partial output is produced.
#[derive(Debug)]
pub enum EmitError {
    /// A handle used outside the bounds of its owning table: the offending
    /// index (a value handle or an operand position), together with the
    /// name of the function and the position of the block in which it was
    /// used.
    InvalidHandle { handle: u64, function: String, block: u64 },
    /// A named reference used a static-scope accessor, which the C backend
    /// cannot render: the root name of the offending reference.
    UnsupportedConstruct { name: String },
}

impl View for EmitError {
    type V = EmitErr;

    open spec fn view(&self) -> EmitErr {
        match self {
            EmitError::InvalidHandle { handle, function, block } => EmitErr::InvalidHandle {
                handle: *handle as int,
                function: function@,
                block: *block as int,
            },
            EmitError::UnsupportedConstruct { name } => EmitErr::UnsupportedConstruct {
                name: name@,
            },
        }
    }
}

/// Places a rendering failure in its owning container: an invalid handle
/// learns the name of the function and the position of the block it was
/// found in.
fn err_in_block(e: RenderError, function: &String, block: usize) -> (r: EmitError)
    ensures
        r@ == spec_err_in_block(e@, function@, block as int),
{
    match e {
        RenderError::InvalidHandle { handle } => EmitError::InvalidHandle {
            handle,
            function: function.clone(),
            block: block as u64,
        },
        RenderError::UnsupportedConstruct { name } => EmitError::UnsupportedConstruct { name },
    }
}

/// Holds when the rendering result `r` carries exactly the text or the
/// error that the model gives as `s`.
spec fn text_matches(r: Result<String, RenderError>, s: Result<Seq<char>, RenderErr>) -> bool {
    match r {
        Ok(t) => s == Ok::<Seq<char>, RenderErr>(t@),
        Err(e) => s == Err::<Seq<char>, RenderErr>(e@),
    }
}

/// Holds when the module-level text result `r` carries exactly the text or
/// the placed error that the model gives as `s`.
pub open spec fn emit_text_matches(r: Result<String, EmitError>, s: Result<Seq<char>, EmitErr>) -> bool {
    match r {
        Ok(t) => s == Ok::<Seq<char>, EmitErr>(t@),
        Err(e) => s == Err::<Seq<char>, EmitErr>(e@),
    }
}

/// Holds when the result `r` of compiling one function carries exactly the
/// text and import names that the model gives as `s`.
pub open spec fn function_matches(
    r: Result<(String, Vec<String>), EmitError>,
    s: Result<(Seq<char>, Seq<Seq<char>>), EmitErr>,
) -> bool {
    match r {
        Ok(p) => s == Ok::<(Seq<char>, Seq<Seq<char>>), EmitErr>((p.0@, p.1.deep_view())),
        Err(e) => s == Err::<(Seq<char>, Seq<Seq<char>>), EmitErr>(e@),
    }
}

/// Holds when the emission result `r` carries exactly the module text or
/// the error that the model gives for `m`.
pub open spec fn emit_matches(r: Result<String, EmitError>, m: Module) -> bool {
    match r {
        Ok(t) => spec_emit(m) == Ok::<Seq<char>, EmitErr>(t@),
        Err(e) => spec_emit(m) == Err::<Seq<char>, EmitErr>(e@),
    }
}

/// The C backend for the code generator: renders one module.
pub struct CBackend {
    /// The module to emit C code from.
    pub module: Module,
}

impl CBackend {
    /// Creates a backend that will generate C code from the given module.
    pub fn new(module: Module) -> (r: CBackend)
        ensures
            r.module == module,
    {
        CBackend { module }
    }

    /// Renders the value table entry at index `i`.
    fn display_value_at(&self, block: &InstBlock, i: usize) -> (r: Result<String, RenderError>)
        ensures
            text_matches(r, spec_render_value(block.values@, i as int)),
        decreases i, 3int, 0int,
    {
        if i >= block.values.len() {
            return Err(RenderError::InvalidHandle { handle: i as u64 });
        }
        match &block.values[i] {
            ValueInfo::IntegerConstant(n) => Ok(u64_to_string(*n)),
            ValueInfo::FloatConstant(s) => Ok(s.clone()),
            ValueInfo::DoubleConstant(s) => Ok(s.clone()),
            ValueInfo::BooleanConstant(b) => Ok(bool_to_string(*b)),
            ValueInfo::StringConstant(s) => {
                let mut t = String::from_str("\"");
                t.append(s.as_str());
                t.append("\"");
                Ok(t)
            },
            ValueInfo::CharConstant(s) => {
                let mut t = String::from_str("'");
                t.append(s.as_str());
                t.append("'");
                Ok(t)
            },
            ValueInfo::Named(n) => self.display_named(n, block, i),
            ValueInfo::Block(b) => {
                let mut t = String::from_str("block");
                let num = u64_to_string(b.0 as u64);
                t.append(num.as_str());
                Ok(t)
            },
            ValueInfo::Instruction(ii) => self.display_instruction(ii, block, i),
        }
    }

    /// Renders the operand `val` of an entry bounded by `bound`: the
    /// operand must have been issued earlier.
    fn display_value(&self, val: Value, block: &InstBlock, bound: usize) -> (r: Result<
        String,
        RenderError,
    >)
        ensures
            text_matches(r, spec_render_arg(block.values@, bound as int, val)),
        decreases bound, 0int, 0int,
    {
        if val.0 as usize >= bound {
            Err(RenderError::InvalidHandle { handle: val.0 as u64 })
        } else {
            self.display_value_at(block, val.0 as usize)
        }
    }

    /// Renders a named reference: its root name, then its accessor chain.
    fn display_named(&self, named: &Named, block: &InstBlock, bound: usize) -> (r: Result<
        String,
        RenderError,
    >)
        ensures
            text_matches(r, spec_render_named(block.values@, bound as int, *named)),
        decreases bound, 2int, 0int,
    {
        match self.display_props(&named.name, &named.properties, 0, block, bound) {
            Err(e) => Err(e),
            Ok(suffix) => {
                let mut t = named.name.clone();
                t.append(suffix.as_str());
                Ok(t)
            },
        }
    }

    /// Renders the accessor chain `props` from position `k` on.
    fn display_props(
        &self,
        name: &String,
        props: &Vec<NamedProperty>,
        k: usize,
        block: &InstBlock,
        bound: usize,
    ) -> (r: Result<String, RenderError>)
        ensures
            text_matches(r, spec_render_props(block.values@, bound as int, name@, props@, k as int)),
        decreases bound, 1int, props@.len() - k,
    {
        if k >= props.len() {
            return Ok(String::new());
        }
        let head = match &props[k] {
            NamedProperty::Basic(n) => {
                let mut t = String::from_str(".");
                t.append(n.as_str());
                t
            },
            NamedProperty::Pointer(n) => {
                let mut t = String::from_str("->");
                t.append(n.as_str());
                t
            },
            NamedProperty::Index(v) => {
                match self.display_value(*v, block, bound) {
                    Err(e) => {
                        return Err(e);
                    },
                    Ok(inner) => {
                        let mut t = String::from_str("[");
                        t.append(inner.as_str());
                        t.append("]");
                        t
                    },
                }
            },
            NamedProperty::Static(_) => {
                return Err(RenderError::UnsupportedConstruct { name: name.clone() });
            },
        };
        match self.display_props(name, props, k + 1, block, bound) {
            Err(e) => Err(e),
            Ok(rest) => {
                let mut t = head;
                t.append(rest.as_str());
                Ok(t)
            },
        }
    }

    /// Renders a binary infix expression over the first two operands.
    fn display_binary(
        &self,
        inst: &InstructionInfo,
        block: &InstBlock,
        bound: usize,
        sym: &str,
    ) -> (r: Result<String, RenderError>)
        ensures
            text_matches(r, spec_render_binary(block.values@, bound as int, inst.arguments@, sym@)),
        decreases bound, 1int, 0int,
    {
        if inst.arguments.len() < 1 {
            return Err(RenderError::InvalidHandle { handle: 0 });
        }
        let l = match self.display_value(inst.arguments[0], block, bound) {
            Err(e) => {
                return Err(e);
            },
            Ok(t) => t,
        };
        if inst.arguments.len() < 2 {
            return Err(RenderError::InvalidHandle { handle: 1 });
        }
        match self.display_value(inst.arguments[1], block, bound) {
            Err(e) => Err(e),
            Ok(rtext) => {
                let mut t = l;
                t.append(sym);
                t.append(rtext.as_str());
                Ok(t)
            },
        }
    }

    /// Renders a prefix expression over the first operand.
    fn display_prefix(
        &self,
        inst: &InstructionInfo,
        block: &InstBlock,
        bound: usize,
        sym: &str,
    ) -> (r: Result<String, RenderError>)
        ensures
            text_matches(r, spec_render_prefix(block.values@, bound as int, inst.arguments@, sym@)),
        decreases bound, 1int, 0int,
    {
        if inst.arguments.len() < 1 {
            return Err(RenderError::InvalidHandle { handle: 0 });
        }
        match self.display_value(inst.arguments[0], block, bound) {
            Err(e) => Err(e),
            Ok(inner) => {
                let mut t = String::from_str(sym);
                t.append(inner.as_str());
                Ok(t)
            },
        }
    }

    /// Renders the arguments of a call from position `k` on, joined with
    /// commas, in call order.
    fn display_call_args(
        &self,
        inst: &InstructionInfo,
        block: &InstBlock,
        bound: usize,
        k: usize,
    ) -> (r: Result<String, RenderError>)
        ensures
            text_matches(
                r,
                spec_render_call_args(block.values@, bound as int, inst.arguments@, k as int),
            ),
        decreases bound, 2int, inst.arguments@.len() - k,
    {
        if k >= inst.arguments.len() {
            return Ok(String::new());
        }
        match self.display_value(inst.arguments[k], block, bound) {
            Err(e) => Err(e),
            Ok(t) => if k == inst.arguments.len() - 1 {
                Ok(t)
            } else {
                match self.display_call_args(inst, block, bound, k + 1) {
                    Err(e) => Err(e),
                    Ok(rest) => {
                        let mut out = t;
                        out.append(", ");
                        out.append(rest.as_str());
                        Ok(out)
                    },
                }
            },
        }
    }

    /// Renders one instruction by opcode dispatch: binary opcodes as infix
    /// operators, `BitNot` and `Not` as prefixes, `Jmp` as `goto`, `Assign`
    /// as `=`, `Call` as `callee(args)`, `Ret` as `return` with an optional
    /// value.
    fn display_instruction(&self, inst: &InstructionInfo, block: &InstBlock, bound: usize) -> (r:
        Result<String, RenderError>)
        ensures
            text_matches(r, spec_render_inst(block.values@, bound as int, *inst)),
        decreases bound, 2int, inst.arguments@.len() + 1,
    {
        match inst.opcode {
            Opcode::Add => self.display_binary(inst, block, bound, " + "),
            Opcode::Sub => self.display_binary(inst, block, bound, " - "),
            Opcode::Mul => self.display_binary(inst, block, bound, " * "),
            Opcode::Div => self.display_binary(inst, block, bound, " / "),
            Opcode::Mod => self.display_binary(inst, block, bound, " % "),
            Opcode::BitAnd => self.display_binary(inst, block, bound, " & "),
            Opcode::BitOr => self.display_binary(inst, block, bound, " | "),
            Opcode::BitXor => self.display_binary(inst, block, bound, " ^ "),
            Opcode::BitLeft => self.display_binary(inst, block, bound, " << "),
            Opcode::BitRight => self.display_binary(inst, block, bound, " >> "),
            Opcode::TestEq => self.display_binary(inst, block, bound, " == "),
            Opcode::TestNeq => self.display_binary(inst, block, bound, " != "),
            Opcode::TestGt => self.display_binary(inst, block, bound, " > "),
            Opcode::TestGtEq => self.display_binary(inst, block, bound, " >= "),
            Opcode::TestLt => self.display_binary(inst, block, bound, " < "),
            Opcode::TestLtEq => self.display_binary(inst, block, bound, " <= "),
            Opcode::Or => self.display_binary(inst, block, bound, " || "),
            Opcode::And => self.display_binary(inst, block, bound, " && "),
            Opcode::Assign => self.display_binary(inst, block, bound, " = "),
            Opcode::BitNot => self.display_prefix(inst, block, bound, "~"),
            Opcode::Not => self.display_prefix(inst, block, bound, "!"),
            Opcode::Jmp => self.display_prefix(inst, block, bound, "goto "),
            Opcode::Ret => {
                if inst.arguments.len() == 0 {
                    Ok(String::from_str("return"))
                } else {
                    self.display_prefix(inst, block, bound, "return ")
                }
            },
            Opcode::Call => {
                if inst.arguments.len() < 1 {
                    return Err(RenderError::InvalidHandle { handle: 0 });
                }
                let callee = match self.display_value(inst.arguments[0], block, bound) {
                    Err(e) => {
                        return Err(e);
                    },
                    Ok(t) => t,
                };
                match self.display_call_args(inst, block, bound, 1) {
                    Err(e) => Err(e),
                    Ok(args) => {
                        let mut t = callee;
                        t.append("(");
                        t.append(args.as_str());
                        t.append(")");
                        Ok(t)
                    },
                }
            },
        }
    }

    /// Renders the statements of `block` from position `k` on, joined with
    /// `;\n`.
    fn display_insts(&self, block: &InstBlock, k: usize) -> (r: Result<String, RenderError>)
        ensures
            text_matches(r, spec_insts_text(block.values@, block.insts@, k as int)),
        decreases block.insts@.len() - k,
    {
        if k >= block.insts.len() {
            return Ok(String::new());
        }
        match self.display_instruction(&block.insts[k], block, block.values.len()) {
            Err(e) => Err(e),
            Ok(t) => if k == block.insts.len() - 1 {
                Ok(t)
            } else {
                match self.display_insts(block, k + 1) {
                    Err(e) => Err(e),
                    Ok(rest) => {
                        let mut out = t;
                        out.append(";\n");
                        out.append(rest.as_str());
                        Ok(out)
                    },
                }
            },
        }
    }

    /// Renders one block as a labelled braced group.
    fn display_block(&self, block: &InstBlock, idx: usize) -> (r: Result<String, RenderError>)
        ensures
            text_matches(r, spec_block_text(*block, idx as int)),
    {
        match self.display_insts(block, 0) {
            Err(e) => Err(e),
            Ok(t) => {
                let mut out = String::from_str("block");
                let num = u64_to_string(idx as u64);
                out.append(num.as_str());
                out.append(": {\n");
                out.append(t.as_str());
                out.append(";\n}\n");
                Ok(out)
            },
        }
    }

    /// Renders the blocks of `func` from position `k` on, joined with
    /// newlines, each labelled by its position.  A failure is reported in
    /// its owning container: the function's name and the failing block's
    /// position.
    fn display_blocks(&self, func: &Function, k: usize) -> (r: Result<String, EmitError>)
        ensures
            emit_text_matches(r, spec_blocks_text(func.name@, func.blocks@, k as int)),
        decreases func.blocks@.len() - k,
    {
        if k >= func.blocks.len() {
            return Ok(String::new());
        }
        match self.display_block(&func.blocks[k], k) {
            Err(e) => Err(err_in_block(e, &func.name, k)),
            Ok(t) => if k == func.blocks.len() - 1 {
                Ok(t)
            } else {
                match self.display_blocks(func, k + 1) {
                    Err(e) => Err(e),
                    Ok(rest) => {
                        let mut out = t;
                        out.append("\n");
                        out.append(rest.as_str());
                        Ok(out)
                    },
                }
            },
        }
    }

    /// Renders an ABI type.
    fn display_abitype(&self, abitype: &AbiType) -> (r: String)
        ensures
            r@ == spec_abitype_text(*abitype),
    {
        match abitype.1 {
            Type::Plain => abitype.0.name.clone(),
            Type::Array(n) => {
                let mut t = abitype.0.name.clone();
                if n >= 0 {
                    t.append("[");
                    let num = u64_to_string(n as u64);
                    t.append(num.as_str());
                    t.append("]");
                } else {
                    t.append("[]");
                }
                t
            },
            Type::Pointer => {
                let mut t = abitype.0.name.clone();
                t.append("*");
                t
            },
        }
    }

    /// Renders the signature arguments from position `k` on, joined with
    /// commas, each as `type name`.
    fn display_params(&self, func: &Function, k: usize) -> (r: String)
        ensures
            r@ == spec_params_text(func.signature.arguments@, k as int),
        decreases func.signature.arguments@.len() - k,
    {
        if k >= func.signature.arguments.len() {
            return String::new();
        }
        let p = &func.signature.arguments[k];
        let mut t = self.display_abitype(&p.1);
        t.append(" ");
        t.append(p.0.as_str());
        if k < func.signature.arguments.len() - 1 {
            t.append(", ");
            let rest = self.display_params(func, k + 1);
            t.append(rest.as_str());
        }
        t
    }

    /// Renders the declared variables from position `k` on, joined with
    /// `;\n`, each as `type name`.
    fn display_vars(&self, func: &Function, k: usize) -> (r: String)
        ensures
            r@ == spec_vars_text(func.variables@, k as int),
        decreases func.variables@.len() - k,
    {
        if k >= func.variables.len() {
            return String::new();
        }
        let v = &func.variables[k];
        let mut t = self.display_abitype(&v.1);
        t.append(" ");
        t.append(v.0.as_str());
        if k < func.variables.len() - 1 {
            t.append(";\n");
            let rest = self.display_vars(func, k + 1);
            t.append(rest.as_str());
        }
        t
    }

    /// Compiles a single function into C code: its text and the import
    /// names its blocks require, in block order.  A function with no blocks
    /// yields only its signature, a prototype with no body.
    pub fn compile_function(&self, func: &Function) -> (r: Result<(String, Vec<String>), EmitError>)
        ensures
            function_matches(r, spec_compile_function(*func)),
    {
        let mut header = self.display_abitype(&func.signature.returns);
        header.append(" ");
        header.append(func.name.as_str());
        header.append("(");
        let params = self.display_params(func, 0);
        header.append(params.as_str());
        header.append(")");

        if func.blocks.len() == 0 {
            let imports: Vec<String> = Vec::new();
            proof {
                crate::text::lemma_deep_view_empty(imports);
            }
            return Ok((header, imports));
        }
        match self.display_blocks(func, 0) {
            Err(e) => Err(e),
            Ok(bt) => {
                header.append(" {\n");
                if func.variables.len() > 0 {
                    let vars = self.display_vars(func, 0);
                    header.append(vars.as_str());
                    header.append(";\n");
                }
                header.append(bt.as_str());
                header.append("}");
                proof {
                    assert(header@ =~= spec_signature_text(*func) + " {\n"@ + spec_var_decls(
                        func.variables@,
                    ) + bt@ + "}"@);
                }
                let imports = collect_imports(&func.blocks, 0);
                Ok((header, imports))
            },
        }
    }

    /// Renders the functions of the module from position `k` on: their
    /// texts joined with newlines, and their import names concatenated in
    /// function order.
    fn emit_funcs(&self, k: usize) -> (r: Result<(String, Vec<String>), EmitError>)
        ensures
            function_matches(r, spec_emit_funcs(self.module.functions@, k as int)),
        decreases self.module.functions@.len() - k,
    {
        if k >= self.module.functions.len() {
            let imports: Vec<String> = Vec::new();
            proof {
                crate::text::lemma_deep_view_empty(imports);
            }
            return Ok((String::new(), imports));
        }
        match self.compile_function(&self.module.functions[k]) {
            Err(e) => Err(e),
            Ok((t, imps)) => if k == self.module.functions.len() - 1 {
                Ok((t, imps))
            } else {
                match self.emit_funcs(k + 1) {
                    Err(e) => Err(e),
                    Ok((rest_t, rest_i)) => {
                        let mut out = t;
                        out.append("\n");
                        out.append(rest_t.as_str());
                        let mut imports = imps;
                        let mut rest_imports = rest_i;
                        let ghost a = imports;
                        let ghost b = rest_imports;
                        imports.append(&mut rest_imports);
                        proof {
                            crate::text::lemma_deep_view_concat(a, b, imports);
                        }
                        Ok((out, imports))
                    },
                }
            },
        }
    }

    /// Compiles the whole module into C code: one `#include` line per
    /// required import name in first-seen order across the module, a
    /// newline, then every function's text in declaration order.  Emission
    /// reads the module and nothing else, so the same module always yields
    /// the same text; on a failure no text is produced at all.
    pub fn emit(&self) -> (r: Result<String, EmitError>)
        ensures
            emit_matches(r, self.module),
    {
        match self.emit_funcs(0) {
            Err(e) => Err(e),
            Ok((body, raw)) => {
                let mut deduped: Vec<String> = Vec::new();
                proof {
                    crate::text::lemma_deep_view_empty(deduped);
                    crate::text::lemma_deep_view_len(raw);
                    assert(raw.deep_view().skip(0) =~= raw.deep_view());
                }
                dedup_merge(&mut deduped, &raw, 0);
                let mut out = includes_text(&deduped, 0);
                out.append("\n");
                out.append(body.as_str());
                Ok(out)
            },
        }
    }
}

/// Clones a list of import names.
fn clone_strings(v: &Vec<String>) -> (r: Vec<String>)
    ensures
        r.deep_view() == v.deep_view(),
{
    let mut r: Vec<String> = Vec::new();
    proof {
        crate::text::lemma_deep_view_empty(r);
        assert(v.deep_view().take(0) =~= Seq::<Seq<char>>::empty());
    }
    let mut i: usize = 0;
    while i < v.len()
        invariant
            i <= v.len(),
            r.deep_view() == v.deep_view().take(i as int),
        decreases v.len() - i,
    {
        let ghost rpre = r;
        let c = v[i].clone();
        let ghost gc = c;
        r.push(c);
        proof {
            crate::text::lemma_deep_view_push(rpre, r, gc);
            crate::text::lemma_deep_view_index(*v, i as int);
            assert(v.deep_view().take(i + 1) =~= v.deep_view().take(i as int).push(
                v.deep_view()[i as int],
            ));
        }
        i += 1;
    }
    proof {
        crate::text::lemma_deep_view_len(*v);
        assert(v.deep_view().take(v@.len() as int) =~= v.deep_view());
    }
    r
}

/// Collects the import names of the blocks from position `k` on,
/// concatenated in block order, duplicates kept.
fn collect_imports(blocks: &Vec<InstBlock>, k: usize) -> (r: Vec<String>)
    ensures
        r.deep_view() == spec_block_imports(blocks@, k as int),
    decreases blocks@.len() - k,
{
    if k >= blocks.len() {
        let r: Vec<String> = Vec::new();
        proof {
            crate::text::lemma_deep_view_empty(r);
        }
        return r;
    }
    let mut r = clone_strings(&blocks[k].imports);
    let mut rest = collect_imports(blocks, k + 1);
    let ghost a = r;
    let ghost b = rest;
    r.append(&mut rest);
    proof {
        crate::text::lemma_deep_view_concat(a, b, r);
    }
    r
}

/// Adds the names from position `k` on to `acc`, in order, skipping every
/// name already present.
fn dedup_merge(acc: &mut Vec<String>, names: &Vec<String>, k: usize)
    requires
        k <= names@.len(),
    ensures
        final(acc).deep_view() == spec_dedup(old(acc).deep_view(), names.deep_view().skip(k as int)),
    decreases names@.len() - k,
{
    proof {
        crate::text::lemma_deep_view_len(*names);
    }
    if k >= names.len() {
        proof {
            assert(names.deep_view().skip(k as int) =~= Seq::<Seq<char>>::empty());
        }
        return;
    }
    proof {
        crate::text::lemma_deep_view_index(*names, k as int);
        assert(names.deep_view().skip(k as int)[0] == names.deep_view()[k as int]);
        assert(names.deep_view().skip(k as int).drop_first() =~= names.deep_view().skip(
            k as int + 1,
        ));
    }
    if !contains_text(acc, &names[k]) {
        let ghost pre = *acc;
        let c = names[k].clone();
        let ghost gc = c;
        acc.push(c);
        proof {
            crate::text::lemma_deep_view_push(pre, *acc, gc);
        }
    }
    dedup_merge(acc, names, k + 1);
}

/// Renders the `#include` lines for the names from position `k` on, joined
/// with newlines.
fn includes_text(names: &Vec<String>, k: usize) -> (r: String)
    ensures
        r@ == spec_includes_text(names.deep_view(), k as int),
    decreases names@.len() - k,
{
    if k >= names.len() {
        return String::new();
    }
    let mut t = String::from_str("#include <");
    t.append(names[k].as_str());
    t.append(">");
    proof {
        assert(names.deep_view()[k as int] == names@[k as int]@);
    }
    if k < names.len() - 1 {
        t.append("\n");
        let rest = includes_text(names, k + 1);
        t.append(rest.as_str());
    }
    t
}

} // verus!
