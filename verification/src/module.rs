//! A module: name-keyed functions and global data declarations.

use vstd::prelude::*;
use crate::entities::{AbiType, GlobalVariable};
use crate::function::{Function, FunctionSignature, is_void, keys_distinct, upserted, upsert_key};

verus! {

/// A module: the functions defined in it and its global data variables,
/// each keyed by name and kept in declaration order.
pub struct Module {
    /// The functions of the module, each name held once, in declaration
    /// order.
    pub functions: Vec<Function>,
    /// The global data variables of the module, each name held once, in
    /// declaration order.
    pub data: Vec<(String, AbiType)>,
}

/// Holds when no function name occurs twice in `funcs`.
pub open spec fn func_names_distinct(funcs: Seq<Function>) -> bool {
    forall|i: int, j: int|
        0 <= i < j < funcs.len() ==> (#[trigger] funcs[i]).name@ != (#[trigger] funcs[j]).name@
}

/// Holds when `post` is `pre` with `func` bound to its name: replacing the
/// first function of the same name if there is one, appended otherwise.
pub open spec fn func_upserted(pre: Seq<Function>, post: Seq<Function>, func: Function) -> bool {
    &&& (forall|j: int| 0 <= j < pre.len() ==> (#[trigger] pre[j]).name@ != func.name@)
        ==> post == pre.push(func)
    &&& forall|j: int|
        (0 <= j < pre.len() && (#[trigger] pre[j]).name@ == func.name@
            && (forall|m: int| 0 <= m < j ==> (#[trigger] pre[m]).name@ != func.name@))
            ==> post == pre.update(j, func)
}

/// Holds when `f` is a freshly declared function of the given name: an
/// empty signature returning `void`, no variables and no blocks.
pub open spec fn is_fresh_function(f: Function, name: Seq<char>) -> bool {
    &&& f.name@ == name
    &&& f.signature.arguments@.len() == 0
    &&& is_void(f.signature.returns)
    &&& f.variables@.len() == 0
    &&& f.blocks@.len() == 0
}

/// Finds the first function keyed by `name`, if any.
fn find_func(funcs: &Vec<Function>, name: &String) -> (r: Option<usize>)
    ensures
        match r {
            Some(i) => i < funcs@.len() && funcs@[i as int].name@ == name@
                && forall|m: int| 0 <= m < i ==> (#[trigger] funcs@[m]).name@ != name@,
            None => forall|m: int|
                0 <= m < funcs@.len() ==> (#[trigger] funcs@[m]).name@ != name@,
        },
{
    let mut i: usize = 0;
    while i < funcs.len()
        invariant
            i <= funcs.len(),
            forall|m: int| 0 <= m < i ==> (#[trigger] funcs@[m]).name@ != name@,
        decreases funcs.len() - i,
    {
        if funcs[i].name.eq(name) {
            return Some(i);
        }
        i += 1;
    }
    None
}

impl Module {
    /// Creates a new empty module.
    pub fn new() -> (r: Module)
        ensures
            r.functions@.len() == 0,
            r.data@.len() == 0,
    {
        Module { functions: Vec::new(), data: Vec::new() }
    }

    /// Declares a function with the given name and an empty `void`
    /// signature.  On a name collision the last declaration wins.
    pub fn declare_function(&mut self, name: String)
        ensures
            func_upserted_fresh(old(self).functions@, final(self).functions@, name@),
            func_names_distinct(old(self).functions@)
                ==> func_names_distinct(final(self).functions@),
            final(self).data == old(self).data,
    {
        let ghost nv = name@;
        let func = Function::new(name, FunctionSignature::new());
        let ghost gfunc = func;
        self.define_function(func);
        proof {
            let pre = old(self).functions@;
            let post = self.functions@;
            assert forall|j: int|
                (0 <= j < pre.len() && (#[trigger] pre[j]).name@ == nv
                    && (forall|m: int| 0 <= m < j ==> (#[trigger] pre[m]).name@ != nv))
                    implies {
                    &&& post.len() == pre.len()
                    &&& (forall|k: int| 0 <= k < pre.len() && k != j ==> post[k] == pre[k])
                    &&& is_fresh_function(post[j], nv)
                } by {
                assert(post == pre.update(j, gfunc));
            }
            if forall|j: int| 0 <= j < pre.len() ==> (#[trigger] pre[j]).name@ != nv {
                assert(post == pre.push(gfunc));
                assert(post.take(pre.len() as int) =~= pre);
            }
        }
    }

    /// Defines a function under its own name.  On a name collision the last
    /// definition wins and keeps the earlier declaration's position.
    pub fn define_function(&mut self, func: Function)
        ensures
            func_upserted(old(self).functions@, final(self).functions@, func),
            func_names_distinct(old(self).functions@)
                ==> func_names_distinct(final(self).functions@),
            final(self).data == old(self).data,
    {
        match find_func(&self.functions, &func.name) {
            Some(i) => {
                self.functions[i] = func;
            },
            None => {
                self.functions.push(func);
            },
        }
    }

    /// Declares a global data variable in the module.  On a name collision
    /// the last declaration wins.
    pub fn declare_variable(&mut self, name: String, val_type: AbiType) -> (v: GlobalVariable)
        ensures
            v.0@ == name@,
            upserted(old(self).data@, final(self).data@, (name, val_type)),
            keys_distinct(old(self).data@) ==> keys_distinct(final(self).data@),
            final(self).functions == old(self).functions,
    {
        let val = GlobalVariable(name.clone());
        upsert_key(&mut self.data, name, val_type);
        val
    }
}

/// Holds when `post` is `pre` with a freshly declared function of the given
/// name bound to it: replacing the first function of the same name if there
/// is one, appended otherwise.
pub open spec fn func_upserted_fresh(pre: Seq<Function>, post: Seq<Function>, name: Seq<char>) -> bool {
    &&& (forall|j: int| 0 <= j < pre.len() ==> (#[trigger] pre[j]).name@ != name) ==> {
        &&& post.len() == pre.len() + 1
        &&& post.take(pre.len() as int) == pre
        &&& is_fresh_function(post.last(), name)
    }
    &&& forall|j: int|
        (0 <= j < pre.len() && (#[trigger] pre[j]).name@ == name
            && (forall|m: int| 0 <= m < j ==> (#[trigger] pre[m]).name@ != name))
            ==> {
            &&& post.len() == pre.len()
            &&& (forall|k: int| 0 <= k < pre.len() && k != j ==> post[k] == pre[k])
            &&& is_fresh_function(post[j], name)
        }
}

} // verus!
