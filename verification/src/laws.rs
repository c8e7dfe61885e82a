//! Laws of the emitter, proved against the model in [`crate::emitspec`]:
//! what a call renders, how imports deduplicate, what a prototype is, when
//! a static-scope accessor fails (and that nothing else fails that way),
//! and that emission is deterministic.

use vstd::prelude::*;
use crate::emitspec::{
    spec_compile_function, spec_dedup, spec_render_arg, spec_render_call_args, spec_render_inst,
    spec_render_named, spec_render_props, spec_render_value,
    spec_signature_text, EmitErr, RenderErr,
};
use crate::entities::{Named, NamedProperty, Value, ValueInfo};
use crate::function::Function;
use crate::instruction::{InstructionInfo, Opcode};
use crate::text::{first_occurrence, has_text, no_dup_texts, spec_join};

verus! {

/// An operand that renders under some bound renders the same under any
/// larger bound: the bound only rules out operands issued too late.
proof fn lemma_arg_bound_mono(vals: Seq<ValueInfo>, b1: int, b2: int, a: Value)
    requires
        b1 <= b2,
        spec_render_arg(vals, b1, a) is Ok,
    ensures
        spec_render_arg(vals, b2, a) == spec_render_arg(vals, b1, a),
{
}

/// The rendered call arguments do not depend on the bound, once they render.
proof fn lemma_call_args_bound_mono(
    vals: Seq<ValueInfo>,
    b1: int,
    b2: int,
    args: Seq<Value>,
    k: int,
)
    requires
        b1 <= b2,
        spec_render_call_args(vals, b1, args, k) is Ok,
    ensures
        spec_render_call_args(vals, b2, args, k) == spec_render_call_args(vals, b1, args, k),
    decreases args.len() - k,
{
    if 0 <= k < args.len() {
        lemma_arg_bound_mono(vals, b1, b2, args[k]);
        if k < args.len() - 1 {
            lemma_call_args_bound_mono(vals, b1, b2, args, k + 1);
        }
    }
}

/// A rendered instruction does not depend on the bound, once it renders.
proof fn lemma_inst_bound_mono(vals: Seq<ValueInfo>, b1: int, b2: int, inst: InstructionInfo)
    requires
        b1 <= b2,
        spec_render_inst(vals, b1, inst) is Ok,
    ensures
        spec_render_inst(vals, b2, inst) == spec_render_inst(vals, b1, inst),
{
    let args = inst.arguments@;
    match inst.opcode {
        Opcode::BitNot | Opcode::Not | Opcode::Jmp => {
            lemma_arg_bound_mono(vals, b1, b2, args[0]);
        },
        Opcode::Ret => {
            if args.len() > 0 {
                lemma_arg_bound_mono(vals, b1, b2, args[0]);
            }
        },
        Opcode::Call => {
            lemma_arg_bound_mono(vals, b1, b2, args[0]);
            lemma_call_args_bound_mono(vals, b1, b2, args, 1);
        },
        _ => {
            lemma_arg_bound_mono(vals, b1, b2, args[0]);
            lemma_arg_bound_mono(vals, b1, b2, args[1]);
        },
    }
}

/// The arguments of a call render joined with commas, in call order: when
/// the operands from position `k` on render as `texts`, their joint
/// rendering is exactly those texts joined with `, `.
pub proof fn lemma_call_args_join(
    vals: Seq<ValueInfo>,
    bound: int,
    args: Seq<Value>,
    texts: Seq<Seq<char>>,
    k: int,
)
    requires
        0 <= k <= args.len(),
        texts.len() == args.len() - k,
        forall|j: int|
            k <= j < args.len() ==> spec_render_arg(vals, bound, #[trigger] args[j])
                == Ok::<Seq<char>, RenderErr>(texts[j - k]),
    ensures
        spec_render_call_args(vals, bound, args, k) == Ok::<Seq<char>, RenderErr>(
            spec_join(texts, ", "@),
        ),
    decreases args.len() - k,
{
    if k < args.len() {
        if k < args.len() - 1 {
            lemma_call_args_join(vals, bound, args, texts.drop_first(), k + 1);
        }
    }
}

/// A call with every operand rendered renders as the callee followed by its
/// arguments in call order, parenthesised and joined with commas.
pub proof fn lemma_call_renders_in_order(
    vals: Seq<ValueInfo>,
    bound: int,
    inst: InstructionInfo,
    callee: Seq<char>,
    arg_texts: Seq<Seq<char>>,
)
    requires
        inst.opcode == Opcode::Call,
        inst.arguments@.len() >= 1,
        spec_render_arg(vals, bound, inst.arguments@[0]) == Ok::<Seq<char>, RenderErr>(callee),
        arg_texts.len() == inst.arguments@.len() - 1,
        forall|j: int|
            1 <= j < inst.arguments@.len() ==> spec_render_arg(
                vals,
                bound,
                #[trigger] inst.arguments@[j],
            ) == Ok::<Seq<char>, RenderErr>(arg_texts[j - 1]),
    ensures
        spec_render_inst(vals, bound, inst) == Ok::<Seq<char>, RenderErr>(
            callee + "("@ + spec_join(arg_texts, ", "@) + ")"@,
        ),
{
    lemma_call_args_join(vals, bound, inst.arguments@, arg_texts, 1);
}

/// A call expression embedded in the value table renders exactly as the
/// same call appended as a statement would: the value form is usable as an
/// operand elsewhere without changing its text.
pub proof fn lemma_icall_renders_as_call(vals: Seq<ValueInfo>, i: int, ii: InstructionInfo)
    requires
        0 <= i < vals.len(),
        vals[i] == ValueInfo::Instruction(ii),
        spec_render_value(vals, i) is Ok,
    ensures
        spec_render_value(vals, i) == spec_render_inst(vals, vals.len() as int, ii),
{
    lemma_inst_bound_mono(vals, i, vals.len() as int, ii);
}

/// Deduplication keeps every requested name exactly once: the result holds
/// no duplicates, holds a name exactly when the accumulator or the requests
/// hold it, and keeps the accumulator as its prefix, so earlier names keep
/// their first-seen position.
pub proof fn lemma_dedup_imports(acc: Seq<Seq<char>>, names: Seq<Seq<char>>)
    requires
        no_dup_texts(acc),
    ensures
        no_dup_texts(spec_dedup(acc, names)),
        forall|n: Seq<char>|
            has_text(spec_dedup(acc, names), n) <==> has_text(acc, n) || has_text(names, n),
        spec_dedup(acc, names).len() >= acc.len(),
        spec_dedup(acc, names).take(acc.len() as int) == acc,
    decreases names.len(),
{
    if names.len() == 0 {
        assert(spec_dedup(acc, names).take(acc.len() as int) =~= acc);
        assert(forall|n: Seq<char>| !has_text(names, n));
    } else {
        let rest = names.drop_first();
        if has_text(acc, names[0]) {
            lemma_dedup_imports(acc, rest);
            assert forall|n: Seq<char>|
                has_text(spec_dedup(acc, names), n) <==> has_text(acc, n) || has_text(
                    names,
                    n,
                ) by {
                if has_text(names, n) && !has_text(rest, n) {
                    let w = choose|w: int| 0 <= w < names.len() && names[w] == n;
                    if w > 0 {
                        assert(rest[w - 1] == n);
                    }
                    assert(n == names[0]);
                }
                if has_text(rest, n) {
                    let w = choose|w: int| 0 <= w < rest.len() && rest[w] == n;
                    assert(names[w + 1] == n);
                }
            }
        } else {
            let acc2 = acc.push(names[0]);
            assert(no_dup_texts(acc2)) by {
                assert forall|i: int, j: int| 0 <= i < j < acc2.len() implies acc2[i] != acc2[j] by {
                    if j == acc.len() {
                        assert(!has_text(acc, names[0]));
                        assert(acc2[i] == acc[i]);
                    }
                }
            }
            lemma_dedup_imports(acc2, rest);
            assert(spec_dedup(acc, names).take(acc2.len() as int) == acc2);
            assert forall|n: Seq<char>|
                has_text(spec_dedup(acc, names), n) <==> has_text(acc, n) || has_text(
                    names,
                    n,
                ) by {
                if has_text(acc2, n) {
                    let w = choose|w: int| 0 <= w < acc2.len() && acc2[w] == n;
                    if w < acc.len() {
                        assert(acc[w] == n);
                    } else {
                        assert(n == names[0]);
                    }
                }
                if has_text(acc, n) {
                    let w = choose|w: int| 0 <= w < acc.len() && acc[w] == n;
                    assert(acc2[w] == n);
                }
                if has_text(names, n) && !has_text(rest, n) {
                    let w = choose|w: int| 0 <= w < names.len() && names[w] == n;
                    if w > 0 {
                        assert(rest[w - 1] == n);
                    }
                    assert(n == names[0]);
                    assert(acc2[acc.len() as int] == n);
                }
                if has_text(rest, n) {
                    let w = choose|w: int| 0 <= w < rest.len() && rest[w] == n;
                    assert(names[w + 1] == n);
                }
            }
            let res = spec_dedup(acc, names);
            assert(res.take(acc2.len() as int).len() == acc2.len());
            assert forall|i: int| 0 <= i < acc.len() implies res.take(acc.len() as int)[i]
                == acc[i] by {
                assert(res.take(acc2.len() as int)[i] == res[i]);
                assert(res.take(acc.len() as int)[i] == res[i]);
                assert(res.take(acc2.len() as int)[i] == acc2[i]);
                assert(acc2[i] == acc[i]);
            }
            assert(res.take(acc.len() as int) =~= acc);
        }
    }
}

/// The first occurrence of a present name is a position holding that name,
/// and no earlier position holds it.
proof fn lemma_first_occurrence(names: Seq<Seq<char>>, n: Seq<char>)
    requires
        has_text(names, n),
    ensures
        0 <= first_occurrence(names, n) < names.len(),
        names[first_occurrence(names, n)] == n,
        forall|m: int| 0 <= m < first_occurrence(names, n) ==> names[m] != n,
    decreases names.len(),
{
    if names[0] != n {
        let rest = names.drop_first();
        let w = choose|w: int| 0 <= w < names.len() && names[w] == n;
        assert(rest[w - 1] == n);
        lemma_first_occurrence(rest, n);
        let fo = first_occurrence(rest, n);
        assert(names[1 + fo] == rest[fo]);
        assert forall|m: int| 0 <= m < first_occurrence(names, n) implies names[m] != n by {
            if m > 0 {
                assert(rest[m - 1] == names[m]);
            }
        }
    }
}

/// Deduplicated names stand in first-seen order: every entry added by
/// deduplication is a requested name that the accumulator lacked, and the
/// added entries appear in strictly increasing order of their first request.
proof fn lemma_dedup_first_seen_general(acc: Seq<Seq<char>>, names: Seq<Seq<char>>)
    requires
        no_dup_texts(acc),
    ensures
        ({
            let d = spec_dedup(acc, names);
            &&& (forall|i: int|
                acc.len() <= i < d.len() ==> !has_text(acc, #[trigger] d[i]) && has_text(
                    names,
                    d[i],
                ))
            &&& (forall|i: int, j: int|
                acc.len() <= i < j < d.len() ==> first_occurrence(names, #[trigger] d[i])
                    < first_occurrence(names, #[trigger] d[j]))
        }),
    decreases names.len(),
{
    if names.len() == 0 {
    } else {
        let d = spec_dedup(acc, names);
        let rest = names.drop_first();
        if has_text(acc, names[0]) {
            lemma_dedup_first_seen_general(acc, rest);
            assert(d == spec_dedup(acc, rest));
            assert forall|i: int| acc.len() <= i < d.len() implies !has_text(acc, #[trigger] d[i])
                && has_text(names, d[i]) by {
                assert(!has_text(acc, d[i]) && has_text(rest, d[i]));
                let w = choose|w: int| 0 <= w < rest.len() && rest[w] == d[i];
                assert(names[w + 1] == d[i]);
            }
            assert forall|i: int, j: int|
                acc.len() <= i < j < d.len() implies first_occurrence(names, #[trigger] d[i])
                    < first_occurrence(names, #[trigger] d[j]) by {
                assert(!has_text(acc, d[i]) && has_text(rest, d[i]));
                assert(!has_text(acc, d[j]) && has_text(rest, d[j]));
                assert(first_occurrence(rest, d[i]) < first_occurrence(rest, d[j]));
                assert(d[i] != names[0]) by {
                    assert(!has_text(acc, d[i]));
                }
                assert(d[j] != names[0]);
                assert(first_occurrence(names, d[i]) == 1 + first_occurrence(rest, d[i]));
                assert(first_occurrence(names, d[j]) == 1 + first_occurrence(rest, d[j]));
            }
        } else {
            let acc2 = acc.push(names[0]);
            assert(no_dup_texts(acc2)) by {
                assert forall|i: int, j: int| 0 <= i < j < acc2.len() implies acc2[i] != acc2[j] by {
                    if j == acc.len() {
                        assert(!has_text(acc, names[0]));
                        assert(acc2[i] == acc[i]);
                    }
                }
            }
            lemma_dedup_first_seen_general(acc2, rest);
            lemma_dedup_imports(acc2, rest);
            assert(d == spec_dedup(acc2, rest));
            assert(d.take(acc2.len() as int) == acc2);
            assert(d[acc.len() as int] == acc2[acc.len() as int]) by {
                assert(d.take(acc2.len() as int)[acc.len() as int] == d[acc.len() as int]);
            }
            assert(d[acc.len() as int] == names[0]);
            assert forall|i: int| acc.len() <= i < d.len() implies !has_text(acc, #[trigger] d[i])
                && has_text(names, d[i]) by {
                if i == acc.len() {
                    assert(names[0] == d[i]);
                } else {
                    assert(!has_text(acc2, d[i]) && has_text(rest, d[i]));
                    assert forall|w: int| 0 <= w < acc.len() implies acc[w] != d[i] by {
                        assert(acc2[w] == acc[w]);
                    }
                    let w = choose|w: int| 0 <= w < rest.len() && rest[w] == d[i];
                    assert(names[w + 1] == d[i]);
                }
            }
            assert forall|i: int, j: int|
                acc.len() <= i < j < d.len() implies first_occurrence(names, #[trigger] d[i])
                    < first_occurrence(names, #[trigger] d[j]) by {
                assert(!has_text(acc2, d[j]) && has_text(rest, d[j]));
                assert(d[j] != names[0]) by {
                    assert(acc2[acc.len() as int] == names[0]);
                }
                lemma_first_occurrence(rest, d[j]);
                assert(first_occurrence(names, d[j]) == 1 + first_occurrence(rest, d[j]));
                if i == acc.len() {
                    assert(first_occurrence(names, d[i]) == 0);
                } else {
                    assert(!has_text(acc2, d[i]) && has_text(rest, d[i]));
                    assert(d[i] != names[0]) by {
                        assert(acc2[acc.len() as int] == names[0]);
                    }
                    assert(first_occurrence(rest, d[i]) < first_occurrence(rest, d[j]));
                    assert(first_occurrence(names, d[i]) == 1 + first_occurrence(rest, d[i]));
                }
            }
        }
    }
}

/// The module's `#include` list stands in first-seen order: every entry is
/// a requested name, and the entries appear in strictly increasing order of
/// the position of their first request.
pub proof fn lemma_includes_first_seen_order(names: Seq<Seq<char>>)
    ensures
        ({
            let d = spec_dedup(Seq::empty(), names);
            &&& (forall|i: int| 0 <= i < d.len() ==> has_text(names, #[trigger] d[i]))
            &&& (forall|i: int, j: int|
                0 <= i < j < d.len() ==> first_occurrence(names, #[trigger] d[i])
                    < first_occurrence(names, #[trigger] d[j]))
        }),
{
    lemma_dedup_first_seen_general(Seq::empty(), names);
}

/// A function defined with zero blocks emits only its signature text: no
/// braces, no body, and no imports.
pub proof fn lemma_prototype_only(f: Function)
    requires
        f.blocks@.len() == 0,
    ensures
        spec_compile_function(f) == Ok::<(Seq<char>, Seq<Seq<char>>), EmitErr>(
            (spec_signature_text(f), Seq::<Seq<char>>::empty()),
        ),
{
}

/// A static-scope accessor is never rendered around: when the accessors
/// before it render (no earlier static accessor, every earlier index
/// operand renders), the whole chain fails with `UnsupportedConstruct`
/// naming the reference's root.
pub proof fn lemma_static_scope_fails(
    vals: Seq<ValueInfo>,
    bound: int,
    root: Seq<char>,
    props: Seq<NamedProperty>,
    k: int,
    j: int,
)
    requires
        0 <= k <= j < props.len(),
        props[j] is Static,
        forall|m: int|
            k <= m < j ==> !(#[trigger] props[m] is Static) && (props[m] matches
            NamedProperty::Index(v) ==> spec_render_arg(vals, bound, v) is Ok),
    ensures
        spec_render_props(vals, bound, root, props, k) == Err::<Seq<char>, RenderErr>(
            RenderErr::UnsupportedConstruct { name: root },
        ),
    decreases j - k,
{
    if k < j {
        lemma_static_scope_fails(vals, bound, root, props, k + 1, j);
    }
}

/// A named reference ending in a static-scope accessor, with every earlier
/// accessor rendering, fails with `UnsupportedConstruct` naming its root:
/// no partial or silently corrected text is produced.
pub proof fn lemma_static_named_fails(vals: Seq<ValueInfo>, bound: int, n: Named)
    requires
        n.properties@.len() > 0,
        n.properties@.last() is Static,
        forall|m: int|
            0 <= m < n.properties@.len() - 1 ==> !(#[trigger] n.properties@[m] is Static) && (
            n.properties@[m] matches NamedProperty::Index(v) ==> spec_render_arg(
                vals,
                bound,
                v,
            ) is Ok),
    ensures
        spec_render_named(vals, bound, n) == Err::<Seq<char>, RenderErr>(
            RenderErr::UnsupportedConstruct { name: n.name@ },
        ),
{
    lemma_static_scope_fails(
        vals,
        bound,
        n.name@,
        n.properties@,
        0,
        n.properties@.len() - 1,
    );
}

/// Holds when a rendering result reports an unsupported construct.
pub open spec fn unsupported_result(r: Result<Seq<char>, RenderErr>) -> bool {
    r matches Err(e) && e is UnsupportedConstruct
}

/// Holds when no accessor of `n` is a static-scope accessor.
pub open spec fn named_static_free(n: Named) -> bool {
    forall|m: int| 0 <= m < n.properties@.len() ==> !(#[trigger] n.properties@[m] is Static)
}

/// Holds when no named reference of the value table uses a static-scope
/// accessor.
pub open spec fn table_static_free(vals: Seq<ValueInfo>) -> bool {
    forall|i: int|
        0 <= i < vals.len() ==> (#[trigger] vals[i] matches ValueInfo::Named(n)
            ==> named_static_free(n))
}

/// Rendering an operand of a static-free table never reports an
/// unsupported construct.
proof fn lemma_static_free_arg(vals: Seq<ValueInfo>, bound: int, a: Value)
    requires
        table_static_free(vals),
    ensures
        !unsupported_result(spec_render_arg(vals, bound, a)),
    decreases bound, 0int, 0int,
{
    if a.0 < bound {
        lemma_static_free_value(vals, a.0 as int);
    }
}

/// Rendering an entry of a static-free table never reports an unsupported
/// construct.
proof fn lemma_static_free_value(vals: Seq<ValueInfo>, i: int)
    requires
        table_static_free(vals),
    ensures
        !unsupported_result(spec_render_value(vals, i)),
    decreases i, 3int, 0int,
{
    if 0 <= i < vals.len() {
        match vals[i] {
            ValueInfo::Named(n) => {
                lemma_static_free_named(vals, i, n);
            },
            ValueInfo::Instruction(ii) => {
                lemma_static_free_inst(vals, i, ii);
            },
            _ => {},
        }
    }
}

/// Rendering a static-free accessor chain over a static-free table never
/// reports an unsupported construct.
proof fn lemma_static_free_props(
    vals: Seq<ValueInfo>,
    bound: int,
    root: Seq<char>,
    props: Seq<NamedProperty>,
    k: int,
)
    requires
        table_static_free(vals),
        forall|m: int| 0 <= m < props.len() ==> !(#[trigger] props[m] is Static),
    ensures
        !unsupported_result(spec_render_props(vals, bound, root, props, k)),
    decreases bound, 1int, props.len() - k,
{
    if 0 <= k < props.len() {
        match props[k] {
            NamedProperty::Index(v) => lemma_static_free_arg(vals, bound, v),
            _ => (),
        }
        lemma_static_free_props(vals, bound, root, props, k + 1);
    }
}

/// Rendering the call arguments of a static-free table never reports an
/// unsupported construct.
proof fn lemma_static_free_call_args(vals: Seq<ValueInfo>, bound: int, args: Seq<Value>, k: int)
    requires
        table_static_free(vals),
    ensures
        !unsupported_result(spec_render_call_args(vals, bound, args, k)),
    decreases bound, 2int, args.len() - k,
{
    if 0 <= k < args.len() {
        lemma_static_free_arg(vals, bound, args[k]);
        if k < args.len() - 1 {
            lemma_static_free_call_args(vals, bound, args, k + 1);
        }
    }
}

/// Only a static-scope accessor yields `UnsupportedConstruct` from a named
/// reference: over a static-free table, a chain without one renders or
/// reports an invalid handle, never an unsupported construct.  Together
/// with `lemma_static_named_fails` this pins when the unsupported-construct
/// failure arises.
pub proof fn lemma_static_free_named(vals: Seq<ValueInfo>, bound: int, n: Named)
    requires
        table_static_free(vals),
        named_static_free(n),
    ensures
        !unsupported_result(spec_render_named(vals, bound, n)),
    decreases bound, 2int, 0int,
{
    lemma_static_free_props(vals, bound, n.name@, n.properties@, 0);
}

/// Only a static-scope accessor yields `UnsupportedConstruct` from an
/// instruction: over a static-free table, rendering any instruction either
/// succeeds or reports an invalid handle.
pub proof fn lemma_static_free_inst(vals: Seq<ValueInfo>, bound: int, inst: InstructionInfo)
    requires
        table_static_free(vals),
    ensures
        !unsupported_result(spec_render_inst(vals, bound, inst)),
    decreases bound, 2int, inst.arguments@.len() + 1,
{
    let args = inst.arguments@;
    match inst.opcode {
        Opcode::BitNot | Opcode::Not | Opcode::Jmp => {
            if args.len() >= 1 {
                lemma_static_free_arg(vals, bound, args[0]);
            }
        },
        Opcode::Ret => {
            if args.len() >= 1 {
                lemma_static_free_arg(vals, bound, args[0]);
            }
        },
        Opcode::Call => {
            if args.len() >= 1 {
                lemma_static_free_arg(vals, bound, args[0]);
                lemma_static_free_call_args(vals, bound, args, 1);
            }
        },
        _ => {
            if args.len() >= 1 {
                lemma_static_free_arg(vals, bound, args[0]);
            }
            if args.len() >= 2 {
                lemma_static_free_arg(vals, bound, args[1]);
            }
        },
    }
}

/// Emission has no hidden state: any two results that meet `emit`'s
/// contract on the same module agree byte for byte, errors included.
pub proof fn lemma_emit_deterministic(
    m: crate::module::Module,
    r1: Result<String, crate::cbackend::EmitError>,
    r2: Result<String, crate::cbackend::EmitError>,
)
    requires
        crate::cbackend::emit_matches(r1, m),
        crate::cbackend::emit_matches(r2, m),
    ensures
        r1 is Ok <==> r2 is Ok,
        r1 matches Ok(t1) ==> r2 matches Ok(t2) && t1@ == t2@,
        r1 matches Err(e1) ==> r2 matches Err(e2) && e1@ == e2@,
{
}

} // verus!
