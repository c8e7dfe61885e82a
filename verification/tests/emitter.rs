use cardinal_codegen::cbackend::{CBackend, EmitError};
use cardinal_codegen::entities::{AbiParam, AbiType, Named, NamedProperty, Type, Value};
use cardinal_codegen::function::{Function, FunctionSignature};
use cardinal_codegen::Module;

#[test]
fn test_test_function() {
    let mut m = Module::new();

    let sig = FunctionSignature::new();
    let mut func = Function::new("main".into(), sig);

    let v = func.declare_var("my_var".into(), AbiType(Named::new("int".into()), Type::Plain));

    let block = func.create_block();
    let block0 = func.use_block(block);

    block0.require_import("stdio.h".into());

    {
        let tmp0 = block0.iconst_int(21);
        let tmp1 = block0.iconst_int(21);
        let tmp2 = block0.iadd(tmp0, tmp1);

        let tmp3 = block0.iuse(v.named());
        block0.set(tmp3, tmp2);
    }

    {
        let tmp0 = Named::new("printf".into());
        let tmp1 = block0.iuse(tmp0);
        let tmp2 = block0.iuse(v.named());

        let s = block0.iconst_str("%d".into());

        block0.call(tmp1, vec![s, tmp2]);
    }

    m.define_function(func);

    let gen = CBackend::new(m);
    println!("{}", gen.emit().unwrap());
}

#[test]
fn emits_exact_text_for_simple_function() {
    let mut m = Module::new();
    let mut func = Function::new("main".into(), FunctionSignature::new());
    let v = func.declare_var("my_var".into(), AbiType(Named::new("int".into()), Type::Plain));
    let block = func.create_block();
    let b = func.use_block(block);
    b.require_import("stdio.h".into());
    let tmp0 = b.iconst_int(21);
    let tmp1 = b.iconst_int(21);
    let tmp2 = b.iadd(tmp0, tmp1);
    let tmp3 = b.iuse(v.named());
    b.set(tmp3, tmp2);
    let callee = b.iuse(Named::new("printf".into()));
    let fmt = b.iconst_str("%d".into());
    let arg = b.iuse(v.named());
    b.call(callee, vec![fmt, arg]);
    m.define_function(func);

    let out = CBackend::new(m).emit().unwrap();
    assert_eq!(
        out,
        "#include <stdio.h>\n\
         void main() {\n\
         int my_var;\n\
         block0: {\n\
         my_var = 21 + 21;\n\
         printf(\"%d\", my_var);\n\
         }\n\
         }"
    );
}

#[test]
fn set_of_sum_renders_as_assignment() {
    let mut m = Module::new();
    let mut func = Function::new("f".into(), FunctionSignature::new());
    let v = func.declare_var("v".into(), AbiType(Named::new("int".into()), Type::Plain));
    let block = func.create_block();
    let b = func.use_block(block);
    let l = b.iconst_int(21);
    let r = b.iconst_int(21);
    let sum = b.iadd(l, r);
    let dst = b.iuse(v.named());
    b.set(dst, sum);
    m.define_function(func);

    let out = CBackend::new(m).emit().unwrap();
    assert!(out.contains("v = 21 + 21"));
}

#[test]
fn call_renders_arguments_in_order() {
    let mut m = Module::new();
    let mut func = Function::new("g".into(), FunctionSignature::new());
    let block = func.create_block();
    let b = func.use_block(block);
    let callee = b.iuse(Named::new("f".into()));
    let a = b.iuse(Named::new("a".into()));
    let bb = b.iuse(Named::new("b".into()));
    let c = b.iuse(Named::new("c".into()));
    b.call(callee, vec![a, bb, c]);
    m.define_function(func);

    let out = CBackend::new(m).emit().unwrap();
    assert!(out.contains("f(a, b, c)"));
}

#[test]
fn icall_renders_like_call_and_is_usable_as_operand() {
    let mut m = Module::new();
    let mut func = Function::new("g".into(), FunctionSignature::new());
    let v = func.declare_var("v".into(), AbiType(Named::new("int".into()), Type::Plain));
    let block = func.create_block();
    let b = func.use_block(block);
    let callee = b.iuse(Named::new("f".into()));
    let a = b.iuse(Named::new("a".into()));
    let bb = b.iuse(Named::new("b".into()));
    let c = b.iuse(Named::new("c".into()));
    let result = b.icall(callee, vec![a, bb, c]);
    let dst = b.iuse(v.named());
    b.set(dst, result);
    m.define_function(func);

    let out = CBackend::new(m).emit().unwrap();
    assert!(out.contains("v = f(a, b, c)"));
}

#[test]
fn imports_deduplicate_across_blocks_and_functions() {
    let mut m = Module::new();

    let mut f1 = Function::new("one".into(), FunctionSignature::new());
    let b1 = f1.create_block();
    f1.use_block(b1).require_import("stdio.h".into());
    f1.use_block(b1).return_none();
    let b2 = f1.create_block();
    f1.use_block(b2).require_import("stdint.h".into());
    f1.use_block(b2).require_import("stdio.h".into());
    f1.use_block(b2).return_none();
    m.define_function(f1);

    let mut f2 = Function::new("two".into(), FunctionSignature::new());
    let b3 = f2.create_block();
    f2.use_block(b3).require_import("stdio.h".into());
    f2.use_block(b3).require_import("stdbool.h".into());
    f2.use_block(b3).return_none();
    m.define_function(f2);

    let out = CBackend::new(m).emit().unwrap();
    assert_eq!(out.matches("#include <stdio.h>").count(), 1);
    assert_eq!(out.matches("#include <stdint.h>").count(), 1);
    assert_eq!(out.matches("#include <stdbool.h>").count(), 1);
    // First-seen order across the whole module.
    let lines: Vec<&str> = out.lines().take(3).collect();
    assert_eq!(
        lines,
        vec!["#include <stdio.h>", "#include <stdint.h>", "#include <stdbool.h>"]
    );
}

#[test]
fn zero_block_function_emits_prototype_only() {
    let mut m = Module::new();
    let mut sig = FunctionSignature::new();
    sig.arguments.push(AbiParam(
        "argc".into(),
        AbiType(Named::new("int".into()), Type::Plain),
    ));
    sig.arguments.push(AbiParam(
        "argv".into(),
        AbiType(Named::new("char".into()), Type::Pointer),
    ));
    let func = Function::new("proto".into(), sig);
    m.define_function(func);

    let out = CBackend::new(m).emit().unwrap();
    assert_eq!(out, "\nvoid proto(int argc, char* argv)");
    assert!(!out.contains('{'));
    assert!(!out.contains('}'));
}

#[test]
fn static_scope_accessor_fails_emission() {
    let mut m = Module::new();
    let mut func = Function::new("f".into(), FunctionSignature::new());
    let block = func.create_block();
    let b = func.use_block(block);
    let named = Named::new_props(
        "obj".into(),
        vec![
            NamedProperty::Basic("field".into()),
            NamedProperty::Static("member".into()),
        ],
    );
    let val = b.iuse(named);
    b.return_(val);
    m.define_function(func);

    match CBackend::new(m).emit() {
        Err(EmitError::UnsupportedConstruct { name }) => assert_eq!(name, "obj"),
        _ => panic!("emission must fail with the unsupported-construct error"),
    }
}

#[test]
fn out_of_bounds_handle_fails_emission() {
    let mut m = Module::new();
    let mut func = Function::new("f".into(), FunctionSignature::new());
    let block = func.create_block();
    let b = func.use_block(block);
    b.return_(Value(99));
    m.define_function(func);

    match CBackend::new(m).emit() {
        Err(EmitError::InvalidHandle { handle, function, block }) => {
            assert_eq!(handle, 99);
            assert_eq!(function, "f");
            assert_eq!(block, 0);
        },
        _ => panic!("emission must fail with the invalid-handle error"),
    }
}

#[test]
fn invalid_handle_names_its_owning_container() {
    let mut m = Module::new();
    let mut func = Function::new("owner".into(), FunctionSignature::new());
    let b0 = func.create_block();
    func.use_block(b0).return_none();
    let b1 = func.create_block();
    func.use_block(b1).return_(Value(7));
    m.define_function(func);

    match CBackend::new(m).emit() {
        Err(EmitError::InvalidHandle { handle, function, block }) => {
            assert_eq!(handle, 7);
            assert_eq!(function, "owner");
            assert_eq!(block, 1);
        },
        _ => panic!("emission must fail with the invalid-handle error"),
    }
}

#[test]
fn emitting_twice_is_byte_identical() {
    let mut m = Module::new();
    let mut func = Function::new("main".into(), FunctionSignature::new());
    let v = func.declare_var("v".into(), AbiType(Named::new("int".into()), Type::Plain));
    let block = func.create_block();
    let b = func.use_block(block);
    b.require_import("stdint.h".into());
    let x = b.iconst_int(5);
    let dst = b.iuse(v.named());
    b.set(dst, x);
    b.return_none();
    m.define_function(func);

    let gen = CBackend::new(m);
    let first = gen.emit().unwrap();
    let second = gen.emit().unwrap();
    assert_eq!(first, second);
}

#[test]
fn empty_module_emits_single_newline() {
    let m = Module::new();
    let out = CBackend::new(m).emit().unwrap();
    assert_eq!(out, "\n");
}

#[test]
fn abitype_shapes_render_plain_array_and_pointer() {
    let mut m = Module::new();
    let mut func = Function::new("f".into(), FunctionSignature::new());
    func.declare_var("a".into(), AbiType(Named::new("int".into()), Type::Plain));
    func.declare_var("b".into(), AbiType(Named::new("int".into()), Type::Array(3)));
    func.declare_var("c".into(), AbiType(Named::new("char".into()), Type::Array(-1)));
    func.declare_var("d".into(), AbiType(Named::new("char".into()), Type::Pointer));
    let block = func.create_block();
    func.use_block(block).return_none();
    m.define_function(func);

    let out = CBackend::new(m).emit().unwrap();
    assert!(out.contains("int a;\n"));
    assert!(out.contains("int[3] b;\n"));
    assert!(out.contains("char[] c;\n"));
    assert!(out.contains("char* d;\n"));
}

#[test]
fn constants_render_as_literal_text() {
    let mut m = Module::new();
    let mut func = Function::new("f".into(), FunctionSignature::new());
    let block = func.create_block();
    let b = func.use_block(block);

    let zero = b.iconst_int(0);
    b.return_(zero);
    let big = b.iconst_int(u64::MAX);
    b.return_(big);
    let t = b.iconst_bool(true);
    b.return_(t);
    let f_ = b.iconst_bool(false);
    b.return_(f_);
    let s = b.iconst_str("hi".into());
    b.return_(s);
    let c = b.iconst_char("c".into());
    b.return_(c);
    let fl = b.iconst_float("1.5".into());
    b.return_(fl);
    let d = b.iconst_double("2.25".into());
    b.return_(d);
    m.define_function(func);

    let out = CBackend::new(m).emit().unwrap();
    assert!(out.contains("return 0;"));
    assert!(out.contains("return 18446744073709551615;"));
    assert!(out.contains("return true;"));
    assert!(out.contains("return false;"));
    assert!(out.contains("return \"hi\";"));
    assert!(out.contains("return 'c';"));
    assert!(out.contains("return 1.5;"));
    assert!(out.contains("return 2.25;"));
}

#[test]
fn named_accessor_chain_renders_left_to_right() {
    let mut m = Module::new();
    let mut func = Function::new("f".into(), FunctionSignature::new());
    let block = func.create_block();
    let b = func.use_block(block);

    let idx = b.iconst_int(2);
    let named = Named::new_props(
        "obj".into(),
        vec![
            NamedProperty::Basic("field".into()),
            NamedProperty::Pointer("next".into()),
            NamedProperty::Index(idx),
        ],
    );
    let val = b.iuse(named);
    b.return_(val);
    m.define_function(func);

    let out = CBackend::new(m).emit().unwrap();
    assert!(out.contains("return obj.field->next[2];"));
}

#[test]
fn jmp_renders_goto_with_block_label() {
    let mut m = Module::new();
    let mut func = Function::new("f".into(), FunctionSignature::new());
    let b0 = func.create_block();
    let b1 = func.create_block();
    func.use_block(b0).jmp(b1);
    func.use_block(b1).return_none();
    m.define_function(func);

    let out = CBackend::new(m).emit().unwrap();
    assert!(out.contains("block0: {\ngoto block1;\n}\n"));
    assert!(out.contains("block1: {\nreturn;\n}\n"));
}

#[test]
fn unary_and_binary_operators_render() {
    let mut m = Module::new();
    let mut func = Function::new("f".into(), FunctionSignature::new());
    let block = func.create_block();
    let b = func.use_block(block);

    let x = b.iuse(Named::new("x".into()));
    let y = b.iuse(Named::new("y".into()));
    let e = b.isub(x, y);
    b.return_(e);
    let e = b.imul(x, y);
    b.return_(e);
    let e = b.idiv(x, y);
    b.return_(e);
    let e = b.imod(x, y);
    b.return_(e);
    let e = b.ibit_and(x, y);
    b.return_(e);
    let e = b.ibit_or(x, y);
    b.return_(e);
    let e = b.ibit_xor(x, y);
    b.return_(e);
    let e = b.ibit_left(x, y);
    b.return_(e);
    let e = b.ibit_right(x, y);
    b.return_(e);
    let e = b.ibit_not(x);
    b.return_(e);
    let e = b.itest_eq(x, y);
    b.return_(e);
    let e = b.itest_neq(x, y);
    b.return_(e);
    let e = b.itest_gt(x, y);
    b.return_(e);
    let e = b.itest_gt_eq(x, y);
    b.return_(e);
    let e = b.itest_lt(x, y);
    b.return_(e);
    let e = b.itest_lt_eq(x, y);
    b.return_(e);
    let e = b.inot(x);
    b.return_(e);
    let e = b.ior(x, y);
    b.return_(e);
    let e = b.iand(x, y);
    b.return_(e);
    m.define_function(func);

    let out = CBackend::new(m).emit().unwrap();
    for expected in [
        "return x - y;",
        "return x * y;",
        "return x / y;",
        "return x % y;",
        "return x & y;",
        "return x | y;",
        "return x ^ y;",
        "return x << y;",
        "return x >> y;",
        "return ~x;",
        "return x == y;",
        "return x != y;",
        "return x > y;",
        "return x >= y;",
        "return x < y;",
        "return x <= y;",
        "return !x;",
        "return x || y;",
        "return x && y;",
    ] {
        assert!(out.contains(expected), "missing {expected:?} in {out}");
    }
}

#[test]
fn declared_function_emits_void_prototype() {
    let mut m = Module::new();
    m.declare_function("later".into());
    let out = CBackend::new(m).emit().unwrap();
    assert_eq!(out, "\nvoid later()");
}

#[test]
fn functions_emit_in_declaration_order() {
    let mut m = Module::new();
    m.declare_function("first".into());
    m.declare_function("second".into());
    let out = CBackend::new(m).emit().unwrap();
    assert_eq!(out, "\nvoid first()\nvoid second()");
}
