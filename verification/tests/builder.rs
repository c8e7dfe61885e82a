use cardinal_codegen::entities::{AbiType, Named, NamedProperty, Type, Value};
use cardinal_codegen::function::{Function, FunctionSignature};

#[test]
fn test_function() {
    let sig = FunctionSignature::new();

    let mut func = Function::new("main".into(), sig);

    let v = func.declare_var("my_var".into(), AbiType(Named::new("int".into()), Type::Plain));

    let block = func.create_block();
    let block0 = func.use_block(block);

    let tmp0 = block0.iconst_int(21);
    let tmp1 = block0.iconst_int(21);
    let tmp2 = block0.iadd(tmp0, tmp1);

    let tmp3 = block0.iuse(v.named());
    block0.set(tmp3, tmp2);
}

#[test]
fn handles_are_issued_in_order() {
    let mut func = Function::new("f".into(), FunctionSignature::new());
    let block = func.create_block();
    let b = func.use_block(block);

    let v0 = b.iconst_int(1);
    let v1 = b.iconst_bool(true);
    let v2 = b.iconst_str("x".into());
    let v3 = b.iadd(v0, v1);
    let v4 = b.iuse(Named::new("n".into()));

    assert!(v0 == Value(0));
    assert!(v1 == Value(1));
    assert!(v2 == Value(2));
    assert!(v3 == Value(3));
    assert!(v4 == Value(4));
    assert_eq!(b.values.len(), 5);
}

#[test]
fn builder_never_invalidates_handles() {
    let mut func = Function::new("f".into(), FunctionSignature::new());
    let block = func.create_block();
    let b = func.use_block(block);

    let v0 = b.iconst_int(7);
    for _ in 0..10 {
        b.iconst_int(9);
    }
    // The first entry is still the one that handle v0 was issued for.
    assert!(v0 == Value(0));
    assert!(matches!(
        b.values[0],
        cardinal_codegen::entities::ValueInfo::IntegerConstant(7)
    ));
    assert_eq!(b.values.len(), 11);
}

#[test]
fn require_import_deduplicates_within_block() {
    let mut func = Function::new("f".into(), FunctionSignature::new());
    let block = func.create_block();
    let b = func.use_block(block);

    b.require_import("stdio.h".into());
    b.require_import("stdint.h".into());
    b.require_import("stdio.h".into());

    assert_eq!(b.imports, vec!["stdio.h".to_string(), "stdint.h".to_string()]);
}

#[test]
fn ctype_constructors_register_imports() {
    let mut func = Function::new("f".into(), FunctionSignature::new());
    let block = func.create_block();
    let b = func.use_block(block);

    let t = b.ctype_bool();
    assert_eq!(t.0.name, "bool");
    assert!(t.1 == Type::Plain);
    let t = b.ctype_uint8();
    assert_eq!(t.0.name, "uint8_t");
    let t = b.ctype_int16();
    assert_eq!(t.0.name, "int16_t");
    let t = b.ctype_int64();
    assert_eq!(t.0.name, "int64_t");
    let t = b.ctype_char();
    assert_eq!(t.0.name, "char");

    assert_eq!(b.imports, vec!["stdbool.h".to_string(), "stdint.h".to_string()]);
}

#[test]
fn named_property_constructors() {
    let mut func = Function::new("f".into(), FunctionSignature::new());
    let block = func.create_block();
    let b = func.use_block(block);

    assert!(matches!(b.iconst_named_property("p".into()), NamedProperty::Basic(_)));
    assert!(matches!(b.iconst_named_static("p".into()), NamedProperty::Static(_)));
    assert!(matches!(b.iconst_named_pointer("p".into()), NamedProperty::Pointer(_)));
    assert!(matches!(b.iconst_named_index(Value(0)), NamedProperty::Index(Value(0))));
}

#[test]
fn declare_var_last_write_wins() {
    let mut func = Function::new("f".into(), FunctionSignature::new());
    func.declare_var("x".into(), AbiType(Named::new("int".into()), Type::Plain));
    func.declare_var("y".into(), AbiType(Named::new("int".into()), Type::Plain));
    func.declare_var("x".into(), AbiType(Named::new("char".into()), Type::Pointer));

    assert_eq!(func.variables.len(), 2);
    assert_eq!(func.variables[0].0, "x");
    assert_eq!(func.variables[0].1.0.name, "char");
    assert!(func.variables[0].1.1 == Type::Pointer);
    assert_eq!(func.variables[1].0, "y");
}

#[test]
fn module_define_function_last_write_wins() {
    let mut m = cardinal_codegen::Module::new();
    m.declare_function("a".into());
    m.declare_function("b".into());
    m.declare_function("a".into());
    assert_eq!(m.functions.len(), 2);
    assert_eq!(m.functions[0].name, "a");
    assert_eq!(m.functions[1].name, "b");

    let mut f = Function::new("b".into(), FunctionSignature::new());
    f.create_block();
    m.define_function(f);
    assert_eq!(m.functions.len(), 2);
    assert_eq!(m.functions[1].blocks.len(), 1);
}

#[test]
fn module_declare_variable_returns_named_handle() {
    let mut m = cardinal_codegen::Module::new();
    let g = m.declare_variable("counter".into(), AbiType(Named::new("int".into()), Type::Plain));
    assert_eq!(m.data.len(), 1);
    let n = g.named();
    assert_eq!(n.name, "counter");
    assert!(n.properties.is_empty());
}

#[test]
fn nested_blocks_get_their_own_handles() {
    let mut func = Function::new("f".into(), FunctionSignature::new());
    let outer = func.create_block();
    let b = func.use_block(outer);

    let inner = cardinal_codegen::instruction::InstBlock {
        block_type: cardinal_codegen::instruction::BlockType::Basic,
        elses: vec![],
        else_block: None,
        values: vec![],
        insts: vec![],
        imports: vec![],
        blocks: vec![],
    };
    let h = b.create_block(inner);
    assert!(h == cardinal_codegen::entities::Block(0));

    let nested = b.use_block(h);
    let v = nested.iconst_int(3);
    assert!(v == Value(0));
    assert_eq!(b.blocks.len(), 1);
}
