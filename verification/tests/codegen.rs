use ether_codegen::ast::{Declaration, Function, FunctionSig, Program, StructDef, Type, VarDecl};
use ether_codegen::codegen::CodeGen;
use ether_codegen::llvm_type::BasicTy;
use inkwell::context::Context;
use inkwell::types::BasicTypeEnum;
use inkwell::AddressSpace;

fn conv<'ctx>(cg: &CodeGen<'ctx>, ty: &Type) -> Result<BasicTypeEnum<'ctx>, String> {
    cg.convert_type(ty).map(|t| t.handle())
}

fn prim(name: &str) -> Type {
    Type::Primitive(name.to_string())
}

fn custom(name: &str) -> Type {
    Type::Custom(name.to_string())
}

fn field(name: &str, ty: Type) -> (String, Type) {
    (name.to_string(), ty)
}

fn struct_def(name: &str, fields: Vec<(String, Type)>) -> StructDef {
    StructDef { name: name.to_string(), fields }
}

fn function(name: &str, params: Vec<(String, Type)>, return_type: Type) -> Function {
    Function { name: name.to_string(), params, return_type }
}

#[test]
fn primitive_types_convert() {
    let context = Context::create();
    let cg = CodeGen::new(&context, "m");
    let i64t: BasicTypeEnum = context.i64_type().into();
    let f64t: BasicTypeEnum = context.f64_type().into();
    let boolt: BasicTypeEnum = context.bool_type().into();
    let i8t: BasicTypeEnum = context.i8_type().into();
    let strt: BasicTypeEnum = context.i8_type().ptr_type(AddressSpace::default()).into();
    assert_eq!(conv(&cg, &prim("int")), Ok(i64t));
    assert_eq!(conv(&cg, &prim("float")), Ok(f64t));
    assert_eq!(conv(&cg, &prim("bool")), Ok(boolt));
    assert_eq!(conv(&cg, &prim("char")), Ok(i8t));
    assert_eq!(conv(&cg, &prim("string")), Ok(strt));
}

#[test]
fn void_is_rejected() {
    let context = Context::create();
    let cg = CodeGen::new(&context, "m");
    assert_eq!(conv(&cg, &prim("void")), Err("void is not a basic type".to_string()));
}

#[test]
fn unknown_primitive_is_rejected() {
    let context = Context::create();
    let cg = CodeGen::new(&context, "m");
    assert_eq!(conv(&cg, &prim("quux")), Err("Unknown primitive type: quux".to_string()));
}

#[test]
fn unknown_custom_is_rejected() {
    let context = Context::create();
    let cg = CodeGen::new(&context, "m");
    assert_eq!(conv(&cg, &custom("Point")), Err("Unknown custom type: Point".to_string()));
}

#[test]
fn array_is_pointer_to_element() {
    let context = Context::create();
    let cg = CodeGen::new(&context, "m");
    let expected: BasicTypeEnum = context.i64_type().ptr_type(AddressSpace::default()).into();
    assert_eq!(conv(&cg, &Type::Array(Box::new(prim("int")))), Ok(expected));
    let nested: BasicTypeEnum = context
        .f64_type()
        .ptr_type(AddressSpace::default())
        .ptr_type(AddressSpace::default())
        .into();
    assert_eq!(conv(&cg, &Type::Array(Box::new(Type::Array(Box::new(prim("float")))))), Ok(nested));
}

#[test]
fn array_of_void_fails_like_void() {
    let context = Context::create();
    let cg = CodeGen::new(&context, "m");
    assert_eq!(conv(&cg, &Type::Array(Box::new(prim("void")))), Err("void is not a basic type".to_string()));
}

#[test]
fn function_type_is_byte_pointer() {
    let context = Context::create();
    let cg = CodeGen::new(&context, "m");
    let expected: BasicTypeEnum = context.i8_type().ptr_type(AddressSpace::default()).into();
    let fty = Type::Function(Box::new(FunctionSig { params: vec![prim("int")], return_type: prim("void") }));
    assert_eq!(conv(&cg, &fty), Ok(expected));
}

#[test]
fn is_void_type_only_for_void() {
    let context = Context::create();
    let cg = CodeGen::new(&context, "m");
    assert!(cg.is_void_type(&prim("void")));
    assert!(!cg.is_void_type(&prim("int")));
    assert!(!cg.is_void_type(&custom("void")));
    assert!(!cg.is_void_type(&Type::Array(Box::new(prim("void")))));
}

#[test]
fn declared_struct_resolves() {
    let context = Context::create();
    let mut cg = CodeGen::new(&context, "m");
    let s = struct_def("Point", vec![field("x", prim("int")), field("y", prim("float"))]);
    assert_eq!(cg.declare_struct(&s), Ok(()));
    let fields: Vec<BasicTypeEnum> = vec![context.i64_type().into(), context.f64_type().into()];
    let expected: BasicTypeEnum = context.struct_type(&fields, false).into();
    assert_eq!(conv(&cg, &custom("Point")), Ok(expected));
}

#[test]
fn failed_struct_changes_nothing() {
    let context = Context::create();
    let mut cg = CodeGen::new(&context, "m");
    let s = struct_def("Bad", vec![field("a", prim("int")), field("b", prim("void")), field("c", prim("nope"))]);
    assert_eq!(cg.declare_struct(&s), Err("void is not a basic type".to_string()));
    assert_eq!(conv(&cg, &custom("Bad")), Err("Unknown custom type: Bad".to_string()));
}

#[test]
fn redeclared_struct_replaces_earlier() {
    let context = Context::create();
    let mut cg = CodeGen::new(&context, "m");
    assert_eq!(cg.declare_struct(&struct_def("S", vec![field("a", prim("int"))])), Ok(()));
    assert_eq!(cg.declare_struct(&struct_def("T", vec![field("s", custom("S"))])), Ok(()));
    assert_eq!(cg.declare_struct(&struct_def("S", vec![field("b", prim("bool"))])), Ok(()));
    let b: Vec<BasicTypeEnum> = vec![context.bool_type().into()];
    let s_now: BasicTypeEnum = context.struct_type(&b, false).into();
    assert_eq!(conv(&cg, &custom("S")), Ok(s_now));
    // T keeps the S it was declared with.
    let a: Vec<BasicTypeEnum> = vec![context.i64_type().into()];
    let s_then: BasicTypeEnum = context.struct_type(&a, false).into();
    let t_fields: Vec<BasicTypeEnum> = vec![s_then];
    let t: BasicTypeEnum = context.struct_type(&t_fields, false).into();
    assert_eq!(conv(&cg, &custom("T")), Ok(t));
}

#[test]
fn declare_function_adds_declaration() {
    let context = Context::create();
    let mut cg = CodeGen::new(&context, "m");
    let f = function("add", vec![field("a", prim("int")), field("b", prim("int"))], prim("int"));
    assert_eq!(cg.declare_function(&f), Ok(()));
    let g = function("log", vec![field("msg", prim("string"))], prim("void"));
    assert_eq!(cg.declare_function(&g), Ok(()));
    let ir = cg.ir_text();
    assert!(ir.contains("declare i64 @add(i64, i64)"), "{}", ir);
    assert!(ir.contains("declare void @log(i8*)"), "{}", ir);
}

#[test]
fn declare_function_reports_first_bad_type() {
    let context = Context::create();
    let mut cg = CodeGen::new(&context, "m");
    let f = function("f", vec![field("a", custom("Missing")), field("b", prim("void"))], prim("nope"));
    assert_eq!(cg.declare_function(&f), Err("Unknown custom type: Missing".to_string()));
    let g = function("g", vec![field("a", prim("int"))], prim("nope"));
    assert_eq!(cg.declare_function(&g), Err("Unknown primitive type: nope".to_string()));
    assert!(!cg.ir_text().contains("@f"));
    assert!(!cg.ir_text().contains("@g"));
}

#[test]
fn global_var_gets_storage() {
    let context = Context::create();
    let mut cg = CodeGen::new(&context, "m");
    assert_eq!(cg.compile_global_var(&VarDecl { name: "counter".to_string(), ty: prim("int") }), Ok(()));
    assert_eq!(
        cg.compile_global_var(&VarDecl { name: "nothing".to_string(), ty: prim("void") }),
        Err("void is not a basic type".to_string())
    );
    let ir = cg.ir_text();
    assert!(ir.contains("@counter = external global i64"), "{}", ir);
    assert!(!ir.contains("@nothing"), "{}", ir);
}

#[test]
fn compile_function_emits_entry() {
    let context = Context::create();
    let mut cg = CodeGen::new(&context, "m");
    let f = function("show", vec![field("x", prim("int")), field("flag", prim("bool"))], prim("void"));
    assert_eq!(cg.declare_function(&f), Ok(()));
    assert_eq!(cg.compile_function(&f), Ok(()));
    let ir = cg.ir_text();
    assert!(ir.contains("define void @show(i64 %0, i1 %1)"), "{}", ir);
    assert!(ir.contains("entry:"), "{}", ir);
    assert!(ir.contains("%x = alloca i64"), "{}", ir);
    assert!(ir.contains("%flag = alloca i1"), "{}", ir);
    assert!(ir.contains("store i64 %0, i64* %x"), "{}", ir);
    assert!(ir.contains("ret void"), "{}", ir);
}

#[test]
fn compile_program_sees_later_structs() {
    let context = Context::create();
    let mut cg = CodeGen::new(&context, "ether_module");
    let program = Program {
        declarations: vec![
            Declaration::Function(function("origin", vec![field("p", custom("Point"))], prim("void"))),
            Declaration::Var(VarDecl { name: "pt".to_string(), ty: custom("Point") }),
            Declaration::Struct(struct_def("Point", vec![field("x", prim("int")), field("y", prim("int"))])),
        ],
    };
    assert_eq!(cg.compile_program(&program), Ok(()));
    let ir = cg.ir_text();
    assert!(ir.contains("define void @origin({ i64, i64 } %0)"), "{}", ir);
    assert!(ir.contains("@pt = external global { i64, i64 }"), "{}", ir);
    assert!(ir.contains("%p = alloca { i64, i64 }"), "{}", ir);
}

#[test]
fn compile_program_stops_at_first_struct_error() {
    let context = Context::create();
    let mut cg = CodeGen::new(&context, "m");
    let program = Program {
        declarations: vec![
            Declaration::Function(function("f", vec![], prim("nope"))),
            Declaration::Struct(struct_def("A", vec![field("b", custom("B"))])),
            Declaration::Struct(struct_def("B", vec![field("x", prim("int"))])),
        ],
    };
    // Structs are declared in order, so A cannot see B yet; the function's
    // error comes in the second pass and is never reached.
    assert_eq!(cg.compile_program(&program), Err("Unknown custom type: B".to_string()));
    assert!(!cg.ir_text().contains("@f"));
}

#[test]
fn compile_program_stops_at_first_function_error() {
    let context = Context::create();
    let mut cg = CodeGen::new(&context, "m");
    let program = Program {
        declarations: vec![
            Declaration::Var(VarDecl { name: "g".to_string(), ty: prim("void") }),
            Declaration::Function(function("ok", vec![], prim("int"))),
            Declaration::Function(function("bad", vec![], prim("nope"))),
            Declaration::Function(function("worse", vec![field("v", prim("void"))], prim("int"))),
        ],
    };
    assert_eq!(cg.compile_program(&program), Err("Unknown primitive type: nope".to_string()));
    let ir = cg.ir_text();
    assert!(ir.contains("declare i64 @ok()"), "{}", ir);
    assert!(!ir.contains("@worse"), "{}", ir);
    assert!(!ir.contains("@g"), "{}", ir);
}

#[test]
fn compile_program_reports_global_error_in_third_pass() {
    let context = Context::create();
    let mut cg = CodeGen::new(&context, "m");
    let program = Program {
        declarations: vec![
            Declaration::Function(function("main", vec![], prim("void"))),
            Declaration::Var(VarDecl { name: "g".to_string(), ty: prim("void") }),
            Declaration::Var(VarDecl { name: "h".to_string(), ty: prim("int") }),
        ],
    };
    assert_eq!(cg.compile_program(&program), Err("void is not a basic type".to_string()));
    let ir = cg.ir_text();
    assert!(ir.contains("define void @main()"), "{}", ir);
    assert!(!ir.contains("@h"), "{}", ir);
}

#[test]
fn empty_program_compiles() {
    let context = Context::create();
    let mut cg = CodeGen::new(&context, "empty");
    assert_eq!(cg.compile_program(&Program { declarations: vec![] }), Ok(()));
    assert!(cg.ir_text().contains("ModuleID = 'empty'"));
}

#[test]
fn duplicate_copies_nested_types() {
    let t = BasicTy::Struct(vec![BasicTy::I64, BasicTy::Pointer(Box::new(BasicTy::Struct(vec![BasicTy::Bool, BasicTy::Double])))]);
    assert_eq!(t.duplicate(), t);
}


#[test]
fn declaring_leaves_other_names() {
    let context = Context::create();
    let mut cg = CodeGen::new(&context, "m");
    assert_eq!(cg.declare_struct(&struct_def("A", vec![field("x", prim("char"))])), Ok(()));
    let before = conv(&cg, &custom("A"));
    assert_eq!(cg.declare_struct(&struct_def("B", vec![field("y", prim("float"))])), Ok(()));
    assert_eq!(conv(&cg, &custom("A")), before);
    assert_eq!(conv(&cg, &custom("C")), Err("Unknown custom type: C".to_string()));
}

#[test]
fn unnamed_structs_do_not_matter() {
    let context = Context::create();
    let mut cg = CodeGen::new(&context, "m");
    let before = conv(&cg, &Type::Array(Box::new(prim("int"))));
    assert_eq!(cg.declare_struct(&struct_def("int", vec![field("x", prim("bool"))])), Ok(()));
    assert_eq!(conv(&cg, &Type::Array(Box::new(prim("int")))), before);
}

#[test]
fn duplicate_function_is_refused() {
    let context = Context::create();
    let mut cg = CodeGen::new(&context, "m");
    assert_eq!(cg.declare_function(&function("f", vec![field("a", prim("int"))], prim("void"))), Ok(()));
    assert_eq!(
        cg.declare_function(&function("f", vec![], prim("bool"))),
        Err("Function already declared: f".to_string())
    );
    let program = Program {
        declarations: vec![
            Declaration::Function(function("g", vec![], prim("void"))),
            Declaration::Function(function("g", vec![field("x", prim("float"))], prim("void"))),
        ],
    };
    let mut cg2 = CodeGen::new(&context, "n");
    assert_eq!(cg2.compile_program(&program), Err("Function already declared: g".to_string()));
}

#[test]
fn struct_only_program_compiles() {
    let context = Context::create();
    let mut cg = CodeGen::new(&context, "s");
    let program = Program {
        declarations: vec![
            Declaration::Struct(struct_def("A", vec![field("x", prim("int"))])),
            Declaration::Struct(struct_def("B", vec![field("a", custom("A"))])),
        ],
    };
    assert_eq!(cg.compile_program(&program), Ok(()));
    assert!(!cg.ir_text().contains("define"));
    assert!(!cg.ir_text().contains("global"));
    let a: Vec<BasicTypeEnum> = vec![context.i64_type().into()];
    let at: BasicTypeEnum = context.struct_type(&a, false).into();
    let b: Vec<BasicTypeEnum> = vec![at];
    let bt: BasicTypeEnum = context.struct_type(&b, false).into();
    assert_eq!(conv(&cg, &custom("B")), Ok(bt));
}

#[test]
fn order_between_kinds_does_not_matter() {
    let decls = |struct_first: bool| {
        let s = Declaration::Struct(struct_def("P", vec![field("x", prim("int"))]));
        let f = Declaration::Function(function("use_p", vec![field("p", custom("P"))], prim("void")));
        let g = Declaration::Var(VarDecl { name: "gp".to_string(), ty: custom("P") });
        if struct_first { vec![s, f, g] } else { vec![f, g, s] }
    };
    let context = Context::create();
    let mut cg1 = CodeGen::new(&context, "m");
    let mut cg2 = CodeGen::new(&context, "m");
    assert_eq!(cg1.compile_program(&Program { declarations: decls(true) }), Ok(()));
    assert_eq!(cg2.compile_program(&Program { declarations: decls(false) }), Ok(()));
    assert_eq!(cg1.ir_text(), cg2.ir_text());
}

#[test]
fn parameterless_void_function_gets_entry_and_return() {
    let context = Context::create();
    let mut cg = CodeGen::new(&context, "m");
    let program = Program { declarations: vec![Declaration::Function(function("main", vec![], prim("void")))] };
    assert_eq!(cg.compile_program(&program), Ok(()));
    let ir = cg.ir_text();
    assert!(ir.contains("define void @main() {\nentry:\n  ret void\n}"), "{}", ir);
}

#[test]
fn non_void_function_entry_has_no_return() {
    let context = Context::create();
    let mut cg = CodeGen::new(&context, "m");
    let f = function("get", vec![field("n", prim("int"))], prim("int"));
    assert_eq!(cg.declare_function(&f), Ok(()));
    assert_eq!(cg.compile_function(&f), Ok(()));
    let ir = cg.ir_text();
    assert!(ir.contains("%n = alloca i64"), "{}", ir);
    assert!(ir.contains("store i64 %0, i64* %n"), "{}", ir);
    assert!(!ir.contains("ret "), "{}", ir);
}
