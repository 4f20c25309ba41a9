use vstd::prelude::*;

use crate::ast::{Declaration, Function, FunctionSig, StructDef, Type, VarDecl};
use crate::codegen::{
    body_pass, entry_checked, entry_emitted, fn_sig, function_checked, function_pass, global_checked, params_stored,
    struct_declared, struct_pass,
};
use crate::llvm::{ModuleModel, ModuleOp};
use crate::llvm_type::LlvmType;
use crate::types::{convert_all, is_void, type_desc, types_of};

verus! {

/// `void` is never a basic type: whatever structs are declared, converting a
/// `void` type fails with "void is not a basic type".
pub proof fn void_is_not_a_basic_type(structs: Map<Seq<char>, LlvmType>, ty: Type)
    requires
        is_void(ty),
    ensures
        type_desc(structs, ty) == Err::<LlvmType, Seq<char>>("void is not a basic type"@),
{
    reveal_strlit("void");
    reveal_strlit("int");
    reveal_strlit("float");
    reveal_strlit("bool");
    reveal_strlit("char");
    reveal_strlit("string");
    assert("void"@[0] != "int"@[0]);
    assert("void"@[0] != "float"@[0]);
    assert("void"@[0] != "bool"@[0]);
    assert("void"@[0] != "char"@[0]);
    assert("void"@[0] != "string"@[0]);
}

/// An array converts to a pointer to its element's type, and fails exactly
/// when its element type fails, with the same message.
pub proof fn array_is_pointer_to_element(structs: Map<Seq<char>, LlvmType>, elem: Type)
    ensures
        type_desc(structs, Type::Array(Box::new(elem))) == match type_desc(structs, elem) {
            Ok(t) => Ok(LlvmType::Pointer(Box::new(t))),
            Err(e) => Err(e),
        },
{
}

/// A struct just declared is found under its name, as the literal struct of
/// its field types.
pub proof fn declared_struct_resolves(structs: Map<Seq<char>, LlvmType>, s: StructDef)
    requires
        struct_declared(structs, s) is Ok,
    ensures
        convert_all(structs, types_of(s.fields@)) is Ok,
        type_desc(struct_declared(structs, s)->Ok_0, Type::Custom(s.name))
            == Ok::<LlvmType, Seq<char>>(LlvmType::Struct(convert_all(structs, types_of(s.fields@))->Ok_0)),
{
}

/// Declaring a struct leaves what every other struct name resolves to as it
/// was.
pub proof fn declaring_leaves_other_names(structs: Map<Seq<char>, LlvmType>, s: StructDef, name: String)
    requires
        struct_declared(structs, s) is Ok,
        name@ != s.name@,
    ensures
        type_desc(struct_declared(structs, s)->Ok_0, Type::Custom(name)) == type_desc(structs, Type::Custom(name)),
{
}

/// A first pass that completes has declared every struct of the program, and
/// kept every struct declared before it.
pub proof fn first_pass_declares_every_struct(structs: Map<Seq<char>, LlvmType>, decls: Seq<Declaration>)
    requires
        struct_pass(structs, decls).1 is None,
    ensures
        structs.dom() <= struct_pass(structs, decls).0.dom(),
        forall|k: int| 0 <= k < decls.len() ==> (#[trigger] decls[k] matches Declaration::Struct(s)
            ==> struct_pass(structs, decls).0.contains_key(s.name@)),
    decreases decls.len(),
{
    if decls.len() > 0 {
        let init = decls.drop_last();
        first_pass_declares_every_struct(structs, init);
        assert forall|k: int| 0 <= k < decls.len() implies (#[trigger] decls[k] matches Declaration::Struct(s)
            ==> struct_pass(structs, decls).0.contains_key(s.name@)) by {
            if k < decls.len() - 1 {
                assert(decls[k] == init[k]);
            }
        }
    }
}

/// Functions see every struct of the program, wherever it stands: once the
/// first pass completes, each struct name declared anywhere in the program
/// resolves in the table that the second pass works with.
pub proof fn structs_visible_to_every_function(structs: Map<Seq<char>, LlvmType>, decls: Seq<Declaration>, k: int)
    requires
        struct_pass(structs, decls).1 is None,
        0 <= k < decls.len(),
        decls[k] is Struct,
    ensures
        type_desc(struct_pass(structs, decls).0, Type::Custom(decls[k]->Struct_0.name)) is Ok,
{
    first_pass_declares_every_struct(structs, decls);
    assert(decls[k] matches Declaration::Struct(s));
}

/// A second pass that completes keeps every function declared before it,
/// and has declared every function of the program, under its own name, as
/// a function of the module with its own signature: no two share a name.
pub proof fn second_pass_declares_every_function(
    structs: Map<Seq<char>, LlvmType>,
    index: Map<Seq<char>, nat>,
    mm: ModuleModel,
    decls: Seq<Declaration>,
)
    requires
        function_pass(structs, index, mm, decls).2 is None,
    ensures
        forall|n: Seq<char>| #[trigger] index.contains_key(n) ==> {
            &&& function_pass(structs, index, mm, decls).0.contains_key(n)
            &&& function_pass(structs, index, mm, decls).0[n] == index[n]
        },
        forall|k: int| 0 <= k < decls.len() ==> (#[trigger] decls[k] matches Declaration::Function(f) ==> {
            let fp = function_pass(structs, index, mm, decls);
            &&& fp.0.contains_key(f.name@)
            &&& fp.0[f.name@] < fp.1.functions.len()
            &&& fp.1.functions[fp.0[f.name@] as int] == fn_sig(structs, f)
            &&& convert_all(structs, types_of(f.params@)) is Ok
        }),
    decreases decls.len(),
{
    if decls.len() > 0 {
        let init = decls.drop_last();
        second_pass_declares_every_function(structs, index, mm, init);
        assert forall|k: int| 0 <= k < decls.len() implies (#[trigger] decls[k] matches Declaration::Function(f) ==> {
            let fp = function_pass(structs, index, mm, decls);
            &&& fp.0.contains_key(f.name@)
            &&& fp.0[f.name@] < fp.1.functions.len()
            &&& fp.1.functions[fp.0[f.name@] as int] == fn_sig(structs, f)
            &&& convert_all(structs, types_of(f.params@)) is Ok
        }) by {
            if k < decls.len() - 1 {
                assert(decls[k] == init[k]);
            }
        }
    }
}

/// A third pass that completes has given storage to every global of the
/// program and to every parameter of its functions.
pub proof fn third_pass_stores_every_name(
    structs: Map<Seq<char>, LlvmType>,
    vars: Set<Seq<char>>,
    index: Map<Seq<char>, nat>,
    mm: ModuleModel,
    decls: Seq<Declaration>,
)
    requires
        body_pass(structs, vars, index, mm, decls).2 is None,
    ensures
        vars <= body_pass(structs, vars, index, mm, decls).0,
        forall|k: int| 0 <= k < decls.len() ==> (#[trigger] decls[k] matches Declaration::Var(g)
            ==> body_pass(structs, vars, index, mm, decls).0.contains(g.name@)),
        forall|k: int, j: int| 0 <= k < decls.len() && (#[trigger] decls[k] matches Declaration::Function(f))
            && 0 <= j < decls[k]->Function_0.params.len()
            ==> body_pass(structs, vars, index, mm, decls).0.contains(#[trigger] decls[k]->Function_0.params@[j].0@),
    decreases decls.len(),
{
    if decls.len() > 0 {
        let init = decls.drop_last();
        third_pass_stores_every_name(structs, vars, index, mm, init);
        let res = body_pass(structs, vars, index, mm, decls).0;
        assert forall|k: int| 0 <= k < decls.len() implies (#[trigger] decls[k] matches Declaration::Var(g)
            ==> res.contains(g.name@)) by {
            if k < decls.len() - 1 {
                assert(decls[k] == init[k]);
            }
        }
        assert forall|k: int, j: int| 0 <= k < decls.len() && (#[trigger] decls[k] matches Declaration::Function(f))
            && 0 <= j < decls[k]->Function_0.params.len()
            implies res.contains(#[trigger] decls[k]->Function_0.params@[j].0@) by {
            if k < decls.len() - 1 {
                assert(decls[k] == init[k]);
            } else {
                let ps = decls[k]->Function_0.params@;
                let ns = ps.map_values(|item: (String, Type)| item.0@);
                assert(ns[j] == ps[j].0@);
                assert(ns.contains(ps[j].0@));
            }
        }
    }
}

/// Whether a type names the struct `name`, directly or through arrays.
pub open spec fn names_struct(ty: Type, name: Seq<char>) -> bool
    decreases ty,
{
    match ty {
        Type::Custom(n) => n@ == name,
        Type::Array(inner) => names_struct(*inner, name),
        _ => false,
    }
}

/// A type converts the same under two struct tables that agree on every
/// struct it names: what else is declared does not matter.
pub proof fn conversion_depends_only_on_named_structs(
    m1: Map<Seq<char>, LlvmType>,
    m2: Map<Seq<char>, LlvmType>,
    ty: Type,
)
    requires
        forall|n: Seq<char>| #[trigger] names_struct(ty, n) ==> (m1.contains_key(n) <==> m2.contains_key(n)),
        forall|n: Seq<char>| #[trigger] names_struct(ty, n) && m1.contains_key(n) ==> m1[n] == m2[n],
    ensures
        type_desc(m1, ty) == type_desc(m2, ty),
    decreases ty,
{
    match ty {
        Type::Array(inner) => {
            assert forall|n: Seq<char>| #[trigger] names_struct(*inner, n) implies names_struct(ty, n) by {}
            conversion_depends_only_on_named_structs(m1, m2, *inner);
        },
        Type::Custom(n) => {
            assert(names_struct(ty, n@));
        },
        _ => {},
    }
}

/// The struct declarations of a list, in order.
pub open spec fn struct_decls(decls: Seq<Declaration>) -> Seq<Declaration> {
    decls.filter(|d: Declaration| d is Struct)
}

/// The function and global declarations of a list, in order.
pub open spec fn other_decls(decls: Seq<Declaration>) -> Seq<Declaration> {
    decls.filter(|d: Declaration| !(d is Struct))
}

proof fn struct_pass_reads_structs(structs: Map<Seq<char>, LlvmType>, decls: Seq<Declaration>)
    ensures
        struct_pass(structs, decls) == struct_pass(structs, struct_decls(decls)),
    decreases decls.len(),
{
    reveal_with_fuel(Seq::<Declaration>::filter, 1);
    if decls.len() > 0 {
        struct_pass_reads_structs(structs, decls.drop_last());
        let f = struct_decls(decls);
        if decls.last() is Struct {
            assert(f.drop_last() =~= struct_decls(decls.drop_last()));
        }
    }
}

proof fn function_pass_reads_others(
    structs: Map<Seq<char>, LlvmType>,
    index: Map<Seq<char>, nat>,
    mm: ModuleModel,
    decls: Seq<Declaration>,
)
    ensures
        function_pass(structs, index, mm, decls) == function_pass(structs, index, mm, other_decls(decls)),
    decreases decls.len(),
{
    reveal_with_fuel(Seq::<Declaration>::filter, 1);
    if decls.len() > 0 {
        function_pass_reads_others(structs, index, mm, decls.drop_last());
        let f = other_decls(decls);
        if !(decls.last() is Struct) {
            assert(f.drop_last() =~= other_decls(decls.drop_last()));
        }
    }
}

proof fn body_pass_reads_others(
    structs: Map<Seq<char>, LlvmType>,
    vars: Set<Seq<char>>,
    index: Map<Seq<char>, nat>,
    mm: ModuleModel,
    decls: Seq<Declaration>,
)
    ensures
        body_pass(structs, vars, index, mm, decls) == body_pass(structs, vars, index, mm, other_decls(decls)),
    decreases decls.len(),
{
    reveal_with_fuel(Seq::<Declaration>::filter, 1);
    if decls.len() > 0 {
        body_pass_reads_others(structs, vars, index, mm, decls.drop_last());
        let f = other_decls(decls);
        if !(decls.last() is Struct) {
            assert(f.drop_last() =~= other_decls(decls.drop_last()));
        }
    }
}

/// Only the order among the struct declarations, and the order among the
/// other declarations, matter: two programs that agree on both go through
/// the three passes alike, so `compile_program` gives both the same result
/// and leaves the same tables and module (a struct declared after the
/// function that uses it is still found).
pub proof fn passes_depend_only_on_order_within_kinds(
    structs: Map<Seq<char>, LlvmType>,
    index: Map<Seq<char>, nat>,
    mm: ModuleModel,
    vars: Set<Seq<char>>,
    decls1: Seq<Declaration>,
    decls2: Seq<Declaration>,
)
    requires
        struct_decls(decls1) == struct_decls(decls2),
        other_decls(decls1) == other_decls(decls2),
    ensures
        struct_pass(structs, decls1) == struct_pass(structs, decls2),
        function_pass(structs, index, mm, decls1) == function_pass(structs, index, mm, decls2),
        body_pass(structs, vars, index, mm, decls1) == body_pass(structs, vars, index, mm, decls2),
{
    struct_pass_reads_structs(structs, decls1);
    struct_pass_reads_structs(structs, decls2);
    function_pass_reads_others(structs, index, mm, decls1);
    function_pass_reads_others(structs, index, mm, decls2);
    body_pass_reads_others(structs, vars, index, mm, decls1);
    body_pass_reads_others(structs, vars, index, mm, decls2);
}

/// Whether the steps `later` begin with the steps `earlier`.
pub open spec fn steps_extend(earlier: Seq<ModuleOp>, later: Seq<ModuleOp>) -> bool {
    &&& earlier.len() <= later.len()
    &&& forall|j: int| 0 <= j < earlier.len() ==> #[trigger] later[j] == earlier[j]
}

proof fn params_stored_extends(mm: ModuleModel, params: Seq<(String, Type)>, tys: Seq<LlvmType>, function: nat, k: nat)
    ensures
        steps_extend(mm.ops, params_stored(mm, params, tys, function, k).ops),
    decreases k,
{
    if k > 0 {
        params_stored_extends(mm, params, tys, function, (k - 1) as nat);
    }
}

proof fn entry_extends(mm: ModuleModel, structs: Map<Seq<char>, LlvmType>, f: Function, function: nat)
    ensures
        steps_extend(mm.ops, entry_emitted(mm, structs, f, function).ops),
{
    let start = mm.block_appended(function, "entry"@).positioned_at(mm.blocks);
    params_stored_extends(start, f.params@, convert_all(structs, types_of(f.params@))->Ok_0, function, f.params@.len());
}

/// Compiling only ever adds to a module: the second and the third pass each
/// leave every step already taken in place, and append their own after it.
pub proof fn passes_only_append_to_module(
    structs: Map<Seq<char>, LlvmType>,
    index: Map<Seq<char>, nat>,
    vars: Set<Seq<char>>,
    mm: ModuleModel,
    decls: Seq<Declaration>,
)
    ensures
        steps_extend(mm.ops, function_pass(structs, index, mm, decls).1.ops),
        steps_extend(mm.ops, body_pass(structs, vars, index, mm, decls).1.ops),
    decreases decls.len(),
{
    if decls.len() > 0 {
        passes_only_append_to_module(structs, index, vars, mm, decls.drop_last());
        let (v, m, err) = body_pass(structs, vars, index, mm, decls.drop_last());
        if err is None {
            if let Declaration::Function(f) = decls.last() {
                entry_extends(m, structs, f, index[f.name@]);
            }
        }
    }
}

/// Every primitive type name converts to its own LLVM type, whatever structs
/// are declared: `int` to `i64`, `float` to `double`, `bool` to `i1`, `char`
/// to `i8` and `string` to `i8*`.
pub proof fn primitives_convert_to_their_types(structs: Map<Seq<char>, LlvmType>, name: String)
    ensures
        name@ == "int"@ ==> type_desc(structs, Type::Primitive(name))
            == Ok::<LlvmType, Seq<char>>(LlvmType::Int { bits: 64 }),
        name@ == "float"@ ==> type_desc(structs, Type::Primitive(name)) == Ok::<LlvmType, Seq<char>>(LlvmType::Double),
        name@ == "bool"@ ==> type_desc(structs, Type::Primitive(name))
            == Ok::<LlvmType, Seq<char>>(LlvmType::Int { bits: 1 }),
        name@ == "char"@ ==> type_desc(structs, Type::Primitive(name))
            == Ok::<LlvmType, Seq<char>>(LlvmType::Int { bits: 8 }),
        name@ == "string"@ ==> type_desc(structs, Type::Primitive(name))
            == Ok::<LlvmType, Seq<char>>(LlvmType::Pointer(Box::new(LlvmType::Int { bits: 8 }))),
{
    reveal_strlit("int");
    reveal_strlit("float");
    reveal_strlit("bool");
    reveal_strlit("char");
    reveal_strlit("string");
    assert("float"@[0] != "int"@[0]);
    assert("bool"@[0] != "int"@[0]);
    assert("bool"@[0] != "float"@[0]);
    assert("char"@[0] != "int"@[0]);
    assert("char"@[0] != "float"@[0]);
    assert("char"@[0] != "bool"@[0]);
    assert("string"@[0] != "int"@[0]);
    assert("string"@[0] != "float"@[0]);
    assert("string"@[0] != "bool"@[0]);
    assert("string"@[0] != "char"@[0]);
}

/// A function value is always an `i8*`, whatever its signature and whatever
/// structs are declared.
pub proof fn function_values_are_byte_pointers(structs: Map<Seq<char>, LlvmType>, sig: FunctionSig)
    ensures
        type_desc(structs, Type::Function(Box::new(sig)))
            == Ok::<LlvmType, Seq<char>>(LlvmType::Pointer(Box::new(LlvmType::Int { bits: 8 }))),
{
}

/// Converting a list of types converts each on its own: the list converts
/// exactly when every type in it does, and then gives, at each position, the
/// type that position's source type converts to.
pub proof fn list_conversion_is_elementwise(structs: Map<Seq<char>, LlvmType>, tys: Seq<Type>)
    ensures
        convert_all(structs, tys) is Ok <==> forall|i: int| 0 <= i < tys.len() ==> type_desc(structs, #[trigger] tys[i]) is Ok,
        convert_all(structs, tys) is Ok ==> {
            &&& convert_all(structs, tys)->Ok_0.len() == tys.len()
            &&& forall|i: int| 0 <= i < tys.len() ==> type_desc(structs, #[trigger] tys[i])
                == Ok::<LlvmType, Seq<char>>(convert_all(structs, tys)->Ok_0[i])
        },
    decreases tys.len(),
{
    if tys.len() > 0 {
        let init = tys.drop_last();
        list_conversion_is_elementwise(structs, init);
        assert forall|i: int| 0 <= i < tys.len() - 1 implies tys[i] == #[trigger] init[i] by {}
        if convert_all(structs, tys) is Ok {
            let prefix = convert_all(structs, init)->Ok_0;
            let all = convert_all(structs, tys)->Ok_0;
            assert forall|i: int| 0 <= i < tys.len() implies type_desc(structs, #[trigger] tys[i])
                == Ok::<LlvmType, Seq<char>>(all[i]) by {
                if i < tys.len() - 1 {
                    assert(init[i] == tys[i]);
                    assert(all[i] == prefix[i]);
                }
            }
        }
        if !(forall|i: int| 0 <= i < tys.len() ==> type_desc(structs, #[trigger] tys[i]) is Ok) {
            let j = choose|j: int| 0 <= j < tys.len() && !(type_desc(structs, #[trigger] tys[j]) is Ok);
            if j < tys.len() - 1 {
                assert(init[j] == tys[j]);
            }
        }
    }
}

/// A declared function's signature is the conversion of its own types: one
/// parameter type for each parameter, each the conversion of that
/// parameter's source type; and no return type exactly when it returns
/// `void`, else the conversion of its return type.
pub proof fn declared_signature_converts_each_type(structs: Map<Seq<char>, LlvmType>, declared: Set<Seq<char>>, f: Function)
    requires
        function_checked(structs, declared, f) is Ok,
    ensures
        fn_sig(structs, f).params.len() == f.params@.len(),
        forall|i: int| 0 <= i < f.params@.len() ==> type_desc(structs, (#[trigger] f.params@[i]).1)
            == Ok::<LlvmType, Seq<char>>(fn_sig(structs, f).params[i]),
        fn_sig(structs, f).ret is None <==> is_void(f.return_type),
        !is_void(f.return_type) ==> type_desc(structs, f.return_type)
            == Ok::<LlvmType, Seq<char>>(fn_sig(structs, f).ret->Some_0),
{
    list_conversion_is_elementwise(structs, types_of(f.params@));
    assert forall|i: int| 0 <= i < f.params@.len() implies type_desc(structs, (#[trigger] f.params@[i]).1)
        == Ok::<LlvmType, Seq<char>>(fn_sig(structs, f).params[i]) by {
        assert(types_of(f.params@)[i] == f.params@[i].1);
    }
}

/// A global is given exactly the type its declared type converts to, and
/// fails exactly when that conversion fails, with its message.
pub proof fn global_gets_its_converted_type(structs: Map<Seq<char>, LlvmType>, v: VarDecl)
    ensures
        global_checked(structs, v) == type_desc(structs, v.ty),
{
}

proof fn params_stored_layout(mm: ModuleModel, params: Seq<(String, Type)>, tys: Seq<LlvmType>, function: nat, k: nat)
    ensures
        params_stored(mm, params, tys, function, k).ops.len() == mm.ops.len() + 2 * k,
        steps_extend(mm.ops, params_stored(mm, params, tys, function, k).ops),
        forall|i: int| 0 <= i < k ==> {
            &&& params_stored(mm, params, tys, function, k).ops[mm.ops.len() + 2 * i]
                == (ModuleOp::Alloca { name: (#[trigger] params[i]).0@, ty: tys[i] })
            &&& params_stored(mm, params, tys, function, k).ops[mm.ops.len() + 2 * i + 1]
                == (ModuleOp::StoreParam { slot: (mm.slots.len() + i) as nat, function, param: i as nat })
        },
        params_stored(mm, params, tys, function, k).slots.len() == mm.slots.len() + k,
    decreases k,
{
    if k > 0 {
        params_stored_layout(mm, params, tys, function, (k - 1) as nat);
        let prev = params_stored(mm, params, tys, function, (k - 1) as nat);
        let cur = params_stored(mm, params, tys, function, k);
        assert forall|i: int| 0 <= i < k implies {
            &&& cur.ops[mm.ops.len() + 2 * i] == (ModuleOp::Alloca { name: (#[trigger] params[i]).0@, ty: tys[i] })
            &&& cur.ops[mm.ops.len() + 2 * i + 1]
                == (ModuleOp::StoreParam { slot: (mm.slots.len() + i) as nat, function, param: i as nat })
        } by {
            if i < k - 1 {
                assert(cur.ops[mm.ops.len() + 2 * i] == prev.ops[mm.ops.len() + 2 * i]);
                assert(cur.ops[mm.ops.len() + 2 * i + 1] == prev.ops[mm.ops.len() + 2 * i + 1]);
            }
        }
    }
}

/// The entry emitted for a function whose parameter types convert: after
/// the steps already taken, an `entry` block is appended to it and the
/// builder moved to that block; then, for each parameter `i` in order, a
/// stack slot named after it, of the type its source type converts to, and
/// right after it parameter `i` stored into that slot; and last a `ret void`
/// exactly when the function returns `void`. Nothing else is emitted.
pub proof fn entry_holds_a_slot_and_store_per_parameter(
    mm: ModuleModel,
    structs: Map<Seq<char>, LlvmType>,
    f: Function,
    function: nat,
)
    requires
        entry_checked(structs, f) is Ok,
    ensures
        steps_extend(mm.ops, entry_emitted(mm, structs, f, function).ops),
        entry_emitted(mm, structs, f, function).ops.len()
            == mm.ops.len() + 2 + 2 * f.params@.len() + (if is_void(f.return_type) { 1int } else { 0int }),
        entry_emitted(mm, structs, f, function).ops[mm.ops.len() as int]
            == (ModuleOp::AppendBlock { function, name: "entry"@ }),
        entry_emitted(mm, structs, f, function).ops[mm.ops.len() + 1int] == (ModuleOp::PositionAtEnd { block: mm.blocks }),
        forall|i: int| 0 <= i < f.params@.len() ==> {
            &&& type_desc(structs, (#[trigger] f.params@[i]).1) is Ok
            &&& entry_emitted(mm, structs, f, function).ops[mm.ops.len() + 2 + 2 * i] == (ModuleOp::Alloca {
                name: f.params@[i].0@,
                ty: type_desc(structs, f.params@[i].1)->Ok_0,
            })
            &&& entry_emitted(mm, structs, f, function).ops[mm.ops.len() + 3 + 2 * i] == (ModuleOp::StoreParam {
                slot: (mm.slots.len() + i) as nat,
                function,
                param: i as nat,
            })
        },
        is_void(f.return_type) ==> entry_emitted(mm, structs, f, function).ops.last() == ModuleOp::RetVoid,
{
    let start = mm.block_appended(function, "entry"@).positioned_at(mm.blocks);
    let tys = convert_all(structs, types_of(f.params@))->Ok_0;
    let n = f.params@.len();
    list_conversion_is_elementwise(structs, types_of(f.params@));
    params_stored_layout(start, f.params@, tys, function, n);
    let body = params_stored(start, f.params@, tys, function, n);
    let e = entry_emitted(mm, structs, f, function);
    assert(body.ops[mm.ops.len() as int] == start.ops[mm.ops.len() as int]);
    assert(body.ops[mm.ops.len() + 1int] == start.ops[mm.ops.len() + 1int]);
    assert forall|j: int| 0 <= j < body.ops.len() implies #[trigger] e.ops[j] == body.ops[j] by {}
    assert forall|i: int| 0 <= i < n implies {
        &&& type_desc(structs, (#[trigger] f.params@[i]).1) is Ok
        &&& e.ops[mm.ops.len() + 2 + 2 * i] == (ModuleOp::Alloca {
            name: f.params@[i].0@,
            ty: type_desc(structs, f.params@[i].1)->Ok_0,
        })
        &&& e.ops[mm.ops.len() + 3 + 2 * i] == (ModuleOp::StoreParam {
            slot: (mm.slots.len() + i) as nat,
            function,
            param: i as nat,
        })
    } by {
        assert(types_of(f.params@)[i] == f.params@[i].1);
        assert(body.ops[start.ops.len() + 2 * i] == (ModuleOp::Alloca { name: f.params@[i].0@, ty: tys[i] }));
        assert(body.ops[start.ops.len() + 2 * i + 1]
            == (ModuleOp::StoreParam { slot: (start.slots.len() + i) as nat, function, param: i as nat }));
        assert(e.ops[mm.ops.len() + 2 + 2 * i] == body.ops[start.ops.len() + 2 * i]);
        assert(e.ops[mm.ops.len() + 3 + 2 * i] == body.ops[start.ops.len() + 2 * i + 1]);
    }
    assert forall|j: int| 0 <= j < mm.ops.len() implies #[trigger] e.ops[j] == mm.ops[j] by {
        assert(body.ops[j] == start.ops[j]);
    }
}

/// A third pass that completes has emitted the entry of every function of
/// the program, whatever its parameters and return type: the module's steps
/// hold an `entry` block appended to that function's number, followed at
/// once by the builder's move to a block.
pub proof fn third_pass_emits_every_entry(
    structs: Map<Seq<char>, LlvmType>,
    vars: Set<Seq<char>>,
    index: Map<Seq<char>, nat>,
    mm: ModuleModel,
    decls: Seq<Declaration>,
)
    requires
        body_pass(structs, vars, index, mm, decls).2 is None,
    ensures
        forall|k: int| 0 <= k < decls.len() ==> (#[trigger] decls[k] matches Declaration::Function(f) ==> (exists|j: int| {
            &&& 0 <= j
            &&& j + 1 < body_pass(structs, vars, index, mm, decls).1.ops.len()
            &&& #[trigger] body_pass(structs, vars, index, mm, decls).1.ops[j]
                == (ModuleOp::AppendBlock { function: index[f.name@], name: "entry"@ })
            &&& (body_pass(structs, vars, index, mm, decls).1.ops[j + 1] is PositionAtEnd)
        })),
    decreases decls.len(),
{
    if decls.len() > 0 {
        let init = decls.drop_last();
        third_pass_emits_every_entry(structs, vars, index, mm, init);
        let (v, m, err) = body_pass(structs, vars, index, mm, init);
        let res = body_pass(structs, vars, index, mm, decls).1;
        assert(steps_extend(m.ops, res.ops)) by {
            match decls.last() {
                Declaration::Function(f) => { entry_extends(m, structs, f, index[f.name@]); },
                _ => {},
            }
        }
        assert forall|k: int| 0 <= k < decls.len() implies (#[trigger] decls[k] matches Declaration::Function(f) ==> exists|j: int| {
            &&& 0 <= j
            &&& j + 1 < res.ops.len()
            &&& #[trigger] res.ops[j] == (ModuleOp::AppendBlock { function: index[f.name@], name: "entry"@ })
            &&& res.ops[j + 1] is PositionAtEnd
        }) by {
            if k < decls.len() - 1 {
                assert(decls[k] == init[k]);
                if let Declaration::Function(f) = decls[k] {
                    let j = choose|j: int| {
                        &&& 0 <= j
                        &&& j + 1 < m.ops.len()
                        &&& #[trigger] m.ops[j] == (ModuleOp::AppendBlock { function: index[f.name@], name: "entry"@ })
                        &&& m.ops[j + 1] is PositionAtEnd
                    };
                    assert(res.ops[j] == m.ops[j]);
                    assert(res.ops[j + 1] == m.ops[j + 1]);
                }
            } else if let Declaration::Function(f) = decls[k] {
                entry_holds_a_slot_and_store_per_parameter(m, structs, f, index[f.name@]);
                assert(res.ops[m.ops.len() as int] == (ModuleOp::AppendBlock { function: index[f.name@], name: "entry"@ }));
            }
        }
    }
}

}
