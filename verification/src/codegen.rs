use vstd::prelude::*;
use vstd::hash_map::StringHashMap;

use inkwell::context::Context;
use inkwell::values::PointerValue;

use crate::ast::{Declaration, Function, Program, StructDef, Type, VarDecl};
use crate::llvm::{self, FnSig, ModuleHandle, ModuleModel, ModuleOp, TypeHandle, handle_models, module_ir};
use crate::llvm_type::{BasicTy, LlvmType, fits};
use crate::types::{
    convert_all, describe_all, describe_type, is_void, lemma_convert_all_fits, lemma_convert_all_len,
    lemma_struct_model, lemma_type_desc_fits, models, struct_models, table_fits, type_desc, types_of,
};

verus! {

/// A result without a value, seen through its message.
pub open spec fn unit_model(r: Result<(), String>) -> Result<(), Seq<char>> {
    match r {
        Ok(()) => Ok(()),
        Err(e) => Err(e@),
    }
}

/// A result of a conversion to an LLVM handle, seen through models.
pub open spec fn handle_result_model<'ctx>(r: Result<TypeHandle<'ctx>, String>) -> Result<LlvmType, Seq<char>> {
    match r {
        Ok(t) => Ok(t.model()),
        Err(e) => Err(e@),
    }
}

/// The struct table after declaring `s`: its field types converted in order,
/// recorded as a literal struct under its name; or the first error. A struct
/// has at most `u32::MAX` fields, the most LLVM can count.
pub open spec fn struct_declared(structs: Map<Seq<char>, LlvmType>, s: StructDef) -> Result<Map<Seq<char>, LlvmType>, Seq<char>> {
    if s.fields@.len() > u32::MAX {
        Err("too many fields in struct"@)
    } else {
        match convert_all(structs, types_of(s.fields@)) {
            Ok(fts) => Ok(structs.insert(s.name@, LlvmType::Struct(fts))),
            Err(e) => Err(e),
        }
    }
}

/// The signature a function declaration is given: its converted parameter
/// types, and its converted return type unless that is `void`.
pub open spec fn fn_sig(structs: Map<Seq<char>, LlvmType>, f: Function) -> FnSig {
    FnSig {
        params: convert_all(structs, types_of(f.params@))->Ok_0,
        ret: if is_void(f.return_type) { None } else { Some(type_desc(structs, f.return_type)->Ok_0) },
    }
}

/// Whether a function can be declared, given the functions declared so far:
/// it has fewer than `u32::MAX` parameters, its parameter types convert in
/// order, then its return type unless that is `void`, and its name is not
/// declared yet; or the first of these that fails, as an error.
pub open spec fn function_checked(structs: Map<Seq<char>, LlvmType>, declared: Set<Seq<char>>, f: Function) -> Result<(), Seq<char>> {
    if f.params@.len() >= u32::MAX {
        Err("too many parameters"@)
    } else {
        match convert_all(structs, types_of(f.params@)) {
            Err(e) => Err(e),
            Ok(_) => match (if is_void(f.return_type) { Ok(()) } else {
                match type_desc(structs, f.return_type) {
                    Ok(_) => Ok(()),
                    Err(e) => Err(e),
                }
            }) {
                Err(e) => Err(e),
                Ok(()) => if declared.contains(f.name@) {
                    Err("Function already declared: "@ + f.name@)
                } else {
                    Ok(())
                },
            },
        }
    }
}

/// Whether a function's entry can be emitted: it has fewer than `u32::MAX`
/// parameters and their types convert in order; or the first error.
pub open spec fn entry_checked(structs: Map<Seq<char>, LlvmType>, f: Function) -> Result<(), Seq<char>> {
    if f.params@.len() >= u32::MAX {
        Err("too many parameters"@)
    } else {
        match convert_all(structs, types_of(f.params@)) {
            Err(e) => Err(e),
            Ok(_) => Ok(()),
        }
    }
}

/// The type a global variable is given, or its error.
pub open spec fn global_checked(structs: Map<Seq<char>, LlvmType>, v: VarDecl) -> Result<LlvmType, Seq<char>> {
    type_desc(structs, v.ty)
}

/// The names of a list of named, typed items.
pub open spec fn names_of(items: Seq<(String, Type)>) -> Set<Seq<char>> {
    items.map_values(|item: (String, Type)| item.0@).to_set()
}

/// The names of the first `i + 1` items are those of the first `i` and the
/// name of item `i`, all among the names of every item.
proof fn lemma_names_of_prefix(items: Seq<(String, Type)>, i: int)
    requires
        0 <= i < items.len(),
    ensures
        names_of(items.take(i + 1)) == names_of(items.take(i)).insert(items[i].0@),
        names_of(items.take(i + 1)) <= names_of(items),
{
    let pre = items.take(i);
    let next = items.take(i + 1);
    assert(next.map_values(|item: (String, Type)| item.0@) =~= pre.map_values(
        |item: (String, Type)| item.0@,
    ).push(items[i].0@));
    assert(names_of(next) =~= names_of(pre).insert(items[i].0@)) by {
        let ps = pre.map_values(|item: (String, Type)| item.0@);
        vstd::seq_lib::lemma_seq_contains_after_push(ps, items[i].0@, items[i].0@);
        assert forall|x| names_of(next).contains(x) <==> names_of(pre).insert(items[i].0@).contains(x) by {
            vstd::seq_lib::lemma_seq_contains_after_push(ps, items[i].0@, x);
        }
    }
    assert forall|x| names_of(next).contains(x) implies names_of(items).contains(x) by {
        let ns = next.map_values(|item: (String, Type)| item.0@);
        let k = choose|k: int| 0 <= k < ns.len() && ns[k] == x;
        assert(items.map_values(|item: (String, Type)| item.0@)[k] == x);
    }
}

/// The first pass over `decls`: the struct table after declaring, in order,
/// every struct among them, and the error that stopped the pass, if one did.
/// On an error the table is the one reached before the failing declaration.
pub open spec fn struct_pass(structs: Map<Seq<char>, LlvmType>, decls: Seq<Declaration>) -> (Map<Seq<char>, LlvmType>, Option<Seq<char>>)
    decreases decls.len(),
{
    if decls.len() == 0 {
        (structs, None)
    } else {
        let (m, err) = struct_pass(structs, decls.drop_last());
        if err is Some {
            (m, err)
        } else {
            match decls.last() {
                Declaration::Struct(s) => match struct_declared(m, s) {
                    Ok(m2) => (m2, None),
                    Err(e) => (m, Some(e)),
                },
                _ => (m, None),
            }
        }
    }
}

/// The module after the first `k` parameters of function number `function`
/// are given slots: for each in order, a slot of its type under its name,
/// and the parameter stored into it.
pub open spec fn params_stored(mm: ModuleModel, params: Seq<(String, Type)>, tys: Seq<LlvmType>, function: nat, k: nat) -> ModuleModel
    decreases k,
{
    if k == 0 {
        mm
    } else {
        let prev = params_stored(mm, params, tys, function, (k - 1) as nat);
        let i = (k - 1) as nat;
        ModuleModel {
            ops: prev.ops.push(ModuleOp::Alloca { name: params[i as int].0@, ty: tys[i as int] }).push(
                ModuleOp::StoreParam { slot: prev.slots.len(), function, param: i },
            ),
            slots: prev.slots.push(tys[i as int]),
            params: prev.params.push((function, i, tys[i as int])),
            ..prev
        }
    }
}

/// The module after the entry of `f`, function number `function`, is
/// emitted: an `entry` block appended to it and the builder moved there,
/// a slot for each parameter receiving it, and a `ret void` when `f`
/// returns `void`.
pub open spec fn entry_emitted(mm: ModuleModel, structs: Map<Seq<char>, LlvmType>, f: Function, function: nat) -> ModuleModel {
    let start = mm.block_appended(function, "entry"@).positioned_at(mm.blocks);
    let body = params_stored(
        start,
        f.params@,
        convert_all(structs, types_of(f.params@))->Ok_0,
        function,
        f.params@.len(),
    );
    if is_void(f.return_type) {
        body.returned_void()
    } else {
        body
    }
}

/// The second pass over `decls`: the function numbers by name after
/// declaring, in order, every function among them against the struct table
/// `structs`, the module after it, and the error that stopped the pass, if
/// one did.
pub open spec fn function_pass(structs: Map<Seq<char>, LlvmType>, index: Map<Seq<char>, nat>, mm: ModuleModel, decls: Seq<Declaration>) -> (Map<Seq<char>, nat>, ModuleModel, Option<Seq<char>>)
    decreases decls.len(),
{
    if decls.len() == 0 {
        (index, mm, None)
    } else {
        let (ix, m, err) = function_pass(structs, index, mm, decls.drop_last());
        if err is Some {
            (ix, m, err)
        } else {
            match decls.last() {
                Declaration::Function(f) => match function_checked(structs, ix.dom(), f) {
                    Ok(()) => (ix.insert(f.name@, m.functions.len()), m.function_added(f.name@, fn_sig(structs, f)), None),
                    Err(e) => (ix, m, Some(e)),
                },
                _ => (ix, m, None),
            }
        }
    }
}

/// The third pass over `decls`: the variable names after emitting, in order,
/// the entry of every function among them (numbered by `index`) and giving
/// every global storage, the module after it, and the error that stopped the
/// pass, if one did.
pub open spec fn body_pass(structs: Map<Seq<char>, LlvmType>, vars: Set<Seq<char>>, index: Map<Seq<char>, nat>, mm: ModuleModel, decls: Seq<Declaration>) -> (Set<Seq<char>>, ModuleModel, Option<Seq<char>>)
    decreases decls.len(),
{
    if decls.len() == 0 {
        (vars, mm, None)
    } else {
        let (v, m, err) = body_pass(structs, vars, index, mm, decls.drop_last());
        if err is Some {
            (v, m, err)
        } else {
            match decls.last() {
                Declaration::Function(f) => match entry_checked(structs, f) {
                    Ok(()) => (v + names_of(f.params@), entry_emitted(m, structs, f, index[f.name@]), None),
                    Err(e) => (v, m, Some(e)),
                },
                Declaration::Var(g) => match global_checked(structs, g) {
                    Ok(t) => (v.insert(g.name@), m.global_added(g.name@, t), None),
                    Err(e) => (v, m, Some(e)),
                },
                Declaration::Struct(_) => (v, m, None),
            }
        }
    }
}

/// Declaring parameters leaves a module's functions as they were.
proof fn lemma_params_stored_functions(mm: ModuleModel, params: Seq<(String, Type)>, tys: Seq<LlvmType>, function: nat, k: nat)
    ensures
        params_stored(mm, params, tys, function, k).functions == mm.functions,
        params_stored(mm, params, tys, function, k).has_builder == mm.has_builder,
    decreases k,
{
    if k > 0 {
        lemma_params_stored_functions(mm, params, tys, function, (k - 1) as nat);
    }
}

/// The third pass leaves a module's functions, and its having a builder, as
/// they were.
proof fn lemma_body_pass_functions(structs: Map<Seq<char>, LlvmType>, vars: Set<Seq<char>>, index: Map<Seq<char>, nat>, mm: ModuleModel, decls: Seq<Declaration>)
    ensures
        body_pass(structs, vars, index, mm, decls).1.functions == mm.functions,
        body_pass(structs, vars, index, mm, decls).1.has_builder == mm.has_builder,
    decreases decls.len(),
{
    if decls.len() > 0 {
        lemma_body_pass_functions(structs, vars, index, mm, decls.drop_last());
        let (v, m, err) = body_pass(structs, vars, index, mm, decls.drop_last());
        if let Declaration::Function(f) = decls.last() {
            let start = m.block_appended(index[f.name@], "entry"@).positioned_at(m.blocks);
            lemma_params_stored_functions(
                start,
                f.params@,
                convert_all(structs, types_of(f.params@))->Ok_0,
                index[f.name@],
                f.params@.len(),
            );
        }
    }
}

/// Once a prefix of the declarations stops the first pass, the whole list
/// stops it the same way.
proof fn lemma_struct_pass_stops(structs: Map<Seq<char>, LlvmType>, decls: Seq<Declaration>, k: int)
    requires
        0 <= k <= decls.len(),
        struct_pass(structs, decls.take(k)).1 is Some,
    ensures
        struct_pass(structs, decls) == struct_pass(structs, decls.take(k)),
    decreases decls.len() - k,
{
    if k < decls.len() {
        assert(decls.take(k + 1).drop_last() =~= decls.take(k));
        lemma_struct_pass_stops(structs, decls, k + 1);
    } else {
        assert(decls.take(k) =~= decls);
    }
}

/// Once a prefix of the declarations stops the second pass, the whole list
/// stops it the same way.
proof fn lemma_function_pass_stops(structs: Map<Seq<char>, LlvmType>, index: Map<Seq<char>, nat>, mm: ModuleModel, decls: Seq<Declaration>, k: int)
    requires
        0 <= k <= decls.len(),
        function_pass(structs, index, mm, decls.take(k)).2 is Some,
    ensures
        function_pass(structs, index, mm, decls) == function_pass(structs, index, mm, decls.take(k)),
    decreases decls.len() - k,
{
    if k < decls.len() {
        assert(decls.take(k + 1).drop_last() =~= decls.take(k));
        lemma_function_pass_stops(structs, index, mm, decls, k + 1);
    } else {
        assert(decls.take(k) =~= decls);
    }
}

/// Once a prefix of the declarations stops the third pass, the whole list
/// stops it the same way.
proof fn lemma_body_pass_stops(structs: Map<Seq<char>, LlvmType>, vars: Set<Seq<char>>, index: Map<Seq<char>, nat>, mm: ModuleModel, decls: Seq<Declaration>, k: int)
    requires
        0 <= k <= decls.len(),
        body_pass(structs, vars, index, mm, decls.take(k)).2 is Some,
    ensures
        body_pass(structs, vars, index, mm, decls) == body_pass(structs, vars, index, mm, decls.take(k)),
    decreases decls.len() - k,
{
    if k < decls.len() {
        assert(decls.take(k + 1).drop_last() =~= decls.take(k));
        lemma_body_pass_stops(structs, vars, index, mm, decls, k + 1);
    } else {
        assert(decls.take(k) =~= decls);
    }
}

/// Declaring a struct over a table whose struct types fit leaves one whose
/// struct types fit.
proof fn lemma_struct_fits(structs: Map<Seq<char>, LlvmType>, s: StructDef)
    requires
        table_fits(structs),
        struct_declared(structs, s) is Ok,
    ensures
        table_fits(struct_declared(structs, s)->Ok_0),
{
    let fts = convert_all(structs, types_of(s.fields@))->Ok_0;
    lemma_convert_all_fits(structs, types_of(s.fields@));
    lemma_convert_all_len(structs, types_of(s.fields@));
    assert(fts.len() <= u32::MAX);
    assert forall|i: int| 0 <= i < fts.len() implies fits(#[trigger] fts[i]) by {}
    assert(fits(LlvmType::Struct(fts)));
}

/// An LLVM IR generator: a module being filled, with the builder that
/// emits instructions into it, and the symbol tables of what has been
/// declared.
pub struct CodeGen<'ctx> {
    context: &'ctx Context,
    module: ModuleHandle<'ctx>,
    variables: StringHashMap<PointerValue<'ctx>>,
    functions: StringHashMap<usize>,
    structs: StringHashMap<BasicTy>,
}

impl<'ctx> CodeGen<'ctx> {
    /// Whether every struct type declared fits LLVM's field count, the
    /// module has its builder, and every function recorded is one of the
    /// module's, as holds of every generator.
    pub closed spec fn wf(&self) -> bool {
        &&& table_fits(struct_models(self.structs@))
        &&& self.module.model().has_builder
        &&& forall|n: Seq<char>| #[trigger] self.functions@.contains_key(n)
            ==> self.functions@[n] < self.module.model().functions.len()
    }

    /// The context this generator makes its types in.
    pub closed spec fn context(&self) -> &'ctx Context {
        self.context
    }

    /// The struct types declared so far, by name.
    pub closed spec fn struct_table(&self) -> Map<Seq<char>, LlvmType> {
        struct_models(self.structs@)
    }

    /// The functions declared so far, by name, with their numbers in the
    /// module.
    pub closed spec fn function_index(&self) -> Map<Seq<char>, nat> {
        self.functions@.map_values(|i: usize| i as nat)
    }

    /// The signatures of the functions declared so far, by name.
    pub open spec fn function_table(&self) -> Map<Seq<char>, FnSig> {
        self.function_index().map_values(|i: nat| self.module_model().functions[i as int])
    }

    /// The names of the functions declared so far.
    pub open spec fn function_names(&self) -> Set<Seq<char>> {
        self.function_index().dom()
    }

    /// The names of the variables given storage so far.
    pub closed spec fn variable_names(&self) -> Set<Seq<char>> {
        self.variables@.dom()
    }

    /// What has been put into the module, step by step.
    pub closed spec fn module_model(&self) -> ModuleModel {
        self.module.model()
    }

    /// A generator over `context` for a new module named `module_name`, with
    /// nothing in it, a builder with no position yet, and empty symbol
    /// tables.
    pub fn new(context: &'ctx Context, module_name: &str) -> (r: Self)
        ensures
            r.wf(),
            r.context() == context,
            r.module_model() == (ModuleModel {
                name: module_name@,
                ops: Seq::empty(),
                functions: Seq::empty(),
                blocks: 0,
                slots: Seq::empty(),
                params: Seq::empty(),
                has_builder: true,
                positioned: false,
            }),
            r.struct_table() == Map::<Seq<char>, LlvmType>::empty(),
            r.function_index() == Map::<Seq<char>, nat>::empty(),
            r.variable_names() == Set::<Seq<char>>::empty(),
    {
        let mut module = llvm::create_module(context, module_name);
        llvm::create_builder(&mut module);
        let structs: StringHashMap<BasicTy> = StringHashMap::new();
        assert(struct_models(structs@) =~= Map::<Seq<char>, LlvmType>::empty());
        let r = CodeGen { context, module, variables: StringHashMap::new(), functions: StringHashMap::new(), structs };
        assert(r.function_index() =~= Map::<Seq<char>, nat>::empty());
        assert(r.variable_names() =~= Set::<Seq<char>>::empty());
        r
    }

    /// The LLVM handle of a basic type in this generator's context.
    fn lower_type(&self, t: &BasicTy) -> (r: TypeHandle<'ctx>)
        requires
            fits(t.model()),
        ensures
            r.model() == t.model(),
        decreases t,
    {
        match t {
            BasicTy::Bool => llvm::bool_type(self.context),
            BasicTy::I8 => llvm::i8_type(self.context),
            BasicTy::I64 => llvm::i64_type(self.context),
            BasicTy::Double => llvm::f64_type(self.context),
            BasicTy::Pointer(inner) => {
                let pointee = self.lower_type(inner);
                llvm::ptr_type(&pointee)
            },
            BasicTy::Struct(fields) => {
                let mut lowered: Vec<TypeHandle<'ctx>> = Vec::new();
                let mut i: usize = 0;
                while i < fields.len()
                    invariant
                        i <= fields.len(),
                        *t == BasicTy::Struct(*fields),
                        fits(t.model()),
                        lowered.len() == i,
                        forall|j: int| 0 <= j < i ==> #[trigger] lowered[j].model() == fields[j].model(),
                    decreases fields.len() - i,
                {
                    proof {
                        broadcast use vstd::std_specs::vec::axiom_vec_index_decreases;
                        assert(decreases_to!(*t => t->Struct_0));
                        assert(decreases_to!(*fields => fields[i as int]));
                        assert(t.model()->Struct_0[i as int] == fields[i as int].model());
                        assert(fits(t.model()->Struct_0[i as int]));
                    }
                    let f = self.lower_type(&fields[i]);
                    lowered.push(f);
                    i = i + 1;
                }
                proof {
                    lemma_struct_model(*fields);
                    assert(handle_models(lowered@) =~= models(fields@));
                }
                llvm::struct_type(self.context, lowered.as_slice())
            },
        }
    }

    /// Converts a source type into its LLVM type, looking custom types up
    /// among the structs declared so far: the type that `type_desc` gives, or
    /// its error.
    pub fn convert_type(&self, ty: &Type) -> (r: Result<TypeHandle<'ctx>, String>)
        requires
            self.wf(),
        ensures
            handle_result_model(r) == type_desc(self.struct_table(), *ty),
    {
        match describe_type(&self.structs, ty) {
            Ok(t) => {
                proof { lemma_type_desc_fits(self.struct_table(), *ty); }
                Ok(self.lower_type(&t))
            },
            Err(e) => Err(e),
        }
    }

    /// Whether a source type is `void`.
    pub fn is_void_type(&self, ty: &Type) -> (r: bool)
        ensures
            r == is_void(*ty),
    {
        match ty {
            Type::Primitive(name) => *name == String::from_str("void"),
            _ => false,
        }
    }

    /// Declares a struct: converts its field types in order and, if all
    /// convert, records the literal struct of them under the struct's name,
    /// replacing any earlier struct of that name. On an error, returns it and
    /// changes nothing.
    pub fn declare_struct(&mut self, s: &StructDef) -> (r: Result<(), String>)
        requires
            old(self).wf(),
        ensures
            final(self).wf(),
            final(self).context() == old(self).context(),
            final(self).function_index() == old(self).function_index(),
            final(self).variable_names() == old(self).variable_names(),
            final(self).module_model() == old(self).module_model(),
            match struct_declared(old(self).struct_table(), *s) {
                Ok(m) => r is Ok && final(self).struct_table() == m,
                Err(e) => unit_model(r) == Err::<(), Seq<char>>(e)
                    && final(self).struct_table() == old(self).struct_table(),
            },
    {
        if s.fields.len() > u32::MAX as usize {
            return Err(String::from_str("too many fields in struct"));
        }
        match describe_all(&self.structs, &s.fields) {
            Ok(fields) => {
                proof {
                    lemma_struct_model(fields);
                    lemma_struct_fits(self.struct_table(), *s);
                }
                let name = s.name.clone();
                self.structs.insert(name, BasicTy::Struct(fields));
                assert(self.struct_table() =~= old(self).struct_table().insert(
                    s.name@,
                    LlvmType::Struct(models(fields@)),
                ));
                Ok(())
            },
            Err(e) => Err(e),
        }
    }

    /// The LLVM handles of a list of converted types.
    fn lower_all(&self, tys: &Vec<BasicTy>) -> (r: Vec<TypeHandle<'ctx>>)
        requires
            forall|i: int| 0 <= i < tys.len() ==> #[trigger] fits(tys[i].model()),
        ensures
            handle_models(r@) == models(tys@),
    {
        let mut lowered: Vec<TypeHandle<'ctx>> = Vec::new();
        let mut i: usize = 0;
        while i < tys.len()
            invariant
                i <= tys.len(),
                forall|i: int| 0 <= i < tys.len() ==> #[trigger] fits(tys[i].model()),
                lowered.len() == i,
                forall|j: int| 0 <= j < i ==> #[trigger] lowered[j].model() == tys[j].model(),
            decreases tys.len() - i,
        {
            let t = self.lower_type(&tys[i]);
            lowered.push(t);
            i = i + 1;
        }
        assert(handle_models(lowered@) =~= models(tys@));
        lowered
    }

    /// Declares a function: checks that it has fewer than `u32::MAX`
    /// parameters, converts its parameter types in order, then its return
    /// type unless that is `void`, and checks that its name is not declared
    /// yet; if all pass, adds a function of that type to the module and
    /// records its number under the function's name. On the first check that
    /// fails, returns its error and changes nothing.
    pub fn declare_function(&mut self, f: &Function) -> (r: Result<(), String>)
        requires
            old(self).wf(),
        ensures
            final(self).wf(),
            final(self).context() == old(self).context(),
            final(self).struct_table() == old(self).struct_table(),
            final(self).variable_names() == old(self).variable_names(),
            match function_checked(old(self).struct_table(), old(self).function_names(), *f) {
                Ok(()) => {
                    &&& r is Ok
                    &&& final(self).function_index() == old(self).function_index().insert(
                        f.name@,
                        old(self).module_model().functions.len(),
                    )
                    &&& final(self).module_model() == old(self).module_model().function_added(
                        f.name@,
                        fn_sig(old(self).struct_table(), *f),
                    )
                },
                Err(e) => {
                    &&& unit_model(r) == Err::<(), Seq<char>>(e)
                    &&& final(self).function_index() == old(self).function_index()
                    &&& final(self).module_model() == old(self).module_model()
                },
            },
    {
        if f.params.len() >= u32::MAX as usize {
            return Err(String::from_str("too many parameters"));
        }
        let params = match describe_all(&self.structs, &f.params) {
            Ok(params) => params,
            Err(e) => return Err(e),
        };
        proof {
            lemma_convert_all_fits(self.struct_table(), types_of(f.params@));
            lemma_convert_all_len(self.struct_table(), types_of(f.params@));
            assert forall|i: int| 0 <= i < params.len() implies #[trigger] fits(params[i].model()) by {
                assert(models(params@)[i] == params[i].model());
            }
        }
        let lowered = self.lower_all(&params);
        let fn_type = if self.is_void_type(&f.return_type) {
            llvm::void_fn_type(llvm::void_type(self.context), lowered.as_slice())
        } else {
            match describe_type(&self.structs, &f.return_type) {
                Ok(ret) => {
                    proof { lemma_type_desc_fits(self.struct_table(), f.return_type); }
                    let ret = self.lower_type(&ret);
                    llvm::basic_fn_type(&ret, lowered.as_slice())
                },
                Err(e) => return Err(e),
            }
        };
        if self.functions.contains_key(f.name.as_str()) {
            return Err(String::from_str("Function already declared: ").concat(f.name.as_str()));
        }
        let function = llvm::add_function(&mut self.module, f.name.as_str(), &fn_type);
        self.functions.insert(f.name.clone(), function);
        assert(self.function_index() =~= old(self).function_index().insert(
            f.name@,
            old(self).module_model().functions.len(),
        ));
        Ok(())
    }

    /// Gives a global variable storage: converts its type and, if it
    /// converts, adds a global of that type to the module and records its
    /// address under the variable's name. If the type fails, returns its error
    /// and changes nothing.
    pub fn compile_global_var(&mut self, v: &VarDecl) -> (r: Result<(), String>)
        requires
            old(self).wf(),
        ensures
            final(self).wf(),
            final(self).context() == old(self).context(),
            final(self).struct_table() == old(self).struct_table(),
            final(self).function_index() == old(self).function_index(),
            match global_checked(old(self).struct_table(), *v) {
                Ok(t) => {
                    &&& r is Ok
                    &&& final(self).variable_names() == old(self).variable_names().insert(v.name@)
                    &&& final(self).module_model() == old(self).module_model().global_added(v.name@, t)
                },
                Err(e) => {
                    &&& unit_model(r) == Err::<(), Seq<char>>(e)
                    &&& final(self).variable_names() == old(self).variable_names()
                    &&& final(self).module_model() == old(self).module_model()
                },
            },
    {
        let ty = match self.convert_type(&v.ty) {
            Ok(ty) => ty,
            Err(e) => return Err(e),
        };
        let global = llvm::add_global(&mut self.module, &ty, v.name.as_str());
        self.variables.insert(v.name.clone(), llvm::global_address(global));
        Ok(())
    }

    /// Emits the entry of a declared function: an `entry` block appended to
    /// it, with the builder moved there, holding for each parameter in order
    /// a stack slot of its type, named after it, into which the parameter is
    /// stored and which is recorded under the parameter's name; and a
    /// `ret void` when the function returns `void`. The function must have
    /// been declared with these parameter types. On an error (too many
    /// parameters, or the first parameter type that does not convert),
    /// returns it and changes nothing.
    pub fn compile_function(&mut self, f: &Function) -> (r: Result<(), String>)
        requires
            old(self).wf(),
            old(self).function_names().contains(f.name@),
            convert_all(old(self).struct_table(), types_of(f.params@)) matches Ok(ps)
                ==> old(self).function_table()[f.name@].params == ps,
        ensures
            final(self).wf(),
            final(self).context() == old(self).context(),
            final(self).struct_table() == old(self).struct_table(),
            final(self).function_index() == old(self).function_index(),
            unit_model(r) == entry_checked(old(self).struct_table(), *f),
            final(self).module_model() == if r is Ok {
                entry_emitted(
                    old(self).module_model(),
                    old(self).struct_table(),
                    *f,
                    old(self).function_index()[f.name@],
                )
            } else {
                old(self).module_model()
            },
            final(self).variable_names() == if r is Ok {
                old(self).variable_names() + names_of(f.params@)
            } else {
                old(self).variable_names()
            },
    {
        if f.params.len() >= u32::MAX as usize {
            return Err(String::from_str("too many parameters"));
        }
        let params = match describe_all(&self.structs, &f.params) {
            Ok(params) => params,
            Err(e) => return Err(e),
        };
        let function = *self.functions.get(f.name.as_str()).unwrap();
        let ghost tys = models(params@);
        proof {
            lemma_convert_all_len(self.struct_table(), types_of(f.params@));
            lemma_convert_all_fits(self.struct_table(), types_of(f.params@));
            assert(tys.len() == params@.len());
            assert(self.function_index()[f.name@] == function as nat);
            assert(self.module_model().functions[function as int].params == tys);
        }
        let entry = llvm::append_basic_block(&mut self.module, function, "entry");
        llvm::position_at_end(&mut self.module, entry);
        let ghost start = self.module_model();
        assert(start == old(self).module_model().block_appended(function as nat, "entry"@).positioned_at(
            old(self).module_model().blocks,
        ));
        let mut i: usize = 0;
        while i < params.len()
            invariant
                i <= params.len(),
                params.len() == f.params.len(),
                f.params.len() < u32::MAX,
                tys == models(params@),
                tys.len() == params.len(),
                forall|j: int| 0 <= j < tys.len() ==> #[trigger] fits(tys[j]),
                function < start.functions.len(),
                start.functions[function as int].params == tys,
                self.module_model() == params_stored(start, f.params@, tys, function as nat, i as nat),
                self.module_model().functions == start.functions,
                self.module_model().has_builder,
                self.module_model().positioned,
                self.context == old(self).context,
                self.functions == old(self).functions,
                self.struct_table() == old(self).struct_table(),
                self.variable_names() == old(self).variable_names() + names_of(f.params@.take(i as int)),
            decreases params.len() - i,
        {
            proof {
                lemma_names_of_prefix(f.params@, i as int);
                assert(tys[i as int] == params[i as int].model());
            }
            let value = llvm::nth_param(&mut self.module, function, i as u32).unwrap();
            let ty = self.lower_type(&params[i]);
            let (slot, address) = llvm::build_alloca(&mut self.module, &ty, f.params[i].0.as_str()).unwrap();
            llvm::build_store(&mut self.module, slot, value).unwrap();
            assert(self.module_model() == params_stored(start, f.params@, tys, function as nat, (i + 1) as nat));
            self.variables.insert(f.params[i].0.clone(), address);
            i = i + 1;
        }
        assert(f.params@.take(i as int) =~= f.params@);
        if self.is_void_type(&f.return_type) {
            llvm::build_return_void(&mut self.module).unwrap();
        }
        Ok(())
    }

    /// Compiles a program in three passes over its declarations: first every
    /// struct is declared, then every function, then every function's entry
    /// is emitted and every global is given storage, each pass in source
    /// order. The first error stops the compilation and is returned, and no
    /// later step is run; when no step fails, the compilation succeeds.
    pub fn compile_program(&mut self, program: &Program) -> (r: Result<(), String>)
        requires
            old(self).wf(),
        ensures
            final(self).wf(),
            final(self).context() == old(self).context(),
            final(self).struct_table() == struct_pass(old(self).struct_table(), program.declarations@).0,
            struct_pass(old(self).struct_table(), program.declarations@).1 matches Some(e) ==> {
                &&& unit_model(r) == Err::<(), Seq<char>>(e)
                &&& final(self).function_index() == old(self).function_index()
                &&& final(self).variable_names() == old(self).variable_names()
                &&& final(self).module_model() == old(self).module_model()
            },
            struct_pass(old(self).struct_table(), program.declarations@).1 is None ==> {
                let m = struct_pass(old(self).struct_table(), program.declarations@).0;
                let fp = function_pass(m, old(self).function_index(), old(self).module_model(), program.declarations@);
                &&& final(self).function_index() == fp.0
                &&& fp.2 matches Some(e) ==> {
                    &&& unit_model(r) == Err::<(), Seq<char>>(e)
                    &&& final(self).variable_names() == old(self).variable_names()
                    &&& final(self).module_model() == fp.1
                }
                &&& fp.2 is None ==> {
                    let bp = body_pass(m, old(self).variable_names(), fp.0, fp.1, program.declarations@);
                    &&& unit_model(r) == match bp.2 {
                        Some(e) => Err::<(), Seq<char>>(e),
                        None => Ok(()),
                    }
                    &&& final(self).variable_names() == bp.0
                    &&& final(self).module_model() == bp.1
                }
            },
    {
        let decls = &program.declarations;
        let ghost d = decls@;
        let ghost structs0 = self.struct_table();
        let ghost ix0 = self.function_index();
        let ghost vars0 = self.variable_names();
        let ghost mod0 = self.module_model();
        let ghost ctx0 = self.context;

        // First pass: declare all structs.
        let mut i: usize = 0;
        assert(d.take(0) =~= Seq::<Declaration>::empty());
        while i < decls.len()
            invariant
                i <= decls.len(),
                d == decls@,
                d == program.declarations@,
                structs0 == old(self).struct_table(),
                ix0 == old(self).function_index(),
                vars0 == old(self).variable_names(),
                mod0 == old(self).module_model(),
                ctx0 == old(self).context,
                self.context == ctx0,
                self.wf(),
                struct_pass(structs0, d.take(i as int)) == (self.struct_table(), None::<Seq<char>>),
                self.function_index() == ix0,
                self.variable_names() == vars0,
                self.module_model() == mod0,
            decreases decls.len() - i,
        {
            assert(d.take(i + 1).drop_last() =~= d.take(i as int));
            if let Declaration::Struct(s) = &decls[i] {
                match self.declare_struct(s) {
                    Ok(()) => {},
                    Err(e) => {
                        proof { lemma_struct_pass_stops(structs0, d, i + 1); }
                        return Err(e);
                    },
                }
            }
            i = i + 1;
        }
        assert(d.take(i as int) =~= d);
        let ghost m = self.struct_table();

        // Second pass: declare all functions.
        let mut i: usize = 0;
        while i < decls.len()
            invariant
                i <= decls.len(),
                d == decls@,
                d == program.declarations@,
                structs0 == old(self).struct_table(),
                ix0 == old(self).function_index(),
                vars0 == old(self).variable_names(),
                mod0 == old(self).module_model(),
                ctx0 == old(self).context,
                self.context == ctx0,
                self.wf(),
                struct_pass(structs0, d) == (m, None::<Seq<char>>),
                self.struct_table() == m,
                function_pass(m, ix0, mod0, d.take(i as int)) == (
                    self.function_index(),
                    self.module_model(),
                    None::<Seq<char>>,
                ),
                self.variable_names() == vars0,
            decreases decls.len() - i,
        {
            assert(d.take(i + 1).drop_last() =~= d.take(i as int));
            if let Declaration::Function(f) = &decls[i] {
                match self.declare_function(f) {
                    Ok(()) => {},
                    Err(e) => {
                        proof { lemma_function_pass_stops(m, ix0, mod0, d, i + 1); }
                        return Err(e);
                    },
                }
            }
            i = i + 1;
        }
        assert(d.take(i as int) =~= d);
        let ghost fp = function_pass(m, ix0, mod0, d);
        proof { crate::laws::second_pass_declares_every_function(m, ix0, mod0, d); }

        // Third pass: emit function entries and global variables.
        let mut i: usize = 0;
        while i < decls.len()
            invariant
                i <= decls.len(),
                d == decls@,
                d == program.declarations@,
                structs0 == old(self).struct_table(),
                ix0 == old(self).function_index(),
                vars0 == old(self).variable_names(),
                mod0 == old(self).module_model(),
                ctx0 == old(self).context,
                self.context == ctx0,
                self.wf(),
                struct_pass(structs0, d) == (m, None::<Seq<char>>),
                fp == function_pass(m, ix0, mod0, d),
                fp.2 is None,
                self.struct_table() == m,
                self.function_index() == fp.0,
                self.module_model().functions == fp.1.functions,
                forall|k: int| 0 <= k < d.len() ==> (#[trigger] d[k] matches Declaration::Function(f) ==> {
                    &&& fp.0.contains_key(f.name@)
                    &&& fp.0[f.name@] < fp.1.functions.len()
                    &&& fp.1.functions[fp.0[f.name@] as int] == fn_sig(m, f)
                    &&& convert_all(m, types_of(f.params@)) is Ok
                }),
                body_pass(m, vars0, fp.0, fp.1, d.take(i as int)) == (
                    self.variable_names(),
                    self.module_model(),
                    None::<Seq<char>>,
                ),
            decreases decls.len() - i,
        {
            assert(d.take(i + 1).drop_last() =~= d.take(i as int));
            proof { lemma_body_pass_functions(m, vars0, fp.0, fp.1, d.take(i + 1)); }
            match &decls[i] {
                Declaration::Function(f) => {
                    assert(d[i as int] matches Declaration::Function(g) && fp.0.contains_key(g.name@));
                    match self.compile_function(f) {
                        Ok(()) => {},
                        Err(e) => {
                            proof { lemma_body_pass_stops(m, vars0, fp.0, fp.1, d, i + 1); }
                            return Err(e);
                        },
                    }
                },
                Declaration::Var(v) => {
                    match self.compile_global_var(v) {
                        Ok(()) => {},
                        Err(e) => {
                            proof { lemma_body_pass_stops(m, vars0, fp.0, fp.1, d, i + 1); }
                            return Err(e);
                        },
                    }
                },
                Declaration::Struct(_) => {},
            }
            i = i + 1;
        }
        assert(d.take(i as int) =~= d);
        Ok(())
    }

    /// The textual LLVM IR of the module built so far: the text of the
    /// module that the steps recorded in its model build.
    pub fn ir_text(&self) -> (s: String)
        ensures
            s@ == module_ir(self.module_model()),
    {
        llvm::module_ir_text(&self.module)
    }
}

}
