//! The calls this library makes into `inkwell`, the LLVM bindings. The
//! handles that inkwell gives back are opaque to Verus; each is kept here
//! beside a plain model of what it stands for, which only the items of this
//! file set, as inkwell's source shows it.
use vstd::prelude::*;

use inkwell::basic_block::BasicBlock;
use inkwell::builder::{Builder, BuilderError};
use inkwell::context::Context;
use inkwell::module::Module;
use inkwell::types::{BasicMetadataTypeEnum, BasicType, BasicTypeEnum, FunctionType, VoidType};
use inkwell::values::{BasicValueEnum, FunctionValue, GlobalValue, PointerValue};
use inkwell::AddressSpace;

use crate::llvm_type::LlvmType;

verus! {

#[verifier::external_type_specification]
#[verifier::external_body]
pub struct ExContext(Context);

#[verifier::external_type_specification]
#[verifier::external_body]
pub struct ExModule<'ctx>(Module<'ctx>);

#[verifier::external_type_specification]
#[verifier::external_body]
pub struct ExBuilder<'ctx>(Builder<'ctx>);

#[verifier::external_type_specification]
#[verifier::external_body]
pub struct ExBuilderError(BuilderError);

#[verifier::external_type_specification]
#[verifier::external_body]
pub struct ExBasicTypeEnum<'ctx>(BasicTypeEnum<'ctx>);

#[verifier::external_type_specification]
#[verifier::external_body]
pub struct ExVoidType<'ctx>(VoidType<'ctx>);

#[verifier::external_type_specification]
#[verifier::external_body]
pub struct ExFunctionType<'ctx>(FunctionType<'ctx>);

#[verifier::external_type_specification]
#[verifier::external_body]
pub struct ExFunctionValue<'ctx>(FunctionValue<'ctx>);

#[verifier::external_type_specification]
#[verifier::external_body]
pub struct ExGlobalValue<'ctx>(GlobalValue<'ctx>);

#[verifier::external_type_specification]
#[verifier::external_body]
pub struct ExPointerValue<'ctx>(PointerValue<'ctx>);

#[verifier::external_type_specification]
#[verifier::external_body]
pub struct ExBasicValueEnum<'ctx>(BasicValueEnum<'ctx>);

#[verifier::external_type_specification]
#[verifier::external_body]
pub struct ExBasicBlock<'ctx>(BasicBlock<'ctx>);

/// The signature of an LLVM function type: its parameter types and its
/// return type (`None` for `void`).
pub struct FnSig {
    pub params: Seq<LlvmType>,
    pub ret: Option<LlvmType>,
}

/// One step in the building of a module, as it was asked for. Functions,
/// blocks and slots are numbered in the order they were made; names are the
/// names asked for (LLVM may rename one that is already taken).
pub enum ModuleOp {
    /// A function of the given signature added under a name.
    AddFunction { name: Seq<char>, sig: FnSig },
    /// A global of the given type added under a name.
    AddGlobal { name: Seq<char>, ty: LlvmType },
    /// A basic block of the given name appended to a function.
    AppendBlock { function: nat, name: Seq<char> },
    /// The builder moved to the end of a block.
    PositionAtEnd { block: nat },
    /// A stack slot of a type, under a name, at the builder's position.
    Alloca { name: Seq<char>, ty: LlvmType },
    /// A parameter of a function stored into a slot, at the builder's
    /// position.
    StoreParam { slot: nat, function: nat, param: nat },
    /// A `ret void`, at the builder's position.
    RetVoid,
}

/// A module and its builder, as built so far: the name the module was
/// created with and every step that changed it, in order; with what the
/// steps numbered (the signatures of its functions, its number of blocks, the
/// types its slots hold, and the parameters fetched so far), whether it has a
/// builder, and whether that builder has a position.
pub struct ModuleModel {
    pub name: Seq<char>,
    pub ops: Seq<ModuleOp>,
    pub functions: Seq<FnSig>,
    pub blocks: nat,
    pub slots: Seq<LlvmType>,
    pub params: Seq<(nat, nat, LlvmType)>,
    pub has_builder: bool,
    pub positioned: bool,
}

impl ModuleModel {
    /// A module just created under `name`: no step taken, nothing numbered,
    /// and no builder.
    pub open spec fn fresh(name: Seq<char>) -> ModuleModel {
        ModuleModel {
            name,
            ops: Seq::empty(),
            functions: Seq::empty(),
            blocks: 0,
            slots: Seq::empty(),
            params: Seq::empty(),
            has_builder: false,
            positioned: false,
        }
    }

    /// After a function of signature `sig` is added under `name`.
    pub open spec fn function_added(self, name: Seq<char>, sig: FnSig) -> ModuleModel {
        ModuleModel {
            ops: self.ops.push(ModuleOp::AddFunction { name, sig }),
            functions: self.functions.push(sig),
            ..self
        }
    }

    /// After a global of type `ty` is added under `name`.
    pub open spec fn global_added(self, name: Seq<char>, ty: LlvmType) -> ModuleModel {
        ModuleModel { ops: self.ops.push(ModuleOp::AddGlobal { name, ty }), ..self }
    }

    /// After a block named `name` is appended to function number `function`.
    pub open spec fn block_appended(self, function: nat, name: Seq<char>) -> ModuleModel {
        ModuleModel {
            ops: self.ops.push(ModuleOp::AppendBlock { function, name }),
            blocks: self.blocks + 1,
            ..self
        }
    }

    /// After the builder moves to the end of block number `block`.
    pub open spec fn positioned_at(self, block: nat) -> ModuleModel {
        ModuleModel { ops: self.ops.push(ModuleOp::PositionAtEnd { block }), positioned: true, ..self }
    }

    /// After parameter `n` of function number `function` is fetched.
    pub open spec fn param_fetched(self, function: nat, n: nat) -> ModuleModel {
        ModuleModel { params: self.params.push((function, n, self.functions[function as int].params[n as int])), ..self }
    }

    /// After a slot of type `ty` is made under `name`.
    pub open spec fn slot_made(self, name: Seq<char>, ty: LlvmType) -> ModuleModel {
        ModuleModel {
            ops: self.ops.push(ModuleOp::Alloca { name, ty }),
            slots: self.slots.push(ty),
            ..self
        }
    }

    /// After fetched parameter number `param` is stored into slot number
    /// `slot`.
    pub open spec fn param_stored(self, slot: nat, param: nat) -> ModuleModel {
        ModuleModel {
            ops: self.ops.push(ModuleOp::StoreParam {
                slot,
                function: self.params[param as int].0,
                param: self.params[param as int].1,
            }),
            ..self
        }
    }

    /// After a `ret void`.
    pub open spec fn returned_void(self) -> ModuleModel {
        ModuleModel { ops: self.ops.push(ModuleOp::RetVoid), ..self }
    }
}

/// The textual LLVM IR of a module built by the given steps.
pub uninterp spec fn module_ir(m: ModuleModel) -> Seq<char>;

/// An LLVM basic type, with the type it stands for.
#[derive(Clone, Copy)]
pub struct TypeHandle<'ctx> {
    handle: BasicTypeEnum<'ctx>,
    model: Ghost<LlvmType>,
}

impl<'ctx> TypeHandle<'ctx> {
    /// The type this handle stands for.
    pub closed spec fn model(&self) -> LlvmType {
        self.model@
    }

    /// The inkwell handle.
    pub fn handle(&self) -> BasicTypeEnum<'ctx> {
        self.handle
    }
}

/// The models of a list of type handles.
pub open spec fn handle_models<'ctx>(ts: Seq<TypeHandle<'ctx>>) -> Seq<LlvmType> {
    ts.map_values(|t: TypeHandle<'ctx>| t.model())
}

/// An LLVM function type, with its signature.
pub struct FnTypeHandle<'ctx> {
    ty: FunctionType<'ctx>,
    sig: Ghost<FnSig>,
}

impl<'ctx> FnTypeHandle<'ctx> {
    /// The signature of this function type.
    pub closed spec fn sig(&self) -> FnSig {
        self.sig@
    }
}

/// A module, the builder that emits code into it, and what it has made: its
/// functions, blocks, slots and fetched parameters, which the items below
/// refer to by number (each list is as long as the model's count of it). Of
/// what is made here only globals and the slots' addresses are handed out,
/// so every change to the module goes through the items of this file and is
/// recorded in the model.
pub struct ModuleHandle<'ctx> {
    context: &'ctx Context,
    module: Module<'ctx>,
    builder: Option<Builder<'ctx>>,
    functions: Vec<FunctionValue<'ctx>>,
    blocks: Vec<BasicBlock<'ctx>>,
    slots: Vec<PointerValue<'ctx>>,
    params: Vec<BasicValueEnum<'ctx>>,
    model: Ghost<ModuleModel>,
}

impl<'ctx> ModuleHandle<'ctx> {
    /// What has been put into this module.
    pub closed spec fn model(&self) -> ModuleModel {
        self.model@
    }
}

impl<'ctx> View for ModuleHandle<'ctx> {
    type V = ModuleModel;

    open spec fn view(&self) -> ModuleModel {
        self.model()
    }
}

/// `Context::create_module`: a new module created with the given name, with
/// nothing in it and no builder.
#[verifier::external_body]
pub(crate) fn create_module<'ctx>(context: &'ctx Context, name: &str) -> (m: ModuleHandle<'ctx>)
    ensures
        m.model() == ModuleModel::fresh(name@),
{
    let module = context.create_module(name);
    let (functions, blocks, slots, params) = (Vec::new(), Vec::new(), Vec::new(), Vec::new());
    let model = Ghost(ModuleModel::fresh(name@));
    ModuleHandle { context, module, builder: None, functions, blocks, slots, params, model }
}

/// `Context::create_builder`, in the module's context: gives the module a new
/// instruction builder, with no position.
#[verifier::external_body]
pub(crate) fn create_builder<'ctx>(module: &mut ModuleHandle<'ctx>)
    ensures
        final(module).model() == (ModuleModel { has_builder: true, positioned: false, ..old(module).model() }),
{
    module.builder = Some(module.context.create_builder());
    module.model = Ghost(ModuleModel { has_builder: true, positioned: false, ..module.model@ });
}

/// `Context::i64_type`: the 64-bit integer type.
#[verifier::external_body]
pub(crate) fn i64_type<'ctx>(context: &'ctx Context) -> (t: TypeHandle<'ctx>)
    ensures
        t.model() == (LlvmType::Int { bits: 64 }),
{
    TypeHandle { handle: context.i64_type().into(), model: Ghost(LlvmType::Int { bits: 64 }) }
}

/// `Context::i8_type`: the 8-bit integer type.
#[verifier::external_body]
pub(crate) fn i8_type<'ctx>(context: &'ctx Context) -> (t: TypeHandle<'ctx>)
    ensures
        t.model() == (LlvmType::Int { bits: 8 }),
{
    TypeHandle { handle: context.i8_type().into(), model: Ghost(LlvmType::Int { bits: 8 }) }
}

/// `Context::bool_type`: the 1-bit integer type.
#[verifier::external_body]
pub(crate) fn bool_type<'ctx>(context: &'ctx Context) -> (t: TypeHandle<'ctx>)
    ensures
        t.model() == (LlvmType::Int { bits: 1 }),
{
    TypeHandle { handle: context.bool_type().into(), model: Ghost(LlvmType::Int { bits: 1 }) }
}

/// `Context::f64_type`: the `double` type.
#[verifier::external_body]
pub(crate) fn f64_type<'ctx>(context: &'ctx Context) -> (t: TypeHandle<'ctx>)
    ensures
        t.model() == LlvmType::Double,
{
    TypeHandle { handle: context.f64_type().into(), model: Ghost(LlvmType::Double) }
}

/// `BasicType::ptr_type` in the default address space: the type of pointers
/// to `pointee`.
#[verifier::external_body]
pub(crate) fn ptr_type<'ctx>(pointee: &TypeHandle<'ctx>) -> (t: TypeHandle<'ctx>)
    ensures
        t.model() == LlvmType::Pointer(Box::new(pointee.model())),
{
    TypeHandle {
        handle: pointee.handle.ptr_type(AddressSpace::default()).into(),
        model: Ghost(LlvmType::Pointer(Box::new(pointee.model@))),
    }
}

/// `Context::struct_type`, unpacked: the literal struct type of the given
/// field types. LLVM counts the fields in 32 bits.
#[verifier::external_body]
pub(crate) fn struct_type<'ctx>(context: &'ctx Context, fields: &[TypeHandle<'ctx>]) -> (t: TypeHandle<'ctx>)
    requires
        fields@.len() <= u32::MAX,
    ensures
        t.model() == LlvmType::Struct(handle_models(fields@)),
{
    let handles: Vec<BasicTypeEnum<'ctx>> = fields.iter().map(|f| f.handle).collect();
    TypeHandle {
        handle: context.struct_type(&handles, false).into(),
        model: Ghost(LlvmType::Struct(handle_models(fields@))),
    }
}

/// `Context::void_type`: the `void` type.
#[verifier::external_body]
pub(crate) fn void_type<'ctx>(context: &'ctx Context) -> (t: VoidType<'ctx>) {
    context.void_type()
}

/// `VoidType::fn_type`, without varargs: the type of functions that take the
/// given parameters and return nothing. LLVM counts the parameters in 32
/// bits.
#[verifier::external_body]
pub(crate) fn void_fn_type<'ctx>(ret: VoidType<'ctx>, params: &[TypeHandle<'ctx>]) -> (t: FnTypeHandle<'ctx>)
    requires
        params@.len() <= u32::MAX,
    ensures
        t.sig() == (FnSig { params: handle_models(params@), ret: None }),
{
    let ps: Vec<BasicMetadataTypeEnum<'ctx>> = params.iter().map(|p| p.handle.into()).collect();
    FnTypeHandle { ty: ret.fn_type(&ps, false), sig: Ghost(FnSig { params: handle_models(params@), ret: None }) }
}

/// `BasicType::fn_type`, without varargs: the type of functions that take the
/// given parameters and return `ret`. LLVM counts the parameters in 32 bits.
#[verifier::external_body]
pub(crate) fn basic_fn_type<'ctx>(ret: &TypeHandle<'ctx>, params: &[TypeHandle<'ctx>]) -> (t: FnTypeHandle<'ctx>)
    requires
        params@.len() <= u32::MAX,
    ensures
        t.sig() == (FnSig { params: handle_models(params@), ret: Some(ret.model()) }),
{
    let ps: Vec<BasicMetadataTypeEnum<'ctx>> = params.iter().map(|p| p.handle.into()).collect();
    FnTypeHandle {
        ty: ret.handle.fn_type(&ps, false),
        sig: Ghost(FnSig { params: handle_models(params@), ret: Some(ret.model@) }),
    }
}

/// `Module::add_function` with no linkage given: adds a function of the given
/// type to the module, under the given name; it gets the next function
/// number.
#[verifier::external_body]
pub(crate) fn add_function<'ctx>(module: &mut ModuleHandle<'ctx>, name: &str, ty: &FnTypeHandle<'ctx>) -> (f: usize)
    ensures
        f == old(module).model().functions.len(),
        final(module).model() == old(module).model().function_added(name@, ty.sig()),
{
    module.functions.push(module.module.add_function(name, ty.ty, None));
    module.model = Ghost(module.model@.function_added(name@, ty.sig@));
    module.functions.len() - 1
}

/// `Module::add_global` in the default address space: adds a global variable
/// of the given type to the module, under the given name, and returns the
/// global itself (`global_address` gives its address).
#[verifier::external_body]
pub(crate) fn add_global<'ctx>(module: &mut ModuleHandle<'ctx>, ty: &TypeHandle<'ctx>, name: &str) -> (g: GlobalValue<'ctx>)
    ensures
        final(module).model() == old(module).model().global_added(name@, ty.model()),
{
    module.model = Ghost(module.model@.global_added(name@, ty.model@));
    module.module.add_global(ty.handle, None, name)
}

/// `GlobalValue::as_pointer_value`: the address of a global. Nothing is
/// stated of the handle.
#[verifier::external_body]
pub(crate) fn global_address<'ctx>(global: GlobalValue<'ctx>) -> (p: PointerValue<'ctx>) {
    global.as_pointer_value()
}

/// `Context::append_basic_block`, in the module's context: appends a new
/// basic block of the given name to the module's function number `function`;
/// it gets the next block number.
#[verifier::external_body]
pub(crate) fn append_basic_block<'ctx>(module: &mut ModuleHandle<'ctx>, function: usize, name: &str) -> (b: usize)
    requires
        function < old(module).model().functions.len(),
    ensures
        b == old(module).model().blocks,
        final(module).model() == old(module).model().block_appended(function as nat, name@),
{
    module.blocks.push(module.context.append_basic_block(module.functions[function], name));
    module.model = Ghost(module.model@.block_appended(function as nat, name@));
    module.blocks.len() - 1
}

/// `Builder::position_at_end`: the module's builder now appends to the end of
/// block number `block`.
#[verifier::external_body]
pub(crate) fn position_at_end<'ctx>(module: &mut ModuleHandle<'ctx>, block: usize)
    requires
        old(module).model().has_builder,
        block < old(module).model().blocks,
    ensures
        final(module).model() == old(module).model().positioned_at(block as nat),
{
    module.builder.as_ref().unwrap().position_at_end(module.blocks[block]);
    module.model = Ghost(module.model@.positioned_at(block as nat));
}

/// `FunctionValue::get_nth_param`: parameter `n` of function number
/// `function`, present exactly when the function has more than `n`
/// parameters; when present it gets the next parameter number, and the
/// model records which function and which parameter it is, with the type the
/// signature gives it.
#[verifier::external_body]
pub(crate) fn nth_param<'ctx>(module: &mut ModuleHandle<'ctx>, function: usize, n: u32) -> (p: Option<usize>)
    requires
        function < old(module).model().functions.len(),
        n < u32::MAX,
    ensures
        p is Some <==> n < old(module).model().functions[function as int].params.len(),
        p matches Some(v) ==> v == old(module).model().params.len()
            && final(module).model() == old(module).model().param_fetched(function as nat, n as nat),
        p is None ==> final(module).model() == old(module).model(),
{
    let value = module.functions[function].get_nth_param(n)?;
    module.params.push(value);
    module.model = Ghost(module.model@.param_fetched(function as nat, n as nat));
    Some(module.params.len() - 1)
}

/// `Builder::build_alloca`: a stack slot of the given type and name at the
/// builder's position, which gets the next slot number and whose address is
/// handed back; an error exactly when the builder has no position.
#[verifier::external_body]
pub(crate) fn build_alloca<'ctx>(module: &mut ModuleHandle<'ctx>, ty: &TypeHandle<'ctx>, name: &str) -> (r: Result<(usize, PointerValue<'ctx>), BuilderError>)
    requires
        old(module).model().has_builder,
    ensures
        r is Ok <==> old(module).model().positioned,
        r matches Ok(s) ==> s.0 == old(module).model().slots.len()
            && final(module).model() == old(module).model().slot_made(name@, ty.model()),
        r is Err ==> final(module).model() == old(module).model(),
{
    let ptr = module.builder.as_ref().unwrap().build_alloca(ty.handle, name)?;
    module.slots.push(ptr);
    module.model = Ghost(module.model@.slot_made(name@, ty.model@));
    Ok((module.slots.len() - 1, ptr))
}

/// `Builder::build_store`: stores fetched parameter number `param` into slot
/// number `slot`, whose type it has, at the builder's position; an error
/// exactly when the builder has no position. The instruction itself is not
/// handed back.
#[verifier::external_body]
pub(crate) fn build_store<'ctx>(module: &mut ModuleHandle<'ctx>, slot: usize, param: usize) -> (r: Result<(), BuilderError>)
    requires
        old(module).model().has_builder,
        slot < old(module).model().slots.len(),
        param < old(module).model().params.len(),
        old(module).model().params[param as int].2 == old(module).model().slots[slot as int],
    ensures
        r is Ok <==> old(module).model().positioned,
        r is Ok ==> final(module).model() == old(module).model().param_stored(slot as nat, param as nat),
        r is Err ==> final(module).model() == old(module).model(),
{
    module.builder.as_ref().unwrap().build_store(module.slots[slot], module.params[param])?;
    module.model = Ghost(module.model@.param_stored(slot as nat, param as nat));
    Ok(())
}

/// `Builder::build_return` with no value: a `ret void` at the builder's
/// position; an error exactly when the builder has no position. The
/// instruction itself is not handed back.
#[verifier::external_body]
pub(crate) fn build_return_void<'ctx>(module: &mut ModuleHandle<'ctx>) -> (r: Result<(), BuilderError>)
    requires
        old(module).model().has_builder,
    ensures
        r is Ok <==> old(module).model().positioned,
        r is Ok ==> final(module).model() == old(module).model().returned_void(),
        r is Err ==> final(module).model() == old(module).model(),
{
    module.builder.as_ref().unwrap().build_return(None)?;
    module.model = Ghost(module.model@.returned_void());
    Ok(())
}

/// `Module::print_to_string`: the module's textual IR, which is a function of
/// the steps that built it.
#[verifier::external_body]
pub(crate) fn module_ir_text<'ctx>(module: &ModuleHandle<'ctx>) -> (s: String)
    ensures
        s@ == module_ir(module@),
{
    module.module.print_to_string().to_string()
}

}
