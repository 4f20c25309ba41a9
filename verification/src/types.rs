use vstd::prelude::*;
use vstd::hash_map::StringHashMap;

use crate::ast::Type;
use crate::llvm_type::{BasicTy, LlvmType, fits};

verus! {

/// The struct table seen through the models of its types.
pub open spec fn struct_models(m: Map<Seq<char>, BasicTy>) -> Map<Seq<char>, LlvmType> {
    m.map_values(|t: BasicTy| t.model())
}

/// A result of a type conversion seen through models.
pub open spec fn result_model(r: Result<BasicTy, String>) -> Result<LlvmType, Seq<char>> {
    match r {
        Ok(t) => Ok(t.model()),
        Err(e) => Err(e@),
    }
}

pub open spec fn i64_ty() -> LlvmType {
    LlvmType::Int { bits: 64 }
}

pub open spec fn i8_ty() -> LlvmType {
    LlvmType::Int { bits: 8 }
}

pub open spec fn bool_ty() -> LlvmType {
    LlvmType::Int { bits: 1 }
}

/// `i8*`, the type of strings and of function values.
pub open spec fn i8_ptr_ty() -> LlvmType {
    LlvmType::Pointer(Box::new(i8_ty()))
}

/// The LLVM type of a primitive type name, or the error for it.
pub open spec fn primitive_type(name: Seq<char>) -> Result<LlvmType, Seq<char>> {
    if name == "int"@ {
        Ok(i64_ty())
    } else if name == "float"@ {
        Ok(LlvmType::Double)
    } else if name == "bool"@ {
        Ok(bool_ty())
    } else if name == "char"@ {
        Ok(i8_ty())
    } else if name == "string"@ {
        Ok(i8_ptr_ty())
    } else if name == "void"@ {
        Err("void is not a basic type"@)
    } else {
        Err("Unknown primitive type: "@ + name)
    }
}

/// The LLVM type of a source type, given the struct types declared so far,
/// or the message of the first error met.
pub open spec fn type_desc(structs: Map<Seq<char>, LlvmType>, ty: Type) -> Result<LlvmType, Seq<char>>
    decreases ty,
{
    match ty {
        Type::Primitive(name) => primitive_type(name@),
        Type::Array(inner) => match type_desc(structs, *inner) {
            Ok(t) => Ok(LlvmType::Pointer(Box::new(t))),
            Err(e) => Err(e),
        },
        Type::Custom(name) => if structs.contains_key(name@) {
            Ok(structs[name@])
        } else {
            Err("Unknown custom type: "@ + name@)
        },
        Type::Function(_) => Ok(i8_ptr_ty()),
    }
}

/// Whether a source type is `void`.
pub open spec fn is_void(ty: Type) -> bool {
    ty matches Type::Primitive(name) && name@ == "void"@
}

fn primitive_basic_type(name: &String) -> (r: Result<BasicTy, String>)
    ensures
        result_model(r) == primitive_type(name@),
{
    if *name == String::from_str("int") {
        Ok(BasicTy::I64)
    } else if *name == String::from_str("float") {
        Ok(BasicTy::Double)
    } else if *name == String::from_str("bool") {
        Ok(BasicTy::Bool)
    } else if *name == String::from_str("char") {
        Ok(BasicTy::I8)
    } else if *name == String::from_str("string") {
        assert(BasicTy::I8.model() == i8_ty());
        Ok(BasicTy::Pointer(Box::new(BasicTy::I8)))
    } else if *name == String::from_str("void") {
        Err(String::from_str("void is not a basic type"))
    } else {
        Err(String::from_str("Unknown primitive type: ").concat(name.as_str()))
    }
}

/// Converts a source type into an LLVM basic type, looking custom types up
/// in `structs`.
pub fn describe_type(structs: &StringHashMap<BasicTy>, ty: &Type) -> (r: Result<BasicTy, String>)
    ensures
        result_model(r) == type_desc(struct_models(structs@), *ty),
    decreases ty,
{
    match ty {
        Type::Primitive(name) => primitive_basic_type(name),
        Type::Array(inner) => match describe_type(structs, inner) {
            Ok(t) => Ok(BasicTy::Pointer(Box::new(t))),
            Err(e) => Err(e),
        },
        Type::Custom(name) => match structs.get(name.as_str()) {
            Some(t) => Ok(t.duplicate()),
            None => Err(String::from_str("Unknown custom type: ").concat(name.as_str())),
        },
        Type::Function(_) => {
            assert(BasicTy::I8.model() == i8_ty());
            Ok(BasicTy::Pointer(Box::new(BasicTy::I8)))
        },
    }
}

/// The models of a sequence of types.
pub open spec fn models(v: Seq<BasicTy>) -> Seq<LlvmType> {
    v.map_values(|t: BasicTy| t.model())
}

/// A result of converting a list of types, seen through models.
pub open spec fn results_model(r: Result<Vec<BasicTy>, String>) -> Result<Seq<LlvmType>, Seq<char>> {
    match r {
        Ok(v) => Ok(models(v@)),
        Err(e) => Err(e@),
    }
}

/// The LLVM types of a sequence of source types, converted in order, or the
/// message of the first error met.
pub open spec fn convert_all(structs: Map<Seq<char>, LlvmType>, tys: Seq<Type>) -> Result<Seq<LlvmType>, Seq<char>>
    decreases tys.len(),
{
    if tys.len() == 0 {
        Ok(Seq::empty())
    } else {
        match convert_all(structs, tys.drop_last()) {
            Err(e) => Err(e),
            Ok(prefix) => match type_desc(structs, tys.last()) {
                Ok(t) => Ok(prefix.push(t)),
                Err(e) => Err(e),
            },
        }
    }
}

/// The types of a list of named, typed items.
pub open spec fn types_of(items: Seq<(String, Type)>) -> Seq<Type> {
    items.map_values(|item: (String, Type)| item.1)
}

/// Converts the types of a list of named, typed items in order; stops at the
/// first that fails.
pub fn describe_all(structs: &StringHashMap<BasicTy>, items: &Vec<(String, Type)>) -> (r: Result<Vec<BasicTy>, String>)
    ensures
        results_model(r) == convert_all(struct_models(structs@), types_of(items@)),
{
    let ghost m = struct_models(structs@);
    let ghost tys = types_of(items@);
    let mut out: Vec<BasicTy> = Vec::new();
    let mut i: usize = 0;
    assert(tys.take(0) =~= Seq::<Type>::empty());
    assert(models(out@) =~= Seq::<LlvmType>::empty());
    while i < items.len()
        invariant
            i <= items.len(),
            m == struct_models(structs@),
            tys == types_of(items@),
            tys.len() == items.len(),
            convert_all(m, tys.take(i as int)) == Ok::<Seq<LlvmType>, Seq<char>>(models(out@)),
        decreases items.len() - i,
    {
        assert(tys.take(i + 1).drop_last() =~= tys.take(i as int));
        assert(tys.take(i + 1).last() == items@[i as int].1);
        match describe_type(structs, &items[i].1) {
            Ok(t) => {
                let ghost before = out@;
                out.push(t);
                assert(models(out@) =~= models(before).push(t.model()));
            },
            Err(e) => {
                proof { lemma_convert_all_prefix_err(m, tys, i as int + 1); }
                return Err(e);
            },
        }
        i = i + 1;
    }
    assert(tys.take(i as int) =~= tys);
    Ok(out)
}

/// Once a prefix of a type list fails to convert, the whole list fails with
/// the same message.
pub proof fn lemma_convert_all_prefix_err(structs: Map<Seq<char>, LlvmType>, tys: Seq<Type>, k: int)
    requires
        0 <= k <= tys.len(),
        convert_all(structs, tys.take(k)) is Err,
    ensures
        convert_all(structs, tys) == convert_all(structs, tys.take(k)),
    decreases tys.len() - k,
{
    if k < tys.len() {
        assert(tys.take(k + 1).drop_last() =~= tys.take(k));
        lemma_convert_all_prefix_err(structs, tys, k + 1);
    } else {
        assert(tys.take(k) =~= tys);
    }
}

/// A struct of basic types stands for the struct of their models.
pub proof fn lemma_struct_model(fields: Vec<BasicTy>)
    ensures
        BasicTy::Struct(fields).model() == LlvmType::Struct(models(fields@)),
{
    let s = BasicTy::Struct(fields);
    assert(s.model()->Struct_0 =~= models(fields@));
}

/// A successful conversion gives one type per source type.
pub proof fn lemma_convert_all_len(structs: Map<Seq<char>, LlvmType>, tys: Seq<Type>)
    requires
        convert_all(structs, tys) is Ok,
    ensures
        convert_all(structs, tys)->Ok_0.len() == tys.len(),
    decreases tys.len(),
{
    if tys.len() > 0 {
        lemma_convert_all_len(structs, tys.drop_last());
    }
}

/// Whether every struct type in a table fits LLVM's field count.
pub open spec fn table_fits(structs: Map<Seq<char>, LlvmType>) -> bool {
    forall|k: Seq<char>| structs.contains_key(k) ==> #[trigger] fits(structs[k])
}

/// Over a table whose struct types fit, every converted type fits.
pub proof fn lemma_type_desc_fits(structs: Map<Seq<char>, LlvmType>, ty: Type)
    requires
        table_fits(structs),
        type_desc(structs, ty) is Ok,
    ensures
        fits(type_desc(structs, ty)->Ok_0),
    decreases ty,
{
    assert(fits(i8_ty()));
    match ty {
        Type::Array(inner) => lemma_type_desc_fits(structs, *inner),
        Type::Custom(n) => {
            assert(fits(structs[n@]));
        },
        _ => {},
    }
}

/// Over a table whose struct types fit, every type of a converted list fits.
pub proof fn lemma_convert_all_fits(structs: Map<Seq<char>, LlvmType>, tys: Seq<Type>)
    requires
        table_fits(structs),
        convert_all(structs, tys) is Ok,
    ensures
        forall|i: int| 0 <= i < convert_all(structs, tys)->Ok_0.len() ==> #[trigger] fits(convert_all(structs, tys)->Ok_0[i]),
    decreases tys.len(),
{
    if tys.len() > 0 {
        lemma_convert_all_fits(structs, tys.drop_last());
        lemma_type_desc_fits(structs, tys.last());
    }
}

}
