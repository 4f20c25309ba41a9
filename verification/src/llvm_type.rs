use vstd::prelude::*;

verus! {

/// The mathematical model of an LLVM first-class ("basic") type in a context
/// with typed pointers: integers of a bit width, the 64-bit float, a pointer to
/// a pointee type (in the default address space), and a literal (unnamed,
/// unpacked) struct given by its field types.
pub enum LlvmType {
    Int { bits: nat },
    Double,
    Pointer(Box<LlvmType>),
    Struct(Seq<LlvmType>),
}

/// Whether every struct within a type has at most `u32::MAX` fields, the
/// most LLVM can count.
pub open spec fn fits(t: LlvmType) -> bool
    decreases t,
{
    match t {
        LlvmType::Pointer(inner) => fits(*inner),
        LlvmType::Struct(fields) => fields.len() <= u32::MAX && forall|i: int|
            0 <= i < fields.len() ==> fits(#[trigger] fields[i]),
        _ => true,
    }
}

/// An LLVM basic type held as plain values: `i1`, `i8`, `i64`, `double`, a
/// pointer to a basic type, or a literal struct of basic types.
#[derive(Debug, PartialEq, Eq)]
pub enum BasicTy {
    Bool,
    I8,
    I64,
    Double,
    Pointer(Box<BasicTy>),
    Struct(Vec<BasicTy>),
}

impl BasicTy {
    /// The type this value stands for.
    pub open spec fn model(self) -> LlvmType
        decreases self,
    {
        match self {
            BasicTy::Bool => LlvmType::Int { bits: 1 },
            BasicTy::I8 => LlvmType::Int { bits: 8 },
            BasicTy::I64 => LlvmType::Int { bits: 64 },
            BasicTy::Double => LlvmType::Double,
            BasicTy::Pointer(inner) => LlvmType::Pointer(Box::new(inner.model())),
            BasicTy::Struct(fields) => LlvmType::Struct(
                Seq::new(
                    fields.len() as nat,
                    |i: int|
                        if 0 <= i < fields.len() {
                            fields[i].model()
                        } else {
                            LlvmType::Double
                        },
                ),
            ),
        }
    }
}

impl BasicTy {
    /// A copy of this type.
    pub fn duplicate(&self) -> (r: BasicTy)
        ensures
            r.model() == self.model(),
        decreases self,
    {
        match self {
            BasicTy::Bool => BasicTy::Bool,
            BasicTy::I8 => BasicTy::I8,
            BasicTy::I64 => BasicTy::I64,
            BasicTy::Double => BasicTy::Double,
            BasicTy::Pointer(inner) => BasicTy::Pointer(Box::new(inner.duplicate())),
            BasicTy::Struct(fields) => {
                let mut copied: Vec<BasicTy> = Vec::new();
                let mut i: usize = 0;
                while i < fields.len()
                    invariant
                        i <= fields.len(),
                        *self == BasicTy::Struct(*fields),
                        copied.len() == i,
                        forall|j: int| 0 <= j < i ==> #[trigger] copied[j].model() == fields[j].model(),
                    decreases fields.len() - i,
                {
                    proof {
                        broadcast use vstd::std_specs::vec::axiom_vec_index_decreases;
                        assert(decreases_to!(*self => self->Struct_0));
                        assert(decreases_to!(*fields => fields[i as int]));
                    }
                    let c = fields[i].duplicate();
                    copied.push(c);
                    i = i + 1;
                }
                let r = BasicTy::Struct(copied);
                assert forall|j: int| 0 <= j < copied.len() implies r.model()->Struct_0[j] == copied[j].model() by {}
                assert forall|j: int| 0 <= j < copied.len() implies self.model()->Struct_0[j] == fields[j].model() by {}
                assert(r.model()->Struct_0 =~= self.model()->Struct_0);
                r
            },
        }
    }
}

}
