use vstd::prelude::*;

verus! {

/// A type as written in a source program.
#[derive(Debug, PartialEq, Eq)]
pub enum Type {
    /// A built-in type named by a word: `int`, `float`, `bool`, `char`,
    /// `string` or `void`; any other word is not a known type.
    Primitive(String),
    /// An array of the inner type.
    Array(Box<Type>),
    /// A struct type declared in the program, named.
    Custom(String),
    /// The type of a function value.
    Function(Box<FunctionSig>),
}

/// The parameter types and the return type of a function type.
#[derive(Debug, PartialEq, Eq)]
pub struct FunctionSig {
    pub params: Vec<Type>,
    pub return_type: Type,
}

/// A struct declaration: its name and its named, typed fields in order.
#[derive(Debug, PartialEq, Eq)]
pub struct StructDef {
    pub name: String,
    pub fields: Vec<(String, Type)>,
}

/// A function declaration: its name, its named, typed parameters in order,
/// and its return type.
#[derive(Debug, PartialEq, Eq)]
pub struct Function {
    pub name: String,
    pub params: Vec<(String, Type)>,
    pub return_type: Type,
}

/// A global variable declaration: its name and its type.
#[derive(Debug, PartialEq, Eq)]
pub struct VarDecl {
    pub name: String,
    pub ty: Type,
}

/// A top-level declaration.
#[derive(Debug, PartialEq, Eq)]
pub enum Declaration {
    Struct(StructDef),
    Function(Function),
    Var(VarDecl),
}

/// A program: its top-level declarations in source order.
#[derive(Debug, PartialEq, Eq)]
pub struct Program {
    pub declarations: Vec<Declaration>,
}

}
