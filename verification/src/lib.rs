pub mod ast;
pub mod codegen;
pub mod llvm;
pub mod llvm_type;
pub mod types;
pub mod laws;
