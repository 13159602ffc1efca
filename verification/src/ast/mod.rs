pub mod ast;
pub mod ast_build;
