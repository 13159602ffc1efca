pub mod text;
pub mod parser;
pub mod lexer;
pub mod ast;
pub mod input;
