pub mod token;
pub mod lexer;
pub mod keywords;
pub mod order;
