pub mod grammar;
pub mod indexed;
pub mod first_sets;
pub mod items;
pub mod table;
pub mod lr1;
pub mod tokens_kept;
pub mod symbols;
