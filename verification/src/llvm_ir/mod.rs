pub mod basicblock;
pub mod constant;
pub mod function;
pub mod instruction;
pub mod module;
pub mod name;
pub mod operand;
pub mod terminator;
pub mod types;
