pub mod basicblock;
pub mod instruction;
pub mod label;
pub mod location;
pub mod program;
