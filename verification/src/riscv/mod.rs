pub mod rv64imfd_reg;
pub mod rv_reg;
pub mod rv_imm;
pub mod rv_instr;
pub mod rv64imfd;
