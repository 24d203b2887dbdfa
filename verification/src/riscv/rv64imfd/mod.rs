pub mod rv64imfd_imm;
