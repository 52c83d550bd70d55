pub mod alu;
pub mod cpu;
pub mod instruction;
pub mod registers;
pub mod state;
pub mod status;
