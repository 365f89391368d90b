//! Instruction encoding for an RV64 back end: a register and operand model,
//! the R-format opcode catalog, and the R-format encoder that packs an
//! instruction's fields into one 32-bit machine word.

pub mod inst;
pub mod opnd;
