// The opcode and function-code values of the supported encodings: one
// constant for each value, shared by every operation that carries it.

use vstd::prelude::*;

verus! {

// Opcodes, bits [6:0] of an instruction word.
pub const OPCODE_LUI: u8 = 0b0110111;

pub const OPCODE_AUIPC: u8 = 0b0010111;

pub const OPCODE_JAL: u8 = 0b1101111;

pub const OPCODE_JALR: u8 = 0b1100111;

/// Every conditional branch.
pub const OPCODE_BRANCH: u8 = 0b1100011;

/// Every load.
pub const OPCODE_LOAD: u8 = 0b0000011;

/// Every store.
pub const OPCODE_STORE: u8 = 0b0100011;

/// Every operation on a register and an immediate.
pub const OPCODE_OP_IMM: u8 = 0b0010011;

/// Every operation on two registers.
pub const OPCODE_OP: u8 = 0b0110011;

// Function codes of the arithmetic and logical operations, bits [14:12].
/// Addition and, with the alternate upper function code, subtraction.
pub const FUNCT3_ADD: u8 = 0b000;

pub const FUNCT3_SLL: u8 = 0b001;

pub const FUNCT3_SLT: u8 = 0b010;

pub const FUNCT3_SLTU: u8 = 0b011;

pub const FUNCT3_XOR: u8 = 0b100;

/// The logical right shift and, with the alternate upper function code, the
/// arithmetic one.
pub const FUNCT3_SRL: u8 = 0b101;

pub const FUNCT3_OR: u8 = 0b110;

pub const FUNCT3_AND: u8 = 0b111;

// Upper function codes, bits [31:25].
pub const FUNCT7_BASE: u8 = 0b0000000;

/// Selects subtraction and the arithmetic right shift.
pub const FUNCT7_ALT: u8 = 0b0100000;

// Function codes of the branches.
pub const FUNCT3_BEQ: u8 = 0b000;

pub const FUNCT3_BNE: u8 = 0b001;

pub const FUNCT3_BLT: u8 = 0b100;

pub const FUNCT3_BGE: u8 = 0b101;

pub const FUNCT3_BLTU: u8 = 0b110;

pub const FUNCT3_BGEU: u8 = 0b111;

// Function codes of the loads.
pub const FUNCT3_LB: u8 = 0b000;

pub const FUNCT3_LH: u8 = 0b001;

pub const FUNCT3_LW: u8 = 0b010;

pub const FUNCT3_LBU: u8 = 0b100;

pub const FUNCT3_LHU: u8 = 0b101;

// Function codes of the stores.
pub const FUNCT3_SB: u8 = 0b000;

pub const FUNCT3_SH: u8 = 0b001;

pub const FUNCT3_SW: u8 = 0b010;

} // verus!
