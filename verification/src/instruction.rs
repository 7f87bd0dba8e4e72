// Instruction words: their fields, the six encoding shapes, and the
// operations that the shapes resolve to.

use vstd::prelude::*;
use vstd::arithmetic::power2::{lemma2_to64, lemma_pow2_strictly_increases, lemma_pow2_unfold, pow2};
use vstd::bits::{lemma_u64_low_bits_mask_is_mod, lemma_u64_pow2_no_overflow, lemma_u64_shl_is_mul};
use crate::opcode::{
    FUNCT3_ADD, FUNCT3_AND, FUNCT3_BEQ, FUNCT3_BGE, FUNCT3_BGEU, FUNCT3_BLT, FUNCT3_BLTU,
    FUNCT3_BNE, FUNCT3_LB, FUNCT3_LBU, FUNCT3_LH, FUNCT3_LHU, FUNCT3_LW, FUNCT3_OR, FUNCT3_SB,
    FUNCT3_SH, FUNCT3_SLL, FUNCT3_SLT, FUNCT3_SLTU, FUNCT3_SRL, FUNCT3_SW, FUNCT3_XOR, FUNCT7_ALT,
    FUNCT7_BASE, OPCODE_AUIPC, OPCODE_BRANCH, OPCODE_JAL, OPCODE_JALR, OPCODE_LOAD, OPCODE_LUI,
    OPCODE_OP, OPCODE_OP_IMM, OPCODE_STORE,
};
use crate::word::{
    as_signed, lemma_twos_complement_even, lemma_twos_complement_full, to_signed, to_unsigned,
    twos_complement,
};

verus! {

// Where each field lies in a word: the mask that selects its bits and the
// position of its lowest bit.
const MASK_OPCODE: u32 = 0x0000_007f;

const MASK_RD: u32 = 0x0000_0f80;

const MASK_FUNCT3: u32 = 0x0000_7000;

const MASK_RS1: u32 = 0x000f_8000;

const MASK_RS2: u32 = 0x01f0_0000;

const MASK_FUNCT7: u32 = 0xfe00_0000;

const MASK_IMM_I: u32 = 0xfff0_0000;

const MASK_IMM_S_HIGH: u32 = 0xfe00_0000;

const MASK_IMM_S_LOW: u32 = 0x0000_0f80;

const MASK_IMM_B_SIGN: u32 = 0x8000_0000;

const MASK_IMM_B_BIT11: u32 = 0x0000_0080;

const MASK_IMM_B_HIGH: u32 = 0x7e00_0000;

const MASK_IMM_B_LOW: u32 = 0x0000_0f00;

const MASK_IMM_U: u32 = 0xffff_f000;

const MASK_IMM_J_SIGN: u32 = 0x8000_0000;

const MASK_IMM_J_HIGH: u32 = 0x000f_f000;

const MASK_IMM_J_BIT11: u32 = 0x0010_0000;

const MASK_IMM_J_LOW: u32 = 0x7fe0_0000;

const SHIFT_OPCODE: u32 = 0;

const SHIFT_RD: u32 = 7;

const SHIFT_FUNCT3: u32 = 12;

const SHIFT_RS1: u32 = 15;

const SHIFT_RS2: u32 = 20;

const SHIFT_FUNCT7: u32 = 25;

const SHIFT_IMM_I: u32 = 20;

const SHIFT_IMM_S_HIGH: u32 = 25;

const SHIFT_IMM_S_LOW: u32 = 7;

const SHIFT_IMM_B_SIGN: u32 = 31;

const SHIFT_IMM_B_BIT11: u32 = 7;

const SHIFT_IMM_B_HIGH: u32 = 25;

const SHIFT_IMM_B_LOW: u32 = 8;

const SHIFT_IMM_U: u32 = 12;

const SHIFT_IMM_J_SIGN: u32 = 31;

const SHIFT_IMM_J_HIGH: u32 = 12;

const SHIFT_IMM_J_BIT11: u32 = 20;

const SHIFT_IMM_J_LOW: u32 = 21;

/// The fields of the register-register shape.
#[derive(Debug, Clone, Copy, PartialEq, Eq)]
pub struct RTypeInstruction {
    pub opcode: u8,
    pub rd: u8,
    pub funct3: u8,
    pub rs1: u8,
    pub rs2: u8,
    pub funct7: u8,
}

/// The fields of the register-immediate shape, which loads and the register
/// jump share.
#[derive(Debug, Clone, Copy, PartialEq, Eq)]
pub struct ITypeInstruction {
    pub opcode: u8,
    pub rd: u8,
    pub funct3: u8,
    pub rs1: u8,
    pub imm: i32,
}

/// The fields of the store shape.
#[derive(Debug, Clone, Copy, PartialEq, Eq)]
pub struct STypeInstruction {
    pub opcode: u8,
    pub funct3: u8,
    pub rs1: u8,
    pub rs2: u8,
    pub imm: i32,
}

/// The fields of the branch shape.
#[derive(Debug, Clone, Copy, PartialEq, Eq)]
pub struct BTypeInstruction {
    pub opcode: u8,
    pub funct3: u8,
    pub rs1: u8,
    pub rs2: u8,
    pub imm: i32,
}

/// The fields of the upper-immediate shape.
#[derive(Debug, Clone, Copy, PartialEq, Eq)]
pub struct UTypeInstruction {
    pub opcode: u8,
    pub rd: u8,
    pub imm: i32,
}

/// The fields of the jump shape.
#[derive(Debug, Clone, Copy, PartialEq, Eq)]
pub struct JTypeInstruction {
    pub opcode: u8,
    pub rd: u8,
    pub imm: i32,
}

impl RTypeInstruction {
    /// Every field fits the bits that the encoding gives it.
    pub open spec fn wf(&self) -> bool {
        &&& self.rd < 32
        &&& self.funct3 < 8
        &&& self.rs1 < 32
        &&& self.rs2 < 32
        &&& self.funct7 < 128
    }
}

impl ITypeInstruction {
    /// Every field fits the bits that the encoding gives it.
    pub open spec fn wf(&self) -> bool {
        &&& self.rd < 32
        &&& self.funct3 < 8
        &&& self.rs1 < 32
    }
}

impl STypeInstruction {
    /// Every field fits the bits that the encoding gives it.
    pub open spec fn wf(&self) -> bool {
        &&& self.funct3 < 8
        &&& self.rs1 < 32
        &&& self.rs2 < 32
    }
}

impl BTypeInstruction {
    /// Every field fits the bits that the encoding gives it, and the
    /// displacement is even.
    pub open spec fn wf(&self) -> bool {
        &&& self.funct3 < 8
        &&& self.rs1 < 32
        &&& self.rs2 < 32
        &&& self.imm as int % 2 == 0
    }
}

impl UTypeInstruction {
    /// The register index fits the bits that the encoding gives it.
    pub open spec fn wf(&self) -> bool {
        self.rd < 32
    }
}

impl JTypeInstruction {
    /// The register index fits the bits that the encoding gives it, and the
    /// displacement is even.
    pub open spec fn wf(&self) -> bool {
        &&& self.rd < 32
        &&& self.imm as int % 2 == 0
    }
}

/// An instruction word sorted by its opcode into one of the six shapes, with
/// the fields of that shape.
#[derive(Debug, Clone, Copy, PartialEq, Eq)]
pub enum BaseInstruction {
    RType(RTypeInstruction),
    IType(ITypeInstruction),
    SType(STypeInstruction),
    BType(BTypeInstruction),
    UType(UTypeInstruction),
    JType(JTypeInstruction),
}

impl BaseInstruction {
    /// The fields satisfy the invariant of their shape.
    pub open spec fn wf(&self) -> bool {
        match *self {
            BaseInstruction::RType(r) => r.wf(),
            BaseInstruction::IType(i) => i.wf(),
            BaseInstruction::SType(s) => s.wf(),
            BaseInstruction::BType(b) => b.wf(),
            BaseInstruction::UType(u) => u.wf(),
            BaseInstruction::JType(j) => j.wf(),
        }
    }
}

/// A fully named operation with the fields of its shape, or `Unknown` where
/// the function codes of a shape name no operation.
#[derive(Debug, Clone, Copy, PartialEq, Eq)]
pub enum Instruction {
    // Operations on two registers.
    Add(RTypeInstruction),
    Sub(RTypeInstruction),
    Sll(RTypeInstruction),
    Slt(RTypeInstruction),
    Sltu(RTypeInstruction),
    Xor(RTypeInstruction),
    Srl(RTypeInstruction),
    Sra(RTypeInstruction),
    Or(RTypeInstruction),
    And(RTypeInstruction),
    // Operations on a register and an immediate.
    Addi(ITypeInstruction),
    Slti(ITypeInstruction),
    Sltiu(ITypeInstruction),
    Xori(ITypeInstruction),
    Ori(ITypeInstruction),
    Andi(ITypeInstruction),
    Slli(ITypeInstruction),
    Srli(ITypeInstruction),
    Srai(ITypeInstruction),
    // Loads.
    Lb(ITypeInstruction),
    Lh(ITypeInstruction),
    Lw(ITypeInstruction),
    Lbu(ITypeInstruction),
    Lhu(ITypeInstruction),
    // The jump through a register.
    Jalr(ITypeInstruction),
    // Stores.
    Sb(STypeInstruction),
    Sh(STypeInstruction),
    Sw(STypeInstruction),
    // Branches.
    Beq(BTypeInstruction),
    Bne(BTypeInstruction),
    Blt(BTypeInstruction),
    Bge(BTypeInstruction),
    Bltu(BTypeInstruction),
    Bgeu(BTypeInstruction),
    // Upper immediates.
    Lui(UTypeInstruction),
    Auipc(UTypeInstruction),
    // The jump.
    Jal(JTypeInstruction),
    /// No operation is defined for the function codes.
    Unknown,
}

impl Instruction {
    /// The fields satisfy the invariant of their shape.
    pub open spec fn wf(&self) -> bool {
        match *self {
            Instruction::Add(r)
            | Instruction::Sub(r)
            | Instruction::Sll(r)
            | Instruction::Slt(r)
            | Instruction::Sltu(r)
            | Instruction::Xor(r)
            | Instruction::Srl(r)
            | Instruction::Sra(r)
            | Instruction::Or(r)
            | Instruction::And(r) => r.wf(),
            Instruction::Addi(i)
            | Instruction::Slti(i)
            | Instruction::Sltiu(i)
            | Instruction::Xori(i)
            | Instruction::Ori(i)
            | Instruction::Andi(i)
            | Instruction::Slli(i)
            | Instruction::Srli(i)
            | Instruction::Srai(i)
            | Instruction::Lb(i)
            | Instruction::Lh(i)
            | Instruction::Lw(i)
            | Instruction::Lbu(i)
            | Instruction::Lhu(i)
            | Instruction::Jalr(i) => i.wf(),
            Instruction::Sb(s) | Instruction::Sh(s) | Instruction::Sw(s) => s.wf(),
            Instruction::Beq(b)
            | Instruction::Bne(b)
            | Instruction::Blt(b)
            | Instruction::Bge(b)
            | Instruction::Bltu(b)
            | Instruction::Bgeu(b) => b.wf(),
            Instruction::Lui(u) | Instruction::Auipc(u) => u.wf(),
            Instruction::Jal(j) => j.wf(),
            Instruction::Unknown => true,
        }
    }
}

/// A word whose opcode names none of the supported encodings.
#[derive(Debug, Clone, Copy, PartialEq, Eq)]
pub struct UnsupportedOpcode {
    pub opcode: u8,
}

/// The `width` bits of `word` that start at bit `low`, as a number.
pub open spec fn bit_field(word: u32, low: nat, width: nat) -> int {
    (word as int / (pow2(low) as int)) % (pow2(width) as int)
}

/// Bits [6:0].
pub open spec fn opcode_of(word: u32) -> int {
    bit_field(word, 0, 7)
}

/// Bits [11:7].
pub open spec fn rd_of(word: u32) -> int {
    bit_field(word, 7, 5)
}

/// Bits [14:12].
pub open spec fn funct3_of(word: u32) -> int {
    bit_field(word, 12, 3)
}

/// Bits [19:15].
pub open spec fn rs1_of(word: u32) -> int {
    bit_field(word, 15, 5)
}

/// Bits [24:20].
pub open spec fn rs2_of(word: u32) -> int {
    bit_field(word, 20, 5)
}

/// Bits [31:25].
pub open spec fn funct7_of(word: u32) -> int {
    bit_field(word, 25, 7)
}

/// The immediate of the register-immediate shape: bits [31:20], read as a
/// signed number of 12 bits.
pub open spec fn imm_i_of(word: u32) -> int {
    twos_complement(bit_field(word, 20, 12), 12)
}

/// The immediate of the store shape: bits [31:25] above bits [11:7], read as
/// a signed number of 12 bits.
pub open spec fn imm_s_of(word: u32) -> int {
    twos_complement(0x20 * bit_field(word, 25, 7) + bit_field(word, 7, 5), 12)
}

/// The immediate of the branch shape: bit 31, bit 7, bits [30:25] and bits
/// [11:8], in that order from the top, above a zero bit, read as a signed
/// number of 13 bits.
pub open spec fn imm_b_of(word: u32) -> int {
    twos_complement(
        0x1000 * bit_field(word, 31, 1) + 0x800 * bit_field(word, 7, 1)
            + 0x20 * bit_field(word, 25, 6) + 2 * bit_field(word, 8, 4),
        13,
    )
}

/// The immediate of the upper-immediate shape: bits [31:12] above twelve zero
/// bits, read as a signed number of 32 bits.
pub open spec fn imm_u_of(word: u32) -> int {
    twos_complement(0x1000 * bit_field(word, 12, 20), 32)
}

/// The immediate of the jump shape: bit 31, bits [19:12], bit 20 and bits
/// [30:21], in that order from the top, above a zero bit, read as a signed
/// number of 21 bits.
pub open spec fn imm_j_of(word: u32) -> int {
    twos_complement(
        0x10_0000 * bit_field(word, 31, 1) + 0x1000 * bit_field(word, 12, 8)
            + 0x800 * bit_field(word, 20, 1) + 2 * bit_field(word, 21, 10),
        21,
    )
}

/// Selects the bits of `instruction` that `mask` names and moves them down by
/// `shift` positions. A shift by 32 positions or more leaves nothing.
pub fn extract_field(instruction: u32, mask: u32, shift: u32) -> (value: u32)
    ensures
        value == (instruction & mask) >> shift,
{
    if shift < 32 {
        (instruction & mask) >> shift
    } else {
        assert(((instruction & mask) >> shift) == 0) by (bit_vector)
            requires
                shift >= 32,
        ;
        0
    }
}

proof fn lemma_sign_extend_bits(value: u32, bits: u32, result: u32)
    by (bit_vector)
    requires
        1 <= bits <= 32,
        result == ((((value << ((32 - bits) as u32)) as i32) >> ((32 - bits) as u32)) as u32),
    ensures
        ({
            let modulus: u64 = 1u64 << (bits as u64);
            let half: u64 = 1u64 << ((bits - 1) as u64);
            let low: u64 = (value as u64) & ((modulus - 1) as u64);
            &&& low < half ==> result == low
            &&& low >= half ==> result == low + 0x1_0000_0000 - modulus
        }),
{
}

proof fn lemma_one_shl_is_pow2(bits: u64)
    requires
        bits < 64,
    ensures
        (1u64 << bits) == pow2(bits as nat),
{
    lemma_u64_pow2_no_overflow(bits as nat);
    lemma_u64_shl_is_mul(1u64, bits);
}

/// Extends the low `bit_width` bits of `value` to a full word by copying the
/// top one of them into every higher position.
pub fn sign_extend(value: u32, bit_width: u8) -> (result: u32)
    requires
        1 <= bit_width <= 32,
    ensures
        as_signed(result) == twos_complement(value as int, bit_width as nat),
{
    let shift: u32 = 32 - bit_width as u32;
    let result: u32 = (((value << shift) as i32) >> shift) as u32;
    proof {
        let bits: u32 = bit_width as u32;
        lemma_sign_extend_bits(value, bits, result);
        lemma_u64_low_bits_mask_is_mod(value as u64, bits as nat);
        lemma_one_shl_is_pow2(bits as u64);
        lemma_one_shl_is_pow2((bits - 1) as u64);
        lemma_pow2_unfold(bits as nat);
        lemma2_to64();
        lemma_pow2_strictly_increases((bits - 1) as nat, 32);
    }
    result
}

/// The shape that the opcode of `word` selects, filled with the fields of
/// `word`; an error that carries the opcode where it selects none.
pub open spec fn classify(word: u32) -> Result<BaseInstruction, UnsupportedOpcode> {
    let opcode = opcode_of(word) as u8;
    let rd = rd_of(word) as u8;
    let funct3 = funct3_of(word) as u8;
    let rs1 = rs1_of(word) as u8;
    let rs2 = rs2_of(word) as u8;
    let funct7 = funct7_of(word) as u8;
    if opcode == OPCODE_LUI || opcode == OPCODE_AUIPC {
        let imm = imm_u_of(word) as i32;
        Ok(BaseInstruction::UType(UTypeInstruction { opcode, rd, imm }))
    } else if opcode == OPCODE_JAL {
        let imm = imm_j_of(word) as i32;
        Ok(BaseInstruction::JType(JTypeInstruction { opcode, rd, imm }))
    } else if opcode == OPCODE_JALR || opcode == OPCODE_LOAD || opcode == OPCODE_OP_IMM {
        let imm = imm_i_of(word) as i32;
        Ok(BaseInstruction::IType(ITypeInstruction { opcode, rd, funct3, rs1, imm }))
    } else if opcode == OPCODE_BRANCH {
        let imm = imm_b_of(word) as i32;
        Ok(BaseInstruction::BType(BTypeInstruction { opcode, funct3, rs1, rs2, imm }))
    } else if opcode == OPCODE_STORE {
        let imm = imm_s_of(word) as i32;
        Ok(BaseInstruction::SType(STypeInstruction { opcode, funct3, rs1, rs2, imm }))
    } else if opcode == OPCODE_OP {
        Ok(BaseInstruction::RType(RTypeInstruction { opcode, rd, funct3, rs1, rs2, funct7 }))
    } else {
        Err(UnsupportedOpcode { opcode })
    }
}

/// What the masks and shifts select, as quotients and remainders.
proof fn lemma_field_bits(word: u32)
    by (bit_vector)
    ensures
        ({
            &&& (word & MASK_OPCODE) >> SHIFT_OPCODE == (word / 0x1) % 0x80
            &&& (word & MASK_RD) >> SHIFT_RD == (word / 0x80) % 0x20
            &&& (word & MASK_FUNCT3) >> SHIFT_FUNCT3 == (word / 0x1000) % 0x8
            &&& (word & MASK_RS1) >> SHIFT_RS1 == (word / 0x8000) % 0x20
            &&& (word & MASK_RS2) >> SHIFT_RS2 == (word / 0x10_0000) % 0x20
            &&& (word & MASK_FUNCT7) >> SHIFT_FUNCT7 == (word / 0x200_0000) % 0x80
        }),
{
}

/// What the pieces of each immediate add up to once they are put in place.
proof fn lemma_immediate_bits(word: u32)
    by (bit_vector)
    ensures
        ({
            &&& (word & MASK_IMM_I) >> SHIFT_IMM_I == (word / 0x10_0000) % 0x1000
            &&& (((word & MASK_IMM_S_HIGH) >> SHIFT_IMM_S_HIGH) << 5)
                | ((word & MASK_IMM_S_LOW) >> SHIFT_IMM_S_LOW)
                == 0x20 * ((word / 0x200_0000) % 0x80) + (word / 0x80) % 0x20
            &&& (((word & MASK_IMM_B_SIGN) >> SHIFT_IMM_B_SIGN) << 12)
                | (((word & MASK_IMM_B_BIT11) >> SHIFT_IMM_B_BIT11) << 11)
                | (((word & MASK_IMM_B_HIGH) >> SHIFT_IMM_B_HIGH) << 5)
                | (((word & MASK_IMM_B_LOW) >> SHIFT_IMM_B_LOW) << 1)
                == 0x1000 * ((word / 0x8000_0000) % 0x2) + 0x800 * ((word / 0x80) % 0x2)
                + 0x20 * ((word / 0x200_0000) % 0x40) + 2 * ((word / 0x100) % 0x10)
            &&& ((word & MASK_IMM_U) >> SHIFT_IMM_U) << 12
                == 0x1000 * ((word / 0x1000) % 0x10_0000)
            &&& (((word & MASK_IMM_J_SIGN) >> SHIFT_IMM_J_SIGN) << 20)
                | (((word & MASK_IMM_J_HIGH) >> SHIFT_IMM_J_HIGH) << 12)
                | (((word & MASK_IMM_J_BIT11) >> SHIFT_IMM_J_BIT11) << 11)
                | (((word & MASK_IMM_J_LOW) >> SHIFT_IMM_J_LOW) << 1)
                == 0x10_0000 * ((word / 0x8000_0000) % 0x2) + 0x1000 * ((word / 0x1000) % 0x100)
                + 0x800 * ((word / 0x10_0000) % 0x2) + 2 * ((word / 0x20_0000) % 0x400)
        }),
{
}

/// Reads the immediate of the register-immediate shape.
fn immediate_i(instruction: u32) -> (imm: i32)
    ensures
        imm == imm_i_of(instruction),
{
    proof {
        lemma_immediate_bits(instruction);
        lemma2_to64();
    }
    let raw: u32 = extract_field(instruction, MASK_IMM_I, SHIFT_IMM_I);
    to_signed(sign_extend(raw, 12))
}

/// Reads the immediate of the store shape.
fn immediate_s(instruction: u32) -> (imm: i32)
    ensures
        imm == imm_s_of(instruction),
{
    proof {
        lemma_immediate_bits(instruction);
        lemma2_to64();
    }
    let raw: u32 = (extract_field(instruction, MASK_IMM_S_HIGH, SHIFT_IMM_S_HIGH) << 5)
        | extract_field(instruction, MASK_IMM_S_LOW, SHIFT_IMM_S_LOW);
    to_signed(sign_extend(raw, 12))
}

/// Reads the immediate of the branch shape.
fn immediate_b(instruction: u32) -> (imm: i32)
    ensures
        imm == imm_b_of(instruction),
        imm as int % 2 == 0,
{
    proof {
        lemma_immediate_bits(instruction);
        lemma2_to64();
    }
    let raw: u32 = (extract_field(instruction, MASK_IMM_B_SIGN, SHIFT_IMM_B_SIGN) << 12)
        | (extract_field(instruction, MASK_IMM_B_BIT11, SHIFT_IMM_B_BIT11) << 11)
        | (extract_field(instruction, MASK_IMM_B_HIGH, SHIFT_IMM_B_HIGH) << 5)
        | (extract_field(instruction, MASK_IMM_B_LOW, SHIFT_IMM_B_LOW) << 1);
    proof {
        lemma_twos_complement_even(raw as int, 13);
    }
    to_signed(sign_extend(raw, 13))
}

/// Reads the immediate of the upper-immediate shape.
fn immediate_u(instruction: u32) -> (imm: i32)
    ensures
        imm == imm_u_of(instruction),
{
    proof {
        lemma_immediate_bits(instruction);
        lemma2_to64();
    }
    let raw: u32 = extract_field(instruction, MASK_IMM_U, SHIFT_IMM_U) << 12;
    proof {
        lemma_twos_complement_full(raw);
    }
    to_signed(raw)
}

/// Reads the immediate of the jump shape.
fn immediate_j(instruction: u32) -> (imm: i32)
    ensures
        imm == imm_j_of(instruction),
        imm as int % 2 == 0,
{
    proof {
        lemma_immediate_bits(instruction);
        lemma2_to64();
    }
    let raw: u32 = (extract_field(instruction, MASK_IMM_J_SIGN, SHIFT_IMM_J_SIGN) << 20)
        | (extract_field(instruction, MASK_IMM_J_HIGH, SHIFT_IMM_J_HIGH) << 12)
        | (extract_field(instruction, MASK_IMM_J_BIT11, SHIFT_IMM_J_BIT11) << 11)
        | (extract_field(instruction, MASK_IMM_J_LOW, SHIFT_IMM_J_LOW) << 1);
    proof {
        lemma_twos_complement_even(raw as int, 21);
    }
    to_signed(sign_extend(raw, 21))
}

impl BaseInstruction {
    /// Sorts an instruction word by its opcode into one of the six shapes and
    /// reads the fields of that shape out of the word. A word whose opcode
    /// names none of them is an error, not a failure.
    pub fn decode_instruction_by_opcode(instruction: u32) -> (result: Result<
        BaseInstruction,
        UnsupportedOpcode,
    >)
        ensures
            result == classify(instruction),
            result matches Ok(base) ==> base.wf(),
    {
        proof {
            lemma_field_bits(instruction);
            lemma2_to64();
        }
        let opcode: u8 = extract_field(instruction, MASK_OPCODE, SHIFT_OPCODE) as u8;
        let funct3: u8 = extract_field(instruction, MASK_FUNCT3, SHIFT_FUNCT3) as u8;
        let funct7: u8 = extract_field(instruction, MASK_FUNCT7, SHIFT_FUNCT7) as u8;
        let rd: u8 = extract_field(instruction, MASK_RD, SHIFT_RD) as u8;
        let rs1: u8 = extract_field(instruction, MASK_RS1, SHIFT_RS1) as u8;
        let rs2: u8 = extract_field(instruction, MASK_RS2, SHIFT_RS2) as u8;
        if opcode == OPCODE_LUI || opcode == OPCODE_AUIPC {
            let imm: i32 = immediate_u(instruction);
            Ok(BaseInstruction::UType(UTypeInstruction { opcode, rd, imm }))
        } else if opcode == OPCODE_JAL {
            let imm: i32 = immediate_j(instruction);
            Ok(BaseInstruction::JType(JTypeInstruction { opcode, rd, imm }))
        } else if opcode == OPCODE_JALR || opcode == OPCODE_LOAD || opcode == OPCODE_OP_IMM {
            let imm: i32 = immediate_i(instruction);
            Ok(BaseInstruction::IType(ITypeInstruction { opcode, rd, funct3, rs1, imm }))
        } else if opcode == OPCODE_BRANCH {
            let imm: i32 = immediate_b(instruction);
            Ok(BaseInstruction::BType(BTypeInstruction { opcode, funct3, rs1, rs2, imm }))
        } else if opcode == OPCODE_STORE {
            let imm: i32 = immediate_s(instruction);
            Ok(BaseInstruction::SType(STypeInstruction { opcode, funct3, rs1, rs2, imm }))
        } else if opcode == OPCODE_OP {
            Ok(BaseInstruction::RType(RTypeInstruction { opcode, rd, funct3, rs1, rs2, funct7 }))
        } else {
            Err(UnsupportedOpcode { opcode })
        }
    }
}

/// Bits [11:5] of an immediate: the upper function code of the word that a
/// register-immediate shape was read from.
pub open spec fn upper_function(imm: i32) -> int {
    (imm as int / 32) % 128
}

/// The operation that the function codes name among the operations on two
/// registers.
pub open spec fn resolve_register(r: RTypeInstruction) -> Instruction {
    if r.funct3 == FUNCT3_ADD && r.funct7 == FUNCT7_BASE {
        Instruction::Add(r)
    } else if r.funct3 == FUNCT3_ADD && r.funct7 == FUNCT7_ALT {
        Instruction::Sub(r)
    } else if r.funct3 == FUNCT3_SLL && r.funct7 == FUNCT7_BASE {
        Instruction::Sll(r)
    } else if r.funct3 == FUNCT3_SLT && r.funct7 == FUNCT7_BASE {
        Instruction::Slt(r)
    } else if r.funct3 == FUNCT3_SLTU && r.funct7 == FUNCT7_BASE {
        Instruction::Sltu(r)
    } else if r.funct3 == FUNCT3_XOR && r.funct7 == FUNCT7_BASE {
        Instruction::Xor(r)
    } else if r.funct3 == FUNCT3_SRL && r.funct7 == FUNCT7_BASE {
        Instruction::Srl(r)
    } else if r.funct3 == FUNCT3_SRL && r.funct7 == FUNCT7_ALT {
        Instruction::Sra(r)
    } else if r.funct3 == FUNCT3_OR && r.funct7 == FUNCT7_BASE {
        Instruction::Or(r)
    } else if r.funct3 == FUNCT3_AND && r.funct7 == FUNCT7_BASE {
        Instruction::And(r)
    } else {
        Instruction::Unknown
    }
}

/// The operation that the function code names among the operations on a
/// register and an immediate. The right shifts are told apart by the upper
/// function code, which lies in the immediate.
pub open spec fn resolve_immediate(i: ITypeInstruction) -> Instruction {
    if i.funct3 == FUNCT3_ADD {
        Instruction::Addi(i)
    } else if i.funct3 == FUNCT3_SLL {
        Instruction::Slli(i)
    } else if i.funct3 == FUNCT3_SLT {
        Instruction::Slti(i)
    } else if i.funct3 == FUNCT3_SLTU {
        Instruction::Sltiu(i)
    } else if i.funct3 == FUNCT3_XOR {
        Instruction::Xori(i)
    } else if i.funct3 == FUNCT3_SRL && upper_function(i.imm) == FUNCT7_BASE {
        Instruction::Srli(i)
    } else if i.funct3 == FUNCT3_SRL && upper_function(i.imm) == FUNCT7_ALT {
        Instruction::Srai(i)
    } else if i.funct3 == FUNCT3_OR {
        Instruction::Ori(i)
    } else if i.funct3 == FUNCT3_AND {
        Instruction::Andi(i)
    } else {
        Instruction::Unknown
    }
}

/// The load that the function code names.
pub open spec fn resolve_load(i: ITypeInstruction) -> Instruction {
    if i.funct3 == FUNCT3_LB {
        Instruction::Lb(i)
    } else if i.funct3 == FUNCT3_LH {
        Instruction::Lh(i)
    } else if i.funct3 == FUNCT3_LW {
        Instruction::Lw(i)
    } else if i.funct3 == FUNCT3_LBU {
        Instruction::Lbu(i)
    } else if i.funct3 == FUNCT3_LHU {
        Instruction::Lhu(i)
    } else {
        Instruction::Unknown
    }
}

/// The store that the function code names.
pub open spec fn resolve_store(s: STypeInstruction) -> Instruction {
    if s.funct3 == FUNCT3_SB {
        Instruction::Sb(s)
    } else if s.funct3 == FUNCT3_SH {
        Instruction::Sh(s)
    } else if s.funct3 == FUNCT3_SW {
        Instruction::Sw(s)
    } else {
        Instruction::Unknown
    }
}

/// The branch that the function code names.
pub open spec fn resolve_branch(b: BTypeInstruction) -> Instruction {
    if b.funct3 == FUNCT3_BEQ {
        Instruction::Beq(b)
    } else if b.funct3 == FUNCT3_BNE {
        Instruction::Bne(b)
    } else if b.funct3 == FUNCT3_BLT {
        Instruction::Blt(b)
    } else if b.funct3 == FUNCT3_BGE {
        Instruction::Bge(b)
    } else if b.funct3 == FUNCT3_BLTU {
        Instruction::Bltu(b)
    } else if b.funct3 == FUNCT3_BGEU {
        Instruction::Bgeu(b)
    } else {
        Instruction::Unknown
    }
}

/// The operation that a shape and its function codes name, with the fields
/// of the shape carried over unchanged. The register-immediate shape is
/// resolved under its opcode; the upper-immediate and jump shapes by their
/// opcode alone. What names no operation resolves to `Unknown`.
pub open spec fn resolve(base: BaseInstruction) -> Instruction {
    match base {
        BaseInstruction::RType(r) => resolve_register(r),
        BaseInstruction::IType(i) => if i.opcode == OPCODE_OP_IMM {
            resolve_immediate(i)
        } else if i.opcode == OPCODE_LOAD {
            resolve_load(i)
        } else if i.opcode == OPCODE_JALR {
            Instruction::Jalr(i)
        } else {
            Instruction::Unknown
        },
        BaseInstruction::SType(s) => resolve_store(s),
        BaseInstruction::BType(b) => resolve_branch(b),
        BaseInstruction::UType(u) => if u.opcode == OPCODE_LUI {
            Instruction::Lui(u)
        } else if u.opcode == OPCODE_AUIPC {
            Instruction::Auipc(u)
        } else {
            Instruction::Unknown
        },
        BaseInstruction::JType(j) => if j.opcode == OPCODE_JAL {
            Instruction::Jal(j)
        } else {
            Instruction::Unknown
        },
    }
}

/// Resolving keeps the invariant of the fields.
pub proof fn lemma_resolve_wf(base: BaseInstruction)
    requires
        base.wf(),
    ensures
        resolve(base).wf(),
{
}

proof fn lemma_upper_function_bits(pattern: u32)
    by (bit_vector)
    ensures
        (pattern >> 5) & 0x7f == (pattern / 32) % 128,
{
}

/// Reads the upper function code out of an immediate.
fn upper_function_of(imm: i32) -> (code: u8)
    ensures
        code == upper_function(imm),
{
    let pattern: u32 = to_unsigned(imm);
    proof {
        lemma_upper_function_bits(pattern);
    }
    ((pattern >> 5) & 0x7f) as u8
}

impl Instruction {
    /// Names the operation of a shape from its function codes.
    pub fn decode_instruction_funct3_funct7(instr: BaseInstruction) -> (op: Instruction)
        ensures
            op == resolve(instr),
            instr.wf() ==> op.wf(),
    {
        match instr {
            BaseInstruction::RType(r) => {
                if r.funct3 == FUNCT3_ADD && r.funct7 == FUNCT7_BASE {
                    Instruction::Add(r)
                } else if r.funct3 == FUNCT3_ADD && r.funct7 == FUNCT7_ALT {
                    Instruction::Sub(r)
                } else if r.funct3 == FUNCT3_SLL && r.funct7 == FUNCT7_BASE {
                    Instruction::Sll(r)
                } else if r.funct3 == FUNCT3_SLT && r.funct7 == FUNCT7_BASE {
                    Instruction::Slt(r)
                } else if r.funct3 == FUNCT3_SLTU && r.funct7 == FUNCT7_BASE {
                    Instruction::Sltu(r)
                } else if r.funct3 == FUNCT3_XOR && r.funct7 == FUNCT7_BASE {
                    Instruction::Xor(r)
                } else if r.funct3 == FUNCT3_SRL && r.funct7 == FUNCT7_BASE {
                    Instruction::Srl(r)
                } else if r.funct3 == FUNCT3_SRL && r.funct7 == FUNCT7_ALT {
                    Instruction::Sra(r)
                } else if r.funct3 == FUNCT3_OR && r.funct7 == FUNCT7_BASE {
                    Instruction::Or(r)
                } else if r.funct3 == FUNCT3_AND && r.funct7 == FUNCT7_BASE {
                    Instruction::And(r)
                } else {
                    Instruction::Unknown
                }
            },
            BaseInstruction::IType(i) => {
                if i.opcode == OPCODE_OP_IMM {
                    if i.funct3 == FUNCT3_ADD {
                        Instruction::Addi(i)
                    } else if i.funct3 == FUNCT3_SLL {
                        Instruction::Slli(i)
                    } else if i.funct3 == FUNCT3_SLT {
                        Instruction::Slti(i)
                    } else if i.funct3 == FUNCT3_SLTU {
                        Instruction::Sltiu(i)
                    } else if i.funct3 == FUNCT3_XOR {
                        Instruction::Xori(i)
                    } else if i.funct3 == FUNCT3_SRL {
                        let upper: u8 = upper_function_of(i.imm);
                        if upper == FUNCT7_BASE {
                            Instruction::Srli(i)
                        } else if upper == FUNCT7_ALT {
                            Instruction::Srai(i)
                        } else {
                            Instruction::Unknown
                        }
                    } else if i.funct3 == FUNCT3_OR {
                        Instruction::Ori(i)
                    } else if i.funct3 == FUNCT3_AND {
                        Instruction::Andi(i)
                    } else {
                        Instruction::Unknown
                    }
                } else if i.opcode == OPCODE_LOAD {
                    if i.funct3 == FUNCT3_LB {
                        Instruction::Lb(i)
                    } else if i.funct3 == FUNCT3_LH {
                        Instruction::Lh(i)
                    } else if i.funct3 == FUNCT3_LW {
                        Instruction::Lw(i)
                    } else if i.funct3 == FUNCT3_LBU {
                        Instruction::Lbu(i)
                    } else if i.funct3 == FUNCT3_LHU {
                        Instruction::Lhu(i)
                    } else {
                        Instruction::Unknown
                    }
                } else if i.opcode == OPCODE_JALR {
                    Instruction::Jalr(i)
                } else {
                    Instruction::Unknown
                }
            },
            BaseInstruction::SType(s) => {
                if s.funct3 == FUNCT3_SB {
                    Instruction::Sb(s)
                } else if s.funct3 == FUNCT3_SH {
                    Instruction::Sh(s)
                } else if s.funct3 == FUNCT3_SW {
                    Instruction::Sw(s)
                } else {
                    Instruction::Unknown
                }
            },
            BaseInstruction::BType(b) => {
                if b.funct3 == FUNCT3_BEQ {
                    Instruction::Beq(b)
                } else if b.funct3 == FUNCT3_BNE {
                    Instruction::Bne(b)
                } else if b.funct3 == FUNCT3_BLT {
                    Instruction::Blt(b)
                } else if b.funct3 == FUNCT3_BGE {
                    Instruction::Bge(b)
                } else if b.funct3 == FUNCT3_BLTU {
                    Instruction::Bltu(b)
                } else if b.funct3 == FUNCT3_BGEU {
                    Instruction::Bgeu(b)
                } else {
                    Instruction::Unknown
                }
            },
            BaseInstruction::UType(u) => {
                if u.opcode == OPCODE_LUI {
                    Instruction::Lui(u)
                } else if u.opcode == OPCODE_AUIPC {
                    Instruction::Auipc(u)
                } else {
                    Instruction::Unknown
                }
            },
            BaseInstruction::JType(j) => {
                if j.opcode == OPCODE_JAL {
                    Instruction::Jal(j)
                } else {
                    Instruction::Unknown
                }
            },
        }
    }
}

} // verus!
