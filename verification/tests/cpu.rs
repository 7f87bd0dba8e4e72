use riscv_simulator::cpu::Cpu;
use riscv_simulator::instruction::BTypeInstruction;
use riscv_simulator::instruction::ITypeInstruction;
use riscv_simulator::instruction::Instruction;
use riscv_simulator::instruction::JTypeInstruction;
use riscv_simulator::instruction::RTypeInstruction;
use riscv_simulator::instruction::STypeInstruction;
use riscv_simulator::instruction::UTypeInstruction;
use riscv_simulator::instruction::UnsupportedOpcode;
use riscv_simulator::machine::Fault;
use riscv_simulator::machine::Halt;
use riscv_simulator::machine::Report;
use riscv_simulator::memory::AccessFault;
use riscv_simulator::memory::BusError;
use riscv_simulator::memory::Memory;

fn r(rd: u8, rs1: u8, rs2: u8) -> RTypeInstruction {
    RTypeInstruction { opcode: 0x33, rd, funct3: 0, rs1, rs2, funct7: 0 }
}

fn i(rd: u8, rs1: u8, imm: i32) -> ITypeInstruction {
    ITypeInstruction { opcode: 0x13, rd, funct3: 0, rs1, imm }
}

fn s(rs1: u8, rs2: u8, imm: i32) -> STypeInstruction {
    STypeInstruction { opcode: 0x23, funct3: 0, rs1, rs2, imm }
}

fn b(rs1: u8, rs2: u8, imm: i32) -> BTypeInstruction {
    BTypeInstruction { opcode: 0x63, funct3: 0, rs1, rs2, imm }
}

fn program(words: &[u32]) -> Memory {
    let mut bytes: Vec<u8> = Vec::new();
    for word in words {
        bytes.extend_from_slice(&word.to_le_bytes());
    }
    Memory::load(bytes)
}

/// Applies an operation on two registers to `a` and `b` and gives the result.
fn binary(op: fn(RTypeInstruction) -> Instruction, a: u32, b: u32) -> u32 {
    let mut cpu = Cpu::new();
    let mut memory = Memory::new();
    cpu.registers[1] = a;
    cpu.registers[2] = b;
    cpu.pc = 0x100;
    assert_eq!(cpu.execute(op(r(3, 1, 2)), &mut memory), Ok(0x104));
    assert_eq!(cpu.pc, 0x100);
    assert_eq!(cpu.registers[1], a);
    assert_eq!(cpu.registers[2], b);
    assert_eq!(memory, Memory::new());
    cpu.registers[3]
}

/// Applies an operation on a register and an immediate and gives the result.
fn immediate(op: fn(ITypeInstruction) -> Instruction, a: u32, imm: i32) -> u32 {
    let mut cpu = Cpu::new();
    let mut memory = Memory::new();
    cpu.registers[1] = a;
    cpu.pc = 0x100;
    assert_eq!(cpu.execute(op(i(3, 1, imm)), &mut memory), Ok(0x104));
    assert_eq!(cpu.pc, 0x100);
    assert_eq!(cpu.registers[1], a);
    assert_eq!(memory, Memory::new());
    cpu.registers[3]
}

/// Executes a branch at pc 0x100 with displacement 0x40 and says whether it
/// was taken. A branch that is taken moves the program counter; one that is
/// not leaves it and names the next word.
fn taken(op: fn(BTypeInstruction) -> Instruction, a: u32, b_value: u32) -> bool {
    let mut cpu = Cpu::new();
    let mut memory = Memory::new();
    cpu.registers[1] = a;
    cpu.registers[2] = b_value;
    cpu.pc = 0x100;
    let before = cpu.registers;
    let next_pc = cpu.execute(op(b(1, 2, 0x40)), &mut memory).unwrap();
    assert_eq!(cpu.registers, before);
    assert_eq!(memory, Memory::new());
    assert!(
        (cpu.pc, next_pc) == (0x140, 0x140) || (cpu.pc, next_pc) == (0x100, 0x104),
        "pc {:#x}, next {:#x}",
        cpu.pc,
        next_pc
    );
    cpu.pc == 0x140
}

#[test]
fn new_processor_is_all_zero() {
    let cpu = Cpu::new();
    assert_eq!(cpu.pc, 0);
    assert_eq!(cpu.registers, [0u32; 32]);
}

#[test]
fn add_wraps() {
    assert_eq!(binary(Instruction::Add, 2, 3), 5);
    assert_eq!(binary(Instruction::Add, 0xFFFF_FFFF, 1), 0);
    assert_eq!(binary(Instruction::Add, 0x8000_0000, 0x8000_0000), 0);
    assert_eq!(binary(Instruction::Add, 0x7FFF_FFFF, 1), 0x8000_0000);
}

#[test]
fn add_does_not_depend_on_the_order_of_its_operands() {
    let samples: [u32; 6] = [0, 1, 5, 0x7FFF_FFFF, 0x8000_0000, 0xFFFF_FFFF];
    for a in samples {
        for b_value in samples {
            assert_eq!(binary(Instruction::Add, a, b_value), binary(Instruction::Add, b_value, a));
            assert_eq!(binary(Instruction::Xor, a, b_value), binary(Instruction::Xor, b_value, a));
            assert_eq!(binary(Instruction::Or, a, b_value), binary(Instruction::Or, b_value, a));
            assert_eq!(binary(Instruction::And, a, b_value), binary(Instruction::And, b_value, a));
        }
    }
}

#[test]
fn sub_wraps() {
    assert_eq!(binary(Instruction::Sub, 5, 3), 2);
    assert_eq!(binary(Instruction::Sub, 3, 5), 0xFFFF_FFFE);
    assert_eq!(binary(Instruction::Sub, 0, 1), 0xFFFF_FFFF);
    assert_eq!(binary(Instruction::Sub, 0x8000_0000, 1), 0x7FFF_FFFF);
}

#[test]
fn shifts_by_a_register() {
    assert_eq!(binary(Instruction::Sll, 1, 4), 16);
    assert_eq!(binary(Instruction::Sll, 0xFFFF_FFFF, 31), 0x8000_0000);
    assert_eq!(binary(Instruction::Sll, 1, 32), 1);
    assert_eq!(binary(Instruction::Sll, 1, 0xFFFF_FFE1), 2);
    assert_eq!(binary(Instruction::Srl, 0x8000_0000, 4), 0x0800_0000);
    assert_eq!(binary(Instruction::Srl, 0xFFFF_FFFF, 31), 1);
    assert_eq!(binary(Instruction::Srl, 0xFFFF_FFFF, 33), 0x7FFF_FFFF);
    assert_eq!(binary(Instruction::Sra, 0x8000_0000, 4), 0xF800_0000);
    assert_eq!(binary(Instruction::Sra, 0xFFFF_FFFF, 31), 0xFFFF_FFFF);
    assert_eq!(binary(Instruction::Sra, 0x7FFF_FFFF, 4), 0x07FF_FFFF);
    assert_eq!(binary(Instruction::Sra, 0x8000_0000, 36), 0xF800_0000);
}

#[test]
fn set_less_than() {
    assert_eq!(binary(Instruction::Slt, 1, 2), 1);
    assert_eq!(binary(Instruction::Slt, 2, 1), 0);
    assert_eq!(binary(Instruction::Slt, 2, 2), 0);
    assert_eq!(binary(Instruction::Slt, 0xFFFF_FFFF, 0), 1);
    assert_eq!(binary(Instruction::Slt, 0, 0xFFFF_FFFF), 0);
    assert_eq!(binary(Instruction::Slt, 0x8000_0000, 0x7FFF_FFFF), 1);
    assert_eq!(binary(Instruction::Sltu, 1, 2), 1);
    assert_eq!(binary(Instruction::Sltu, 2, 2), 0);
    assert_eq!(binary(Instruction::Sltu, 0xFFFF_FFFF, 0), 0);
    assert_eq!(binary(Instruction::Sltu, 0, 0xFFFF_FFFF), 1);
    assert_eq!(binary(Instruction::Sltu, 0x8000_0000, 0x7FFF_FFFF), 0);
}

#[test]
fn bitwise_operations() {
    assert_eq!(binary(Instruction::Xor, 0b1100, 0b1010), 0b0110);
    assert_eq!(binary(Instruction::Or, 0b1100, 0b1010), 0b1110);
    assert_eq!(binary(Instruction::And, 0b1100, 0b1010), 0b1000);
    assert_eq!(binary(Instruction::Xor, 0xFFFF_FFFF, 0x0F0F_0F0F), 0xF0F0_F0F0);
    assert_eq!(binary(Instruction::Or, 0xF000_0000, 0x0000_000F), 0xF000_000F);
    assert_eq!(binary(Instruction::And, 0xFFFF_0000, 0x00FF_FF00), 0x00FF_0000);
}

#[test]
fn operands_may_share_a_register_with_the_result() {
    let mut cpu = Cpu::new();
    let mut memory = Memory::new();
    cpu.registers[4] = 21;
    assert_eq!(cpu.execute(Instruction::Add(r(4, 4, 4)), &mut memory), Ok(4));
    assert_eq!(cpu.registers[4], 42);
    assert_eq!(cpu.execute(Instruction::Sub(r(4, 4, 4)), &mut memory), Ok(4));
    assert_eq!(cpu.registers[4], 0);
}

#[test]
fn register_zero_is_written_like_any_other() {
    let mut cpu = Cpu::new();
    let mut memory = Memory::new();
    assert_eq!(cpu.execute(Instruction::Addi(i(0, 0, 7)), &mut memory), Ok(4));
    assert_eq!(cpu.registers[0], 7);
    assert_eq!(cpu.execute(Instruction::Add(r(1, 0, 0)), &mut memory), Ok(4));
    assert_eq!(cpu.registers[1], 14);
}

#[test]
fn add_immediate() {
    assert_eq!(immediate(Instruction::Addi, 5, 3), 8);
    assert_eq!(immediate(Instruction::Addi, 5, -3), 2);
    assert_eq!(immediate(Instruction::Addi, 0, -1), 0xFFFF_FFFF);
    assert_eq!(immediate(Instruction::Addi, 0xFFFF_FFFF, 1), 0);
    assert_eq!(immediate(Instruction::Addi, 0x7FFF_FFFF, 2047), 0x8000_07FE);
}

#[test]
fn set_less_than_immediate() {
    assert_eq!(immediate(Instruction::Slti, 1, 2), 1);
    assert_eq!(immediate(Instruction::Slti, 2, 2), 0);
    assert_eq!(immediate(Instruction::Slti, 0xFFFF_FFFF, 0), 1);
    assert_eq!(immediate(Instruction::Slti, 0, -1), 0);
    assert_eq!(immediate(Instruction::Slti, 0x8000_0000, -2048), 1);
    assert_eq!(immediate(Instruction::Sltiu, 1, 2), 1);
    assert_eq!(immediate(Instruction::Sltiu, 2, 2), 0);
    assert_eq!(immediate(Instruction::Sltiu, 0xFFFF_FFFF, 0), 0);
    assert_eq!(immediate(Instruction::Sltiu, 5, -1), 1);
    assert_eq!(immediate(Instruction::Sltiu, 0xFFFF_FFFF, -1), 0);
}

#[test]
fn bitwise_operations_with_an_immediate() {
    assert_eq!(immediate(Instruction::Xori, 0b1100, 0b1010), 0b0110);
    assert_eq!(immediate(Instruction::Xori, 0x1234_5678, -1), 0xEDCB_A987);
    assert_eq!(immediate(Instruction::Ori, 0b1100, 0b1010), 0b1110);
    assert_eq!(immediate(Instruction::Ori, 0, -2048), 0xFFFF_F800);
    assert_eq!(immediate(Instruction::Andi, 0b1100, 0b1010), 0b1000);
    assert_eq!(immediate(Instruction::Andi, 0x1234_5678, -16), 0x1234_5670);
}

#[test]
fn shifts_by_an_immediate() {
    assert_eq!(immediate(Instruction::Slli, 1, 4), 16);
    assert_eq!(immediate(Instruction::Slli, 0xFFFF_FFFF, 31), 0x8000_0000);
    assert_eq!(immediate(Instruction::Slli, 3, 33), 6);
    assert_eq!(immediate(Instruction::Srli, 0x8000_0000, 4), 0x0800_0000);
    assert_eq!(immediate(Instruction::Srli, 0xFFFF_FFFF, 31), 1);
    assert_eq!(immediate(Instruction::Srai, 0x8000_0000, 0x404), 0xF800_0000);
    assert_eq!(immediate(Instruction::Srai, 0x7000_0000, 0x404), 0x0700_0000);
    assert_eq!(immediate(Instruction::Srai, 0xFFFF_FFFE, 0x401), 0xFFFF_FFFF);
    assert_eq!(immediate(Instruction::Srai, 0x8000_0000, -1), 0xFFFF_FFFF);
}

#[test]
fn lui_writes_the_shifted_immediate() {
    let mut cpu = Cpu::new();
    let mut memory = Memory::new();
    let op = cpu.decode(0x0000_50B7).unwrap();
    assert_eq!(op, Instruction::Lui(UTypeInstruction { opcode: 0x37, rd: 1, imm: 0x5000 }));
    assert_eq!(cpu.execute(op, &mut memory), Ok(4));
    let mut expected = [0u32; 32];
    expected[1] = 0x0000_5000;
    assert_eq!(cpu.registers, expected);
    assert_eq!(cpu.pc, 0);
    assert_eq!(memory, Memory::new());
    cpu.pc = 8;
    let high = UTypeInstruction { opcode: 0x37, rd: 2, imm: i32::MIN };
    assert_eq!(cpu.execute(Instruction::Lui(high), &mut memory), Ok(12));
    assert_eq!(cpu.registers[2], 0x8000_0000);
    assert_eq!(cpu.pc, 8);
}

#[test]
fn auipc_adds_the_program_counter() {
    let mut cpu = Cpu::new();
    let mut memory = Memory::new();
    cpu.pc = 0x104;
    let u = UTypeInstruction { opcode: 0x17, rd: 9, imm: 0x5000 };
    assert_eq!(cpu.execute(Instruction::Auipc(u), &mut memory), Ok(0x108));
    assert_eq!(cpu.registers[9], 0x5104);
    assert_eq!(cpu.pc, 0x104);
    let back = UTypeInstruction { opcode: 0x17, rd: 9, imm: -4096 };
    assert_eq!(cpu.execute(Instruction::Auipc(back), &mut memory), Ok(0x108));
    assert_eq!(cpu.registers[9], 0xFFFF_F104);
    assert_eq!(cpu.pc, 0x104);
}

#[test]
fn an_operation_that_is_no_jump_leaves_the_program_counter() {
    let operations: [Instruction; 8] = [
        Instruction::Add(r(3, 1, 2)),
        Instruction::Sra(r(3, 1, 2)),
        Instruction::Addi(i(3, 1, -1)),
        Instruction::Srli(i(3, 1, 3)),
        Instruction::Lui(UTypeInstruction { opcode: 0x37, rd: 3, imm: 0x5000 }),
        Instruction::Auipc(UTypeInstruction { opcode: 0x17, rd: 3, imm: 0x5000 }),
        Instruction::Lw(i(3, 1, 0)),
        Instruction::Lb(i(3, 1, 1)),
    ];
    for op in operations {
        for pc in [0u32, 8, 0x100, 0xFFFF_FFFC] {
            let mut cpu = Cpu::new();
            let mut memory = Memory::new();
            for index in 0..32usize {
                cpu.registers[index] = 4 * index as u32;
            }
            cpu.pc = pc;
            let before = cpu.registers;
            assert_eq!(cpu.execute(op, &mut memory), Ok(pc.wrapping_add(4)));
            assert_eq!(cpu.pc, pc);
            assert_eq!(memory, Memory::new());
            for index in 0..32usize {
                if index != 3 {
                    assert_eq!(cpu.registers[index], before[index]);
                }
            }
        }
    }
}

#[test]
fn jal_links_and_jumps() {
    let mut cpu = Cpu::new();
    let mut memory = Memory::new();
    let j = JTypeInstruction { opcode: 0x6F, rd: 1, imm: 8 };
    assert_eq!(cpu.execute(Instruction::Jal(j), &mut memory), Ok(8));
    assert_eq!(cpu.pc, 8);
    assert_eq!(cpu.registers[1], 4);
    for index in 0..32usize {
        if index != 1 {
            assert_eq!(cpu.registers[index], 0);
        }
    }
    assert_eq!(memory, Memory::new());
}

#[test]
fn jal_backwards_wraps() {
    let mut cpu = Cpu::new();
    let mut memory = Memory::new();
    cpu.pc = 4;
    let j = JTypeInstruction { opcode: 0x6F, rd: 5, imm: -8 };
    assert_eq!(cpu.execute(Instruction::Jal(j), &mut memory), Ok(0xFFFF_FFFC));
    assert_eq!(cpu.pc, 0xFFFF_FFFC);
    assert_eq!(cpu.registers[5], 8);
    cpu.pc = 0xFFFF_FFFC;
    let forward = JTypeInstruction { opcode: 0x6F, rd: 6, imm: 8 };
    assert_eq!(cpu.execute(Instruction::Jal(forward), &mut memory), Ok(4));
    assert_eq!(cpu.pc, 4);
    assert_eq!(cpu.registers[6], 0);
}

#[test]
fn jalr_links_and_clears_the_low_bit() {
    let mut cpu = Cpu::new();
    let mut memory = Memory::new();
    cpu.pc = 0x20;
    cpu.registers[2] = 0x101;
    let jump = ITypeInstruction { opcode: 0x67, rd: 1, funct3: 0, rs1: 2, imm: 4 };
    assert_eq!(cpu.execute(Instruction::Jalr(jump), &mut memory), Ok(0x104));
    assert_eq!(cpu.pc, 0x104);
    assert_eq!(cpu.registers[1], 0x24);
    assert_eq!(cpu.registers[2], 0x101);
    cpu.pc = 0x20;
    cpu.registers[2] = 0x100;
    let back = ITypeInstruction { opcode: 0x67, rd: 1, funct3: 0, rs1: 2, imm: -3 };
    assert_eq!(cpu.execute(Instruction::Jalr(back), &mut memory), Ok(0xFC));
    assert_eq!(cpu.pc, 0xFC);
}

#[test]
fn jalr_reads_its_base_before_it_links() {
    let mut cpu = Cpu::new();
    let mut memory = Memory::new();
    cpu.pc = 0x20;
    cpu.registers[1] = 0x200;
    let jump = ITypeInstruction { opcode: 0x67, rd: 1, funct3: 0, rs1: 1, imm: 8 };
    assert_eq!(cpu.execute(Instruction::Jalr(jump), &mut memory), Ok(0x208));
    assert_eq!(cpu.pc, 0x208);
    assert_eq!(cpu.registers[1], 0x24);
}

#[test]
fn beq_taken_and_not_taken() {
    let mut cpu = Cpu::new();
    let mut memory = Memory::new();
    cpu.pc = 0x10;
    cpu.registers[1] = 7;
    cpu.registers[2] = 7;
    assert_eq!(cpu.execute(Instruction::Beq(b(1, 2, 0x20)), &mut memory), Ok(0x30));
    assert_eq!(cpu.pc, 0x30);
    cpu.registers[2] = 8;
    assert_eq!(cpu.execute(Instruction::Beq(b(1, 2, 0x20)), &mut memory), Ok(0x34));
    assert_eq!(cpu.pc, 0x30);
    cpu.registers[2] = 7;
    assert_eq!(cpu.execute(Instruction::Beq(b(1, 2, -0x30)), &mut memory), Ok(0));
    assert_eq!(cpu.pc, 0);
    assert_eq!(cpu.execute(Instruction::Beq(b(1, 2, -4)), &mut memory), Ok(0xFFFF_FFFC));
    assert_eq!(cpu.pc, 0xFFFF_FFFC);
}

#[test]
fn beq_in_a_step_advances_by_the_displacement_or_by_the_default_step() {
    // beq x1, x2, 8 at address 0, then two words that are never reached.
    let image = [0x0020_8463, 0x0000_0013, 0x0000_0013];
    let mut memory = program(&image);
    let mut cpu = Cpu::new();
    cpu.registers[1] = 7;
    cpu.registers[2] = 7;
    assert_eq!(cpu.step(&mut memory), Ok(Instruction::Beq(b(1, 2, 8))));
    assert_eq!(cpu.pc, 8);
    cpu.pc = 0;
    cpu.registers[2] = 8;
    assert_eq!(cpu.step(&mut memory), Ok(Instruction::Beq(b(1, 2, 8))));
    assert_eq!(cpu.pc, 4);
}

#[test]
fn branch_conditions() {
    assert!(taken(Instruction::Beq, 5, 5));
    assert!(!taken(Instruction::Beq, 5, 6));
    assert!(taken(Instruction::Bne, 5, 6));
    assert!(!taken(Instruction::Bne, 5, 5));
    assert!(taken(Instruction::Blt, 0xFFFF_FFFF, 0));
    assert!(!taken(Instruction::Blt, 0, 0xFFFF_FFFF));
    assert!(!taken(Instruction::Blt, 3, 3));
    assert!(taken(Instruction::Bge, 0, 0xFFFF_FFFF));
    assert!(taken(Instruction::Bge, 3, 3));
    assert!(!taken(Instruction::Bge, 0x8000_0000, 0x7FFF_FFFF));
    assert!(taken(Instruction::Bltu, 0, 0xFFFF_FFFF));
    assert!(!taken(Instruction::Bltu, 0xFFFF_FFFF, 0));
    assert!(!taken(Instruction::Bltu, 3, 3));
    assert!(taken(Instruction::Bgeu, 0xFFFF_FFFF, 0));
    assert!(taken(Instruction::Bgeu, 3, 3));
    assert!(!taken(Instruction::Bgeu, 0, 1));
}

#[test]
fn loads_extend_by_sign_or_by_zeros() {
    let mut memory = Memory::load(vec![0x80, 0xFF, 0x7F, 0x00, 0x01, 0x80, 0xFE, 0xFF]);
    let mut cpu = Cpu::new();
    cpu.registers[1] = 4;
    assert_eq!(cpu.execute(Instruction::Lb(i(3, 1, -4)), &mut memory), Ok(4));
    assert_eq!(cpu.registers[3], 0xFFFF_FF80);
    assert_eq!(cpu.execute(Instruction::Lbu(i(3, 1, -4)), &mut memory), Ok(4));
    assert_eq!(cpu.registers[3], 0x80);
    assert_eq!(cpu.execute(Instruction::Lb(i(3, 1, -2)), &mut memory), Ok(4));
    assert_eq!(cpu.registers[3], 0x7F);
    assert_eq!(cpu.execute(Instruction::Lh(i(3, 1, 0)), &mut memory), Ok(4));
    assert_eq!(cpu.registers[3], 0xFFFF_8001);
    assert_eq!(cpu.execute(Instruction::Lhu(i(3, 1, 0)), &mut memory), Ok(4));
    assert_eq!(cpu.registers[3], 0x8001);
    assert_eq!(cpu.execute(Instruction::Lh(i(3, 1, -2)), &mut memory), Ok(4));
    assert_eq!(cpu.registers[3], 0x007F);
    assert_eq!(cpu.execute(Instruction::Lw(i(3, 1, 0)), &mut memory), Ok(4));
    assert_eq!(cpu.registers[3], 0xFFFE_8001);
    assert_eq!(cpu.execute(Instruction::Lw(i(3, 1, -4)), &mut memory), Ok(4));
    assert_eq!(cpu.registers[3], 0x007F_FF80);
    assert_eq!(cpu.pc, 0);
}

#[test]
fn stores_write_the_low_bytes() {
    let mut memory = Memory::load(vec![0u8; 12]);
    let mut cpu = Cpu::new();
    cpu.registers[1] = 4;
    cpu.registers[2] = 0xA1B2_C3D4;
    assert_eq!(cpu.execute(Instruction::Sb(s(1, 2, -4)), &mut memory), Ok(4));
    assert_eq!(cpu.execute(Instruction::Sh(s(1, 2, 0)), &mut memory), Ok(4));
    assert_eq!(cpu.execute(Instruction::Sw(s(1, 2, 4)), &mut memory), Ok(4));
    assert_eq!(
        memory,
        Memory::load(vec![0xD4, 0, 0, 0, 0xD4, 0xC3, 0, 0, 0xD4, 0xC3, 0xB2, 0xA1])
    );
    assert_eq!(cpu.pc, 0);
    assert_eq!(cpu.registers[2], 0xA1B2_C3D4);
}

#[test]
fn what_was_stored_is_loaded_back() {
    let values: [u32; 5] = [0, 0x7F, 0x8081, 0xDEAD_BEEF, 0xFFFF_FFFF];
    for value in values {
        let mut memory = Memory::load(vec![0u8; 16]);
        let mut cpu = Cpu::new();
        cpu.registers[1] = 8;
        cpu.registers[2] = value;
        assert_eq!(cpu.execute(Instruction::Sw(s(1, 2, 4)), &mut memory), Ok(4));
        assert_eq!(cpu.execute(Instruction::Lw(i(3, 1, 4)), &mut memory), Ok(4));
        assert_eq!(cpu.registers[3], value);
        assert_eq!(cpu.execute(Instruction::Sh(s(1, 2, -2)), &mut memory), Ok(4));
        assert_eq!(cpu.execute(Instruction::Lhu(i(3, 1, -2)), &mut memory), Ok(4));
        assert_eq!(cpu.registers[3], value & 0xFFFF);
        assert_eq!(cpu.execute(Instruction::Lh(i(3, 1, -2)), &mut memory), Ok(4));
        assert_eq!(cpu.registers[3], (value as u16 as i16) as i32 as u32);
        assert_eq!(cpu.execute(Instruction::Sb(s(1, 2, 1)), &mut memory), Ok(4));
        assert_eq!(cpu.execute(Instruction::Lbu(i(3, 1, 1)), &mut memory), Ok(4));
        assert_eq!(cpu.registers[3], value & 0xFF);
        assert_eq!(cpu.execute(Instruction::Lb(i(3, 1, 1)), &mut memory), Ok(4));
        assert_eq!(cpu.registers[3], (value as u8 as i8) as i32 as u32);
    }
}

#[test]
fn a_refused_load_changes_nothing() {
    let mut memory = Memory::new();
    let mut cpu = Cpu::new();
    cpu.pc = 8;
    cpu.registers[1] = 6;
    cpu.registers[3] = 99;
    let before = cpu.clone();
    assert_eq!(
        cpu.execute(Instruction::Lw(i(3, 1, 0)), &mut memory),
        Err(BusError { address: 6, reason: AccessFault::Unaligned })
    );
    assert_eq!(
        cpu.execute(Instruction::Lh(i(3, 1, 1)), &mut memory),
        Err(BusError { address: 7, reason: AccessFault::Unaligned })
    );
    assert_eq!(
        cpu.execute(Instruction::Lb(i(3, 1, 6)), &mut memory),
        Err(BusError { address: 12, reason: AccessFault::OutOfBounds })
    );
    assert_eq!(
        cpu.execute(Instruction::Lbu(i(3, 1, -7)), &mut memory),
        Err(BusError { address: 0xFFFF_FFFF, reason: AccessFault::OutOfBounds })
    );
    assert_eq!(
        cpu.execute(Instruction::Lhu(i(3, 1, 10)), &mut memory),
        Err(BusError { address: 16, reason: AccessFault::OutOfBounds })
    );
    assert_eq!(cpu, before);
    assert_eq!(memory, Memory::new());
}

#[test]
fn a_refused_store_changes_nothing() {
    let mut memory = Memory::new();
    let mut cpu = Cpu::new();
    cpu.pc = 8;
    cpu.registers[1] = 6;
    cpu.registers[2] = 0xFFFF_FFFF;
    let before = cpu.clone();
    assert_eq!(
        cpu.execute(Instruction::Sw(s(1, 2, 0)), &mut memory),
        Err(BusError { address: 6, reason: AccessFault::Unaligned })
    );
    assert_eq!(
        cpu.execute(Instruction::Sh(s(1, 2, 1)), &mut memory),
        Err(BusError { address: 7, reason: AccessFault::Unaligned })
    );
    assert_eq!(
        cpu.execute(Instruction::Sb(s(1, 2, 6)), &mut memory),
        Err(BusError { address: 12, reason: AccessFault::OutOfBounds })
    );
    assert_eq!(
        cpu.execute(Instruction::Sw(s(1, 2, 6)), &mut memory),
        Err(BusError { address: 12, reason: AccessFault::OutOfBounds })
    );
    assert_eq!(cpu, before);
    assert_eq!(memory, Memory::new());
}

#[test]
fn unknown_operation_changes_nothing() {
    let mut memory = Memory::new();
    let mut cpu = Cpu::new();
    for index in 0..32usize {
        cpu.registers[index] = 1000 + index as u32;
    }
    cpu.pc = 4;
    let before = cpu.clone();
    assert_eq!(cpu.execute(Instruction::Unknown, &mut memory), Ok(8));
    assert_eq!(cpu, before);
    assert_eq!(memory, Memory::new());
}

#[test]
fn a_step_over_an_unknown_operation_goes_on() {
    // Function code 0 with upper function code 1 names no operation.
    let mut memory = program(&[0x0220_81B3, 0x0020_81B3]);
    let mut cpu = Cpu::new();
    cpu.registers[1] = 2;
    cpu.registers[2] = 3;
    cpu.registers[3] = 77;
    assert_eq!(cpu.step(&mut memory), Ok(Instruction::Unknown));
    assert_eq!(cpu.registers[3], 77);
    assert_eq!(cpu.pc, 4);
    assert_eq!(memory, program(&[0x0220_81B3, 0x0020_81B3]));
    assert_eq!(cpu.step(&mut memory), Ok(Instruction::Add(r(3, 1, 2))));
    assert_eq!(cpu.registers[3], 5);
    assert_eq!(cpu.pc, 8);
}

#[test]
fn a_step_on_an_unsupported_opcode_faults_and_changes_nothing() {
    let mut memory = program(&[0x0000_0073]);
    let mut cpu = Cpu::new();
    cpu.registers[7] = 7;
    let before = cpu.clone();
    assert_eq!(
        cpu.step(&mut memory),
        Err(Fault::Unsupported(UnsupportedOpcode { opcode: 0x73 }))
    );
    assert_eq!(cpu, before);
    assert_eq!(memory, program(&[0x0000_0073]));
    assert_eq!(
        cpu.run(&mut memory, 10),
        Report {
            halt: Halt::Fault(Fault::Unsupported(UnsupportedOpcode { opcode: 0x73 })),
            steps: 0,
            unknown: 0,
        }
    );
    assert_eq!(cpu, before);
}

#[test]
fn a_run_counts_the_unknown_operations_and_goes_on() {
    // An unnamed register operation, addi x1, x0, 5, an unnamed load, an
    // unnamed branch.
    let image = [0x0220_81B3, 0x0050_0093, 0x0000_3003, 0x0000_2063];
    let mut memory = program(&image);
    let mut cpu = Cpu::new();
    assert_eq!(
        cpu.run(&mut memory, 100),
        Report { halt: Halt::EndOfImage, steps: 4, unknown: 3 }
    );
    let mut expected = [0u32; 32];
    expected[1] = 5;
    assert_eq!(cpu.registers, expected);
    assert_eq!(cpu.pc, 16);
    assert_eq!(memory, program(&image));
}

#[test]
fn fetch_reads_the_word_at_the_program_counter() {
    let memory = Memory::new();
    let mut cpu = Cpu::new();
    assert_eq!(cpu.fetch(&memory), Ok(0x0000_50B7));
    cpu.pc = 8;
    assert_eq!(cpu.fetch(&memory), Ok(0x0020_81B3));
    cpu.pc = 12;
    assert_eq!(
        cpu.fetch(&memory),
        Err(BusError { address: 12, reason: AccessFault::OutOfBounds })
    );
    cpu.pc = 2;
    assert_eq!(cpu.fetch(&memory), Err(BusError { address: 2, reason: AccessFault::Unaligned }));
}

#[test]
fn decode_names_the_operation_of_a_word() {
    let cpu = Cpu::new();
    assert_eq!(cpu.decode(0x0020_81B3), Ok(Instruction::Add(r(3, 1, 2))));
    assert_eq!(
        cpu.decode(0x4053_03B3),
        Ok(Instruction::Sub(RTypeInstruction {
            opcode: 0x33,
            rd: 7,
            funct3: 0,
            rs1: 6,
            rs2: 5,
            funct7: 0x20,
        }))
    );
    assert_eq!(
        cpu.decode(0xFFF3_0283),
        Ok(Instruction::Lb(ITypeInstruction { opcode: 0x03, rd: 5, funct3: 0, rs1: 6, imm: -1 }))
    );
    assert_eq!(cpu.decode(0x0220_81B3), Ok(Instruction::Unknown));
    assert_eq!(cpu.decode(0xB750_0000), Err(UnsupportedOpcode { opcode: 0 }));
}

#[test]
fn the_seed_program_runs_to_the_end_of_the_image() {
    let mut cpu = Cpu::new();
    let mut memory = Memory::new();
    assert_eq!(
        cpu.run(&mut memory, 1000),
        Report { halt: Halt::EndOfImage, steps: 3, unknown: 0 }
    );
    let mut expected = [0u32; 32];
    expected[1] = 0x0000_5000;
    expected[2] = 0x0000_6000;
    expected[3] = 0x0000_B000;
    assert_eq!(cpu.registers, expected);
    assert_eq!(cpu.pc, 12);
    assert_eq!(memory, Memory::new());
}

#[test]
fn the_seed_program_step_by_step() {
    let mut cpu = Cpu::new();
    let mut memory = Memory::new();
    assert_eq!(
        cpu.step(&mut memory),
        Ok(Instruction::Lui(UTypeInstruction { opcode: 0x37, rd: 1, imm: 0x5000 }))
    );
    assert_eq!((cpu.pc, cpu.registers[1]), (4, 0x5000));
    assert_eq!(
        cpu.step(&mut memory),
        Ok(Instruction::Lui(UTypeInstruction { opcode: 0x37, rd: 2, imm: 0x6000 }))
    );
    assert_eq!((cpu.pc, cpu.registers[2]), (8, 0x6000));
    assert_eq!(cpu.step(&mut memory), Ok(Instruction::Add(r(3, 1, 2))));
    assert_eq!((cpu.pc, cpu.registers[3]), (12, 0xB000));
    assert_eq!(
        cpu.step(&mut memory),
        Err(Fault::Bus(BusError { address: 12, reason: AccessFault::OutOfBounds }))
    );
}

#[test]
fn the_seed_program_needs_three_steps() {
    for budget in 0u64..3 {
        let mut cpu = Cpu::new();
        let mut memory = Memory::new();
        assert_eq!(
            cpu.run(&mut memory, budget),
            Report { halt: Halt::StepLimit, steps: budget, unknown: 0 }
        );
        assert_eq!(cpu.pc as u64, 4 * budget);
    }
    let mut cpu = Cpu::new();
    let mut memory = Memory::new();
    assert_eq!(cpu.run(&mut memory, 3).halt, Halt::EndOfImage);
    assert_eq!(cpu.registers[3], 0xB000);
}

#[test]
fn a_run_without_budget_takes_no_step() {
    let mut cpu = Cpu::new();
    let mut memory = Memory::new();
    assert_eq!(cpu.run(&mut memory, 0).halt, Halt::StepLimit);
    assert_eq!(cpu, Cpu::new());
}

#[test]
fn a_loop_ends_at_the_step_limit() {
    // jal x0, 0 jumps to itself.
    let mut memory = program(&[0x0000_006F]);
    let mut cpu = Cpu::new();
    assert_eq!(
        cpu.run(&mut memory, 500),
        Report { halt: Halt::StepLimit, steps: 500, unknown: 0 }
    );
    assert_eq!(cpu.pc, 0);
    assert_eq!(cpu.registers[0], 4);
}

#[test]
fn a_jump_is_not_followed_by_the_default_step() {
    // jal x1, 8; addi x2, x0, 1 (skipped); addi x3, x0, 2
    let mut memory = program(&[0x0080_00EF, 0x0010_0113, 0x0020_0193]);
    let mut cpu = Cpu::new();
    assert_eq!(cpu.run(&mut memory, 10).halt, Halt::EndOfImage);
    assert_eq!(cpu.registers[1], 4);
    assert_eq!(cpu.registers[2], 0);
    assert_eq!(cpu.registers[3], 2);
    assert_eq!(cpu.pc, 12);
}

#[test]
fn a_counting_loop() {
    // addi x1, x0, 5; addi x2, x2, 3; addi x1, x1, -1; bne x1, x0, -8
    let mut memory = program(&[0x0050_0093, 0x0031_0113, 0xFFF0_8093, 0xFE00_9CE3]);
    let mut cpu = Cpu::new();
    assert_eq!(cpu.run(&mut memory, 100).halt, Halt::EndOfImage);
    assert_eq!(cpu.registers[1], 0);
    assert_eq!(cpu.registers[2], 15);
    assert_eq!(cpu.pc, 16);
}

#[test]
fn a_program_that_stores_and_loads() {
    // lui x1, 0xDEADC; addi x1, x1, -273; sw x1, 20(x0); lh x2, 20(x0);
    // lbu x3, 23(x0); and one word of data.
    let mut memory = program(&[0xDEAD_C0B7, 0xEEF0_8093, 0x0010_2A23, 0x0140_1103, 0x0170_4183, 0]);
    let mut cpu = Cpu::new();
    assert_eq!(cpu.run(&mut memory, 5).halt, Halt::StepLimit);
    assert_eq!(cpu.registers[1], 0xDEAD_BEEF);
    assert_eq!(cpu.registers[2], 0xFFFF_BEEF);
    assert_eq!(cpu.registers[3], 0xDE);
    assert_eq!(memory.load_word(20), Ok(0xDEAD_BEEF));
    assert_eq!(cpu.pc, 20);
}

#[test]
fn a_run_stops_at_a_bus_fault() {
    // addi x1, x0, 3; lw x2, 0(x1)
    let mut memory = program(&[0x0030_0093, 0x0000_A103, 0x0000_0013]);
    let mut cpu = Cpu::new();
    assert_eq!(
        cpu.run(&mut memory, 10),
        Report {
            halt: Halt::Fault(Fault::Bus(BusError { address: 3, reason: AccessFault::Unaligned })),
            steps: 1,
            unknown: 0,
        }
    );
    assert_eq!(cpu.pc, 4);
    assert_eq!(cpu.registers[1], 3);
    assert_eq!(cpu.registers[2], 0);
}

#[test]
fn a_run_on_an_empty_image_faults_at_the_fetch() {
    let mut memory = Memory::load(Vec::new());
    let mut cpu = Cpu::new();
    assert_eq!(
        cpu.run(&mut memory, 10).halt,
        Halt::Fault(Fault::Bus(BusError { address: 0, reason: AccessFault::OutOfBounds }))
    );
    assert_eq!(cpu, Cpu::new());
}

#[test]
fn a_jump_to_an_odd_halfword_faults_at_the_fetch() {
    // jal x0, 6
    let mut memory = program(&[0x0060_006F, 0x0000_0013, 0x0000_0013]);
    let mut cpu = Cpu::new();
    assert_eq!(
        cpu.run(&mut memory, 10).halt,
        Halt::Fault(Fault::Bus(BusError { address: 6, reason: AccessFault::Unaligned }))
    );
    assert_eq!(cpu.pc, 6);
}
