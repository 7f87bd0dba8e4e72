// The processor: the register file and the program counter, and the loop
// that fetches, decodes and executes.

use vstd::prelude::*;
use crate::dump;
use crate::dump::push_register_entry;
use crate::instruction::{
    sign_extend, BTypeInstruction, BaseInstruction, ITypeInstruction, Instruction,
    STypeInstruction, UnsupportedOpcode,
};
use crate::machine;
use crate::machine::{Fault, Halt, Machine, Report};
use crate::memory::{BusError, Memory};
use crate::word::{
    clear_low_bit, difference, lemma_wrap_as_signed, offset, shift_left, shift_right_arithmetic,
    shift_right_logical, sum, to_signed, to_unsigned, wrap,
};

verus! {

/// The architectural state of the processor. Register 0 is a register like
/// the others: it can be written and keeps what was written.
#[derive(Debug, Clone, PartialEq, Eq)]
pub struct Cpu {
    pub registers: [u32; 32],
    pub pc: u32,
}

/// The low bytes of a word, as remainders.
proof fn lemma_low_bytes(value: u32)
    by (bit_vector)
    ensures
        (value & 0xff) == value % 0x100,
        (value & 0xffff) == value % 0x1_0000,
{
}

impl Cpu {
    /// The machine that this processor and a memory make up.
    pub open spec fn machine(&self, memory: &Memory) -> Machine {
        Machine { registers: self.registers@, pc: self.pc, memory: memory@ }
    }

    /// A processor with every register and the program counter at zero.
    pub fn new() -> (cpu: Self)
        ensures
            cpu.pc == 0,
            cpu.registers@ == Seq::new(32, |i: int| 0u32),
    {
        let cpu = Cpu { registers: [0;32], pc: 0 };
        assert(cpu.registers@ =~= Seq::new(32, |i: int| 0u32));
        cpu
    }

    /// The text of the diagnostic dump: for each register in turn an `R`,
    /// its index, ` : `, its value in decimal and a tab.
    pub fn register_dump(&self) -> (text: Vec<u8>)
        ensures
            text@ == dump::register_dump(self.registers@, 32),
    {
        let mut text: Vec<u8> = Vec::new();
        let mut index: u32 = 0;
        while index < 32
            invariant
                index <= 32,
                text@ == dump::register_dump(self.registers@, index as nat),
            decreases 32 - index,
        {
            push_register_entry(&mut text, index, self.registers[index as usize]);
            index = index + 1;
        }
        text
    }

    /// Reads the word that the program counter points at.
    pub fn fetch(&self, memory: &Memory) -> (result: Result<u32, BusError>)
        ensures
            result == machine::fetch(self.machine(memory)),
    {
        memory.load_word(self.pc as usize)
    }

    /// Decodes a word: sorts it into a shape, then names its operation.
    pub fn decode(&self, instruction: u32) -> (result: Result<Instruction, UnsupportedOpcode>)
        ensures
            result == machine::decode(instruction),
            result matches Ok(op) ==> op.wf(),
    {
        match BaseInstruction::decode_instruction_by_opcode(instruction) {
            Ok(base) => Ok(Instruction::decode_instruction_funct3_funct7(base)),
            Err(error) => Err(error),
        }
    }

    /// Writes a result to its register and says that the next fetch is due
    /// at the next word. The program counter stays where it is.
    fn retire(&mut self, rd: u8, value: u32) -> (next_pc: u32)
        requires
            rd < 32,
        ensures
            final(self).registers@ == old(self).registers@.update(rd as int, value),
            final(self).pc == old(self).pc,
            next_pc == wrap(old(self).pc + 4),
    {
        self.registers[rd as usize] = value;
        sum(self.pc, 4)
    }

    /// Loads one, two or four bytes into a register, extended by their sign
    /// or by zeros.
    fn load(&mut self, i: ITypeInstruction, memory: &Memory, width: u8, signed: bool) -> (result:
        Result<u32, BusError>)
        requires
            i.wf(),
            width == 1 || width == 2 || width == 4,
            width == 4 ==> !signed,
        ensures
            machine::load(old(self).machine(memory), i, width as nat, signed) == match result {
                Ok(next_pc) => Ok((final(self).machine(memory), next_pc)),
                Err(error) => Err(error),
            },
            result is Err ==> *final(self) == *old(self),
    {
        let address: usize = offset(self.registers[i.rs1 as usize], i.imm) as usize;
        let loaded = if width == 1 {
            memory.load_byte(address)
        } else if width == 2 {
            memory.load_halfword(address)
        } else {
            memory.load_word(address)
        };
        match loaded {
            Ok(read) => {
                let value: u32 = if signed {
                    sign_extend(read, 8 * width)
                } else {
                    read
                };
                proof {
                    lemma_wrap_as_signed(value);
                }
                Ok(self.retire(i.rd, value))
            },
            Err(error) => Err(error),
        }
    }

    /// Stores the low one, two or four bytes of a register.
    fn store(&self, s: STypeInstruction, memory: &mut Memory, width: u8) -> (result: Result<
        u32,
        BusError,
    >)
        requires
            s.wf(),
            width == 1 || width == 2 || width == 4,
        ensures
            machine::store(self.machine(old(memory)), s, width as nat) == match result {
                Ok(next_pc) => Ok((self.machine(final(memory)), next_pc)),
                Err(error) => Err(error),
            },
            result is Err ==> final(memory)@ == old(memory)@,
    {
        let address: usize = offset(self.registers[s.rs1 as usize], s.imm) as usize;
        let value: u32 = self.registers[s.rs2 as usize];
        proof {
            lemma_low_bytes(value);
        }
        let stored = if width == 1 {
            memory.store_byte(address, (value & 0xff) as u8)
        } else if width == 2 {
            memory.store_halfword(address, (value & 0xffff) as u16)
        } else {
            memory.store_word(address, value)
        };
        match stored {
            Ok(_) => Ok(sum(self.pc, 4)),
            Err(error) => Err(error),
        }
    }

    /// Moves the program counter by the displacement of a branch that is
    /// taken and leaves it where a branch is not taken, and says where the
    /// next fetch is due.
    fn branch(&mut self, b: BTypeInstruction, taken: bool) -> (next_pc: u32)
        ensures
            final(self).registers == old(self).registers,
            final(self).pc == if taken {
                wrap(old(self).pc + b.imm)
            } else {
                old(self).pc
            },
            next_pc == if taken {
                wrap(old(self).pc + b.imm)
            } else {
                wrap(old(self).pc + 4)
            },
    {
        if taken {
            self.pc = offset(self.pc, b.imm);
            self.pc
        } else {
            sum(self.pc, 4)
        }
    }

    /// Applies one operation to the registers, the program counter and the
    /// memory, and returns the address at which the next fetch is due. Only
    /// a jump and a branch that is taken move the program counter; after
    /// every other operation it is where it was, and the next fetch is due
    /// at the next word. A load or a store that the memory refuses changes
    /// nothing, and `Unknown` changes nothing either.
    pub fn execute(&mut self, instruction: Instruction, memory: &mut Memory) -> (result: Result<
        u32,
        BusError,
    >)
        requires
            instruction.wf(),
        ensures
            machine::execute(instruction, old(self).machine(old(memory))) == match result {
                Ok(next_pc) => Ok((final(self).machine(final(memory)), next_pc)),
                Err(error) => Err(error),
            },
            result is Err ==> *final(self) == *old(self) && final(memory)@ == old(memory)@,
    {
        match instruction {
            Instruction::Lui(u) => Ok(self.retire(u.rd, to_unsigned(u.imm))),
            Instruction::Auipc(u) => {
                let value: u32 = offset(self.pc, u.imm);
                Ok(self.retire(u.rd, value))
            },
            Instruction::Jal(j) => {
                let link: u32 = sum(self.pc, 4);
                self.pc = offset(self.pc, j.imm);
                self.registers[j.rd as usize] = link;
                Ok(self.pc)
            },
            Instruction::Jalr(i) => {
                let link: u32 = sum(self.pc, 4);
                let target: u32 = offset(self.registers[i.rs1 as usize], i.imm);
                self.pc = clear_low_bit(target);
                self.registers[i.rd as usize] = link;
                Ok(self.pc)
            },
            Instruction::Lb(i) => self.load(i, memory, 1, true),
            Instruction::Lh(i) => self.load(i, memory, 2, true),
            Instruction::Lw(i) => self.load(i, memory, 4, false),
            Instruction::Lbu(i) => self.load(i, memory, 1, false),
            Instruction::Lhu(i) => self.load(i, memory, 2, false),
            Instruction::Addi(i) => {
                let value: u32 = offset(self.registers[i.rs1 as usize], i.imm);
                Ok(self.retire(i.rd, value))
            },
            Instruction::Slti(i) => {
                let value: u32 = if to_signed(self.registers[i.rs1 as usize]) < i.imm {
                    1
                } else {
                    0
                };
                Ok(self.retire(i.rd, value))
            },
            Instruction::Sltiu(i) => {
                let value: u32 = if self.registers[i.rs1 as usize] < to_unsigned(i.imm) {
                    1
                } else {
                    0
                };
                Ok(self.retire(i.rd, value))
            },
            Instruction::Xori(i) => {
                let value: u32 = self.registers[i.rs1 as usize] ^ to_unsigned(i.imm);
                Ok(self.retire(i.rd, value))
            },
            Instruction::Ori(i) => {
                let value: u32 = self.registers[i.rs1 as usize] | to_unsigned(i.imm);
                Ok(self.retire(i.rd, value))
            },
            Instruction::Andi(i) => {
                let value: u32 = self.registers[i.rs1 as usize] & to_unsigned(i.imm);
                Ok(self.retire(i.rd, value))
            },
            Instruction::Slli(i) => {
                let value: u32 = shift_left(self.registers[i.rs1 as usize], to_unsigned(i.imm));
                Ok(self.retire(i.rd, value))
            },
            Instruction::Srli(i) => {
                let value: u32 = shift_right_logical(
                    self.registers[i.rs1 as usize],
                    to_unsigned(i.imm),
                );
                Ok(self.retire(i.rd, value))
            },
            Instruction::Srai(i) => {
                let value: u32 = shift_right_arithmetic(
                    self.registers[i.rs1 as usize],
                    to_unsigned(i.imm),
                );
                Ok(self.retire(i.rd, value))
            },
            Instruction::Sb(s) => self.store(s, memory, 1),
            Instruction::Sh(s) => self.store(s, memory, 2),
            Instruction::Sw(s) => self.store(s, memory, 4),
            Instruction::Beq(b) => {
                let taken: bool = self.registers[b.rs1 as usize] == self.registers[b.rs2 as usize];
                Ok(self.branch(b, taken))
            },
            Instruction::Bne(b) => {
                let taken: bool = self.registers[b.rs1 as usize] != self.registers[b.rs2 as usize];
                Ok(self.branch(b, taken))
            },
            Instruction::Blt(b) => {
                let taken: bool = to_signed(self.registers[b.rs1 as usize]) < to_signed(
                    self.registers[b.rs2 as usize],
                );
                Ok(self.branch(b, taken))
            },
            Instruction::Bge(b) => {
                let taken: bool = to_signed(self.registers[b.rs1 as usize]) >= to_signed(
                    self.registers[b.rs2 as usize],
                );
                Ok(self.branch(b, taken))
            },
            Instruction::Bltu(b) => {
                let taken: bool = self.registers[b.rs1 as usize] < self.registers[b.rs2 as usize];
                Ok(self.branch(b, taken))
            },
            Instruction::Bgeu(b) => {
                let taken: bool = self.registers[b.rs1 as usize] >= self.registers[b.rs2 as usize];
                Ok(self.branch(b, taken))
            },
            Instruction::Add(r) => {
                let value: u32 = sum(
                    self.registers[r.rs1 as usize],
                    self.registers[r.rs2 as usize],
                );
                Ok(self.retire(r.rd, value))
            },
            Instruction::Sub(r) => {
                let value: u32 = difference(
                    self.registers[r.rs1 as usize],
                    self.registers[r.rs2 as usize],
                );
                Ok(self.retire(r.rd, value))
            },
            Instruction::Sll(r) => {
                let value: u32 = shift_left(
                    self.registers[r.rs1 as usize],
                    self.registers[r.rs2 as usize],
                );
                Ok(self.retire(r.rd, value))
            },
            Instruction::Slt(r) => {
                let value: u32 = if to_signed(self.registers[r.rs1 as usize]) < to_signed(
                    self.registers[r.rs2 as usize],
                ) {
                    1
                } else {
                    0
                };
                Ok(self.retire(r.rd, value))
            },
            Instruction::Sltu(r) => {
                let value: u32 = if self.registers[r.rs1 as usize] < self.registers[r.rs2 as usize] {
                    1
                } else {
                    0
                };
                Ok(self.retire(r.rd, value))
            },
            Instruction::Xor(r) => {
                let value: u32 = self.registers[r.rs1 as usize] ^ self.registers[r.rs2 as usize];
                Ok(self.retire(r.rd, value))
            },
            Instruction::Srl(r) => {
                let value: u32 = shift_right_logical(
                    self.registers[r.rs1 as usize],
                    self.registers[r.rs2 as usize],
                );
                Ok(self.retire(r.rd, value))
            },
            Instruction::Sra(r) => {
                let value: u32 = shift_right_arithmetic(
                    self.registers[r.rs1 as usize],
                    self.registers[r.rs2 as usize],
                );
                Ok(self.retire(r.rd, value))
            },
            Instruction::Or(r) => {
                let value: u32 = self.registers[r.rs1 as usize] | self.registers[r.rs2 as usize];
                Ok(self.retire(r.rd, value))
            },
            Instruction::And(r) => {
                let value: u32 = self.registers[r.rs1 as usize] & self.registers[r.rs2 as usize];
                Ok(self.retire(r.rd, value))
            },
            Instruction::Unknown => Ok(sum(self.pc, 4)),
        }
    }

    /// Takes one step: fetches the word at the program counter, decodes it,
    /// executes it and sets the program counter to where the next fetch is
    /// due. Returns the operation that was executed. A fault leaves the
    /// processor and the memory as they were.
    pub fn step(&mut self, memory: &mut Memory) -> (result: Result<Instruction, Fault>)
        ensures
            machine::step(old(self).machine(old(memory))) == match result {
                Ok(_) => Ok(final(self).machine(final(memory))),
                Err(fault) => Err(fault),
            },
            result matches Ok(op) ==> machine::fetch(old(self).machine(old(memory))) matches Ok(
                word,
            ) && machine::decode(word) == Ok::<Instruction, UnsupportedOpcode>(op),
            result is Err ==> *final(self) == *old(self) && final(memory)@ == old(memory)@,
    {
        let word: u32 = match self.fetch(memory) {
            Ok(word) => word,
            Err(error) => {
                return Err(Fault::Bus(error));
            },
        };
        let op: Instruction = match self.decode(word) {
            Ok(op) => op,
            Err(error) => {
                return Err(Fault::Unsupported(error));
            },
        };
        match self.execute(op, memory) {
            Ok(next_pc) => {
                self.pc = next_pc;
                Ok(op)
            },
            Err(error) => Err(Fault::Bus(error)),
        }
    }

    /// Steps until the program counter reaches or passes the end of the
    /// image, a step faults, or `max_steps` steps have been taken. Reports
    /// which of the three ended the run, the number of steps taken, and the
    /// number of them that executed an operation that the function codes do
    /// not name. The first step is taken wherever the program counter
    /// stands.
    pub fn run(&mut self, memory: &mut Memory, max_steps: u64) -> (report: Report)
        ensures
            (final(self).machine(final(memory)), report.halt) == machine::run(
                old(self).machine(old(memory)),
                max_steps as nat,
            ),
            report.steps == machine::steps_taken(old(self).machine(old(memory)), max_steps as nat),
            report.unknown == machine::unknown_seen(
                old(self).machine(old(memory)),
                max_steps as nat,
            ),
    {
        let ghost start = self.machine(memory);
        let mut steps: u64 = 0;
        let mut unknown: u64 = 0;
        loop
            invariant
                start == old(self).machine(old(memory)),
                unknown <= steps <= max_steps,
                machine::run(start, max_steps as nat) == machine::run(
                    self.machine(memory),
                    (max_steps - steps) as nat,
                ),
                machine::steps_taken(start, max_steps as nat) == steps + machine::steps_taken(
                    self.machine(memory),
                    (max_steps - steps) as nat,
                ),
                machine::unknown_seen(start, max_steps as nat) == unknown + machine::unknown_seen(
                    self.machine(memory),
                    (max_steps - steps) as nat,
                ),
            decreases max_steps - steps,
        {
            if steps == max_steps {
                return Report { halt: Halt::StepLimit, steps, unknown };
            }
            match self.step(memory) {
                Ok(Instruction::Unknown) => {
                    unknown = unknown + 1;
                },
                Ok(_) => {},
                Err(fault) => {
                    return Report { halt: Halt::Fault(fault), steps, unknown };
                },
            }
            steps = steps + 1;
            if self.pc as usize >= memory.size() {
                return Report { halt: Halt::EndOfImage, steps, unknown };
            }
        }
    }
}

} // verus!
