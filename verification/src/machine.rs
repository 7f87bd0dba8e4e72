// The machine as a mathematical value, what each operation does to it, and
// what follows from that.

use vstd::prelude::*;
use vstd::arithmetic::power2::lemma2_to64;
use crate::instruction::{
    bit_field, classify, lemma_resolve_wf, opcode_of, resolve, BTypeInstruction, ITypeInstruction,
    Instruction, RTypeInstruction, STypeInstruction, UnsupportedOpcode,
};
use crate::memory::{
    access_check, half_at, lemma_half_round_trip, lemma_word_round_trip, with_half, with_word,
    word_at, BusError,
};
use crate::word::{
    as_signed, lemma_twos_complement_even, lemma_twos_complement_range, shifted_left,
    shifted_right, shifted_right_signed, twos_complement, wrap,
};

verus! {

/// The state that instructions act on: the register file, the program
/// counter and the memory image.
pub struct Machine {
    pub registers: Seq<u32>,
    pub pc: u32,
    pub memory: Seq<u8>,
}

/// Why a step could not be taken.
#[derive(Debug, Clone, Copy, PartialEq, Eq)]
pub enum Fault {
    /// The fetch, a load or a store was refused by the memory.
    Bus(BusError),
    /// The fetched word carries an opcode that names no supported encoding.
    Unsupported(UnsupportedOpcode),
}

/// Why a run ended.
#[derive(Debug, Clone, Copy, PartialEq, Eq)]
pub enum Halt {
    /// The program counter reached or passed the end of the image.
    EndOfImage,
    /// The step budget was used up first.
    StepLimit,
    /// A step could not be taken; the state is as that step found it.
    Fault(Fault),
}

/// What a run did: why it ended, how many steps it took, and how many of
/// them executed an operation that the function codes do not name.
#[derive(Debug, Clone, Copy, PartialEq, Eq)]
pub struct Report {
    pub halt: Halt,
    pub steps: u64,
    pub unknown: u64,
}

impl Machine {
    /// There are 32 registers.
    pub open spec fn wf(self) -> bool {
        self.registers.len() == 32
    }

    /// The value of a register.
    pub open spec fn reg(self, index: u8) -> u32 {
        self.registers[index as int]
    }

    /// The machine with the program counter set to `pc`.
    pub open spec fn at(self, pc: u32) -> Machine {
        Machine { pc, ..self }
    }

    /// The machine left as it is, and the next word as the place of the
    /// next fetch.
    pub open spec fn falls_through(self) -> (Machine, u32) {
        (self, wrap(self.pc + 4))
    }

    /// The machine with the program counter set to `target`, and `target`
    /// as the place of the next fetch.
    pub open spec fn jumps(self, target: u32) -> (Machine, u32) {
        (self.at(target), target)
    }

    /// The machine with `value` in register `rd`. Register 0 is written like
    /// any other.
    pub open spec fn write(self, rd: u8, value: u32) -> Machine {
        Machine { registers: self.registers.update(rd as int, value), ..self }
    }

    /// The machine with `value` in register `rd` and the program counter
    /// left where it is, and the next word as the place of the next fetch.
    pub open spec fn retire(self, rd: u8, value: u32) -> (Machine, u32) {
        self.write(rd, value).falls_through()
    }

    /// The machine with another memory image.
    pub open spec fn with_memory(self, memory: Seq<u8>) -> Machine {
        Machine { memory, ..self }
    }

    /// The address that a base register and a displacement name.
    pub open spec fn effective_address(self, rs1: u8, imm: i32) -> usize {
        wrap(self.reg(rs1) + imm) as usize
    }
}

/// One for true, zero for false.
pub open spec fn flag(condition: bool) -> u32 {
    if condition {
        1
    } else {
        0
    }
}

/// A load of `width` bytes: the value read from the effective address,
/// extended by its sign or by zeros, goes to `rd`, and the next fetch is due
/// at the next word; a refused access changes nothing.
pub open spec fn load(m: Machine, i: ITypeInstruction, width: nat, signed: bool) -> Result<
    (Machine, u32),
    BusError,
> {
    let address = m.effective_address(i.rs1, i.imm);
    let read = if width == 1 {
        m.memory[address as int] as int
    } else if width == 2 {
        half_at(m.memory, address as int)
    } else {
        word_at(m.memory, address as int)
    };
    let value = if signed {
        wrap(twos_complement(read, 8 * width))
    } else {
        read as u32
    };
    match access_check(m.memory.len(), address, width as int) {
        Ok(_) => Ok(m.retire(i.rd, value)),
        Err(error) => Err(error),
    }
}

/// A store of `width` bytes: the low bytes of `rs2` go to the effective
/// address, least significant first, and the next fetch is due at the next
/// word; a refused access changes nothing.
pub open spec fn store(m: Machine, s: STypeInstruction, width: nat) -> Result<
    (Machine, u32),
    BusError,
> {
    let address = m.effective_address(s.rs1, s.imm);
    let value = m.reg(s.rs2);
    let memory = if width == 1 {
        m.memory.update(address as int, (value % 0x100) as u8)
    } else if width == 2 {
        with_half(m.memory, address as int, (value % 0x1_0000) as u16)
    } else {
        with_word(m.memory, address as int, value)
    };
    match access_check(m.memory.len(), address, width as int) {
        Ok(_) => Ok(m.with_memory(memory).falls_through()),
        Err(error) => Err(error),
    }
}

/// A branch: where the condition holds, the program counter moves by the
/// displacement; where it does not, the program counter stays and the next
/// fetch is due at the next word.
pub open spec fn branch(m: Machine, b: BTypeInstruction, taken: bool) -> (Machine, u32) {
    if taken {
        m.jumps(wrap(m.pc + b.imm))
    } else {
        m.falls_through()
    }
}

/// What an operation does to the machine, and where the next fetch is due.
/// Arithmetic is modulo 2^32. Only a jump and a branch that is taken move
/// the program counter, and the next fetch is due where they moved it; after
/// every other operation the program counter is where it was and the next
/// fetch is due at the next word. `Unknown` changes nothing at all.
pub open spec fn execute(op: Instruction, m: Machine) -> Result<(Machine, u32), BusError> {
    match op {
        Instruction::Add(r) => Ok(m.retire(r.rd, wrap(m.reg(r.rs1) + m.reg(r.rs2)))),
        Instruction::Sub(r) => Ok(m.retire(r.rd, wrap(m.reg(r.rs1) - m.reg(r.rs2)))),
        Instruction::Sll(r) => Ok(m.retire(r.rd, shifted_left(m.reg(r.rs1), m.reg(r.rs2) as int))),
        Instruction::Slt(r) => Ok(
            m.retire(r.rd, flag(as_signed(m.reg(r.rs1)) < as_signed(m.reg(r.rs2)))),
        ),
        Instruction::Sltu(r) => Ok(m.retire(r.rd, flag(m.reg(r.rs1) < m.reg(r.rs2)))),
        Instruction::Xor(r) => Ok(m.retire(r.rd, m.reg(r.rs1) ^ m.reg(r.rs2))),
        Instruction::Srl(r) => Ok(
            m.retire(r.rd, shifted_right(m.reg(r.rs1), m.reg(r.rs2) as int)),
        ),
        Instruction::Sra(r) => Ok(
            m.retire(r.rd, shifted_right_signed(m.reg(r.rs1), m.reg(r.rs2) as int)),
        ),
        Instruction::Or(r) => Ok(m.retire(r.rd, m.reg(r.rs1) | m.reg(r.rs2))),
        Instruction::And(r) => Ok(m.retire(r.rd, m.reg(r.rs1) & m.reg(r.rs2))),
        Instruction::Addi(i) => Ok(m.retire(i.rd, wrap(m.reg(i.rs1) + i.imm))),
        Instruction::Slti(i) => Ok(m.retire(i.rd, flag(as_signed(m.reg(i.rs1)) < i.imm))),
        Instruction::Sltiu(i) => Ok(m.retire(i.rd, flag(m.reg(i.rs1) < wrap(i.imm as int)))),
        Instruction::Xori(i) => Ok(m.retire(i.rd, m.reg(i.rs1) ^ wrap(i.imm as int))),
        Instruction::Ori(i) => Ok(m.retire(i.rd, m.reg(i.rs1) | wrap(i.imm as int))),
        Instruction::Andi(i) => Ok(m.retire(i.rd, m.reg(i.rs1) & wrap(i.imm as int))),
        Instruction::Slli(i) => Ok(m.retire(i.rd, shifted_left(m.reg(i.rs1), i.imm as int))),
        Instruction::Srli(i) => Ok(m.retire(i.rd, shifted_right(m.reg(i.rs1), i.imm as int))),
        Instruction::Srai(i) => Ok(
            m.retire(i.rd, shifted_right_signed(m.reg(i.rs1), i.imm as int)),
        ),
        Instruction::Lb(i) => load(m, i, 1, true),
        Instruction::Lh(i) => load(m, i, 2, true),
        Instruction::Lw(i) => load(m, i, 4, false),
        Instruction::Lbu(i) => load(m, i, 1, false),
        Instruction::Lhu(i) => load(m, i, 2, false),
        Instruction::Jalr(i) => {
            let target = wrap(m.reg(i.rs1) + i.imm);
            Ok(m.write(i.rd, wrap(m.pc + 4)).jumps((target - target % 2) as u32))
        },
        Instruction::Sb(s) => store(m, s, 1),
        Instruction::Sh(s) => store(m, s, 2),
        Instruction::Sw(s) => store(m, s, 4),
        Instruction::Beq(b) => Ok(branch(m, b, m.reg(b.rs1) == m.reg(b.rs2))),
        Instruction::Bne(b) => Ok(branch(m, b, m.reg(b.rs1) != m.reg(b.rs2))),
        Instruction::Blt(b) => Ok(branch(m, b, as_signed(m.reg(b.rs1)) < as_signed(m.reg(b.rs2)))),
        Instruction::Bge(b) => Ok(
            branch(m, b, as_signed(m.reg(b.rs1)) >= as_signed(m.reg(b.rs2))),
        ),
        Instruction::Bltu(b) => Ok(branch(m, b, m.reg(b.rs1) < m.reg(b.rs2))),
        Instruction::Bgeu(b) => Ok(branch(m, b, m.reg(b.rs1) >= m.reg(b.rs2))),
        Instruction::Lui(u) => Ok(m.retire(u.rd, wrap(u.imm as int))),
        Instruction::Auipc(u) => Ok(m.retire(u.rd, wrap(m.pc + u.imm))),
        Instruction::Jal(j) => Ok(m.write(j.rd, wrap(m.pc + 4)).jumps(wrap(m.pc + j.imm))),
        Instruction::Unknown => Ok(m.falls_through()),
    }
}

/// The word that the program counter points at.
pub open spec fn fetch(m: Machine) -> Result<u32, BusError> {
    match access_check(m.memory.len(), m.pc as usize, 4) {
        Ok(_) => Ok(word_at(m.memory, m.pc as int) as u32),
        Err(error) => Err(error),
    }
}

/// The operation that a word encodes.
pub open spec fn decode(word: u32) -> Result<Instruction, UnsupportedOpcode> {
    match classify(word) {
        Ok(base) => Ok(resolve(base)),
        Err(error) => Err(error),
    }
}

/// One step: fetch at the program counter, decode, execute, and set the
/// program counter to where the next fetch is due. A fault leaves the
/// machine as it was.
pub open spec fn step(m: Machine) -> Result<Machine, Fault> {
    match fetch(m) {
        Err(error) => Err(Fault::Bus(error)),
        Ok(word) => match decode(word) {
            Err(error) => Err(Fault::Unsupported(error)),
            Ok(op) => match execute(op, m) {
                Err(error) => Err(Fault::Bus(error)),
                Ok((after, next_pc)) => Ok(after.at(next_pc)),
            },
        },
    }
}

/// Whether the step that a machine takes executes an operation that the
/// function codes do not name.
pub open spec fn steps_over_unknown(m: Machine) -> bool {
    &&& step(m) is Ok
    &&& fetch(m) matches Ok(word)
    &&& decode(word) == Ok::<Instruction, UnsupportedOpcode>(Instruction::Unknown)
}

/// A run of at most `budget` steps: step until the program counter reaches
/// or passes the end of the image, a step faults, or the budget is used up.
/// The first step is taken wherever the program counter stands.
pub open spec fn run(m: Machine, budget: nat) -> (Machine, Halt)
    decreases budget,
{
    if budget == 0 {
        (m, Halt::StepLimit)
    } else {
        match step(m) {
            Err(fault) => (m, Halt::Fault(fault)),
            Ok(next) => if next.pc >= next.memory.len() {
                (next, Halt::EndOfImage)
            } else {
                run(next, (budget - 1) as nat)
            },
        }
    }
}

/// The number of steps that a run takes.
pub open spec fn steps_taken(m: Machine, budget: nat) -> nat
    decreases budget,
{
    if budget == 0 {
        0
    } else {
        match step(m) {
            Err(_) => 0,
            Ok(next) => if next.pc >= next.memory.len() {
                1
            } else {
                1 + steps_taken(next, (budget - 1) as nat)
            },
        }
    }
}

/// The number of steps of a run that execute an operation that the function
/// codes do not name.
pub open spec fn unknown_seen(m: Machine, budget: nat) -> nat
    decreases budget,
{
    if budget == 0 {
        0
    } else {
        match step(m) {
            Err(_) => 0,
            Ok(next) => {
                let here: nat = if steps_over_unknown(m) {
                    1
                } else {
                    0
                };
                if next.pc >= next.memory.len() {
                    here
                } else {
                    here + unknown_seen(next, (budget - 1) as nat)
                }
            },
        }
    }
}

/// Every operation leaves 32 registers and an image of the same size.
pub proof fn lemma_execute_keeps_shape(op: Instruction, m: Machine)
    requires
        m.wf(),
        op.wf(),
    ensures
        execute(op, m) matches Ok((after, _)) ==> after.wf() && after.memory.len()
            == m.memory.len(),
{
}

/// The register that an operation writes, if it writes one.
pub open spec fn destination(op: Instruction) -> Option<u8> {
    match op {
        Instruction::Add(r)
        | Instruction::Sub(r)
        | Instruction::Sll(r)
        | Instruction::Slt(r)
        | Instruction::Sltu(r)
        | Instruction::Xor(r)
        | Instruction::Srl(r)
        | Instruction::Sra(r)
        | Instruction::Or(r)
        | Instruction::And(r) => Some(r.rd),
        Instruction::Addi(i)
        | Instruction::Slti(i)
        | Instruction::Sltiu(i)
        | Instruction::Xori(i)
        | Instruction::Ori(i)
        | Instruction::Andi(i)
        | Instruction::Slli(i)
        | Instruction::Srli(i)
        | Instruction::Srai(i)
        | Instruction::Lb(i)
        | Instruction::Lh(i)
        | Instruction::Lw(i)
        | Instruction::Lbu(i)
        | Instruction::Lhu(i)
        | Instruction::Jalr(i) => Some(i.rd),
        Instruction::Lui(u) | Instruction::Auipc(u) => Some(u.rd),
        Instruction::Jal(j) => Some(j.rd),
        Instruction::Sb(_)
        | Instruction::Sh(_)
        | Instruction::Sw(_)
        | Instruction::Beq(_)
        | Instruction::Bne(_)
        | Instruction::Blt(_)
        | Instruction::Bge(_)
        | Instruction::Bltu(_)
        | Instruction::Bgeu(_)
        | Instruction::Unknown => None,
    }
}

/// Whether an operation is a jump or a branch.
pub open spec fn is_control_transfer(op: Instruction) -> bool {
    ||| op is Jal
    ||| op is Jalr
    ||| op is Beq
    ||| op is Bne
    ||| op is Blt
    ||| op is Bge
    ||| op is Bltu
    ||| op is Bgeu
}

/// The program counter moves only on a jump or a branch that is taken. An
/// operation that is neither a jump nor a branch leaves it where it was, and
/// the next fetch is due at the next word; a jump or a branch either does
/// the same or moves it to where the next fetch is due.
pub proof fn lemma_program_counter(op: Instruction, m: Machine)
    ensures
        execute(op, m) matches Ok((after, next_pc)) ==> {
            ||| after.pc == m.pc && next_pc == wrap(m.pc + 4)
            ||| is_control_transfer(op) && after.pc == next_pc
        },
{
}

/// An operation changes no register but its destination, and only a store
/// changes the memory.
pub proof fn lemma_effects(op: Instruction, m: Machine)
    requires
        m.wf(),
        op.wf(),
    ensures
        execute(op, m) matches Ok((after, _)) ==> {
            &&& forall|i: int|
                0 <= i < 32 && destination(op) != Some(i as u8) ==> after.registers[i]
                    == m.registers[i]
            &&& !(op is Sb || op is Sh || op is Sw) ==> after.memory == m.memory
        },
{
}

/// Every word that decodes gives an operation whose fields satisfy the
/// invariant of their shape.
pub proof fn lemma_decode_wf(word: u32)
    ensures
        decode(word) matches Ok(op) ==> op.wf(),
{
    lemma2_to64();
    if classify(word) is Ok {
        let raw_b = 0x1000 * bit_field(word, 31, 1) + 0x800 * bit_field(word, 7, 1)
            + 0x20 * bit_field(word, 25, 6) + 2 * bit_field(word, 8, 4);
        let raw_j = 0x10_0000 * bit_field(word, 31, 1) + 0x1000 * bit_field(word, 12, 8)
            + 0x800 * bit_field(word, 20, 1) + 2 * bit_field(word, 21, 10);
        lemma_twos_complement_even(raw_b, 13);
        lemma_twos_complement_range(raw_b, 13);
        lemma_twos_complement_even(raw_j, 21);
        lemma_twos_complement_range(raw_j, 21);
        lemma_resolve_wf(classify(word)->Ok_0);
    }
}

/// A step leaves 32 registers and an image of the same size.
pub proof fn lemma_step_keeps_shape(m: Machine)
    requires
        m.wf(),
    ensures
        step(m) matches Ok(next) ==> next.wf() && next.memory.len() == m.memory.len(),
{
    match fetch(m) {
        Ok(word) => {
            lemma_decode_wf(word);
            match decode(word) {
                Ok(op) => {
                    lemma_execute_keeps_shape(op, m);
                },
                Err(_) => {},
            }
        },
        Err(_) => {},
    }
}

/// Where a run ends. At the end of the image the program counter is at or
/// past the size of the image; at a fault the machine is one that cannot
/// step, and the fault is the one that its step gives. The image keeps its
/// size throughout.
pub proof fn lemma_run_end(m: Machine, budget: nat)
    requires
        m.wf(),
    ensures
        run(m, budget).0.wf(),
        run(m, budget).0.memory.len() == m.memory.len(),
        run(m, budget).1 is EndOfImage ==> run(m, budget).0.pc >= m.memory.len(),
        run(m, budget).1 matches Halt::Fault(fault) ==> step(run(m, budget).0) == Err::<
            Machine,
            Fault,
        >(fault),
    decreases budget,
{
    if budget > 0 {
        lemma_step_keeps_shape(m);
        match step(m) {
            Ok(next) => {
                if next.pc < next.memory.len() {
                    lemma_run_end(next, (budget - 1) as nat);
                }
            },
            Err(_) => {},
        }
    }
}

/// A run takes no more steps than its budget, and all of its budget where
/// the budget ends it; the steps over unknown operations are among them.
pub proof fn lemma_run_counts(m: Machine, budget: nat)
    ensures
        unknown_seen(m, budget) <= steps_taken(m, budget) <= budget,
        run(m, budget).1 is StepLimit ==> steps_taken(m, budget) == budget,
    decreases budget,
{
    if budget > 0 {
        match step(m) {
            Ok(next) => {
                if next.pc < next.memory.len() {
                    lemma_run_counts(next, (budget - 1) as nat);
                }
            },
            Err(_) => {},
        }
    }
}

/// A larger budget does not change a run that ended for another reason than
/// the budget.
pub proof fn lemma_run_budget(m: Machine, budget: nat, more: nat)
    requires
        budget <= more,
        !(run(m, budget).1 is StepLimit),
    ensures
        run(m, more) == run(m, budget),
        steps_taken(m, more) == steps_taken(m, budget),
        unknown_seen(m, more) == unknown_seen(m, budget),
    decreases budget,
{
    if budget > 0 {
        match step(m) {
            Ok(next) => {
                if next.pc < next.memory.len() {
                    lemma_run_budget(next, (budget - 1) as nat, (more - 1) as nat);
                }
            },
            Err(_) => {},
        }
    }
}

/// The bitwise operations do not depend on the order of their operands.
proof fn lemma_bitwise_commute(a: u32, b: u32)
    by (bit_vector)
    ensures
        a ^ b == b ^ a && a | b == b | a && a & b == b & a,
{
}

/// The fields of an operation on two registers with the two source
/// registers exchanged.
pub open spec fn swapped(r: RTypeInstruction) -> RTypeInstruction {
    RTypeInstruction { rs1: r.rs2, rs2: r.rs1, ..r }
}

/// Addition and the bitwise operations do not depend on the order of their
/// source registers.
pub proof fn lemma_commutative_operations(m: Machine, r: RTypeInstruction)
    ensures
        execute(Instruction::Add(swapped(r)), m) == execute(Instruction::Add(r), m),
        execute(Instruction::Xor(swapped(r)), m) == execute(Instruction::Xor(r), m),
        execute(Instruction::Or(swapped(r)), m) == execute(Instruction::Or(r), m),
        execute(Instruction::And(swapped(r)), m) == execute(Instruction::And(r), m),
{
    lemma_bitwise_commute(m.reg(r.rs1), m.reg(r.rs2));
}

/// A branch on equality changes neither the registers nor the memory. Where
/// the two registers are equal it moves the program counter by its
/// displacement, and the next fetch is due there; where they differ it
/// leaves the program counter, and the next fetch is due at the next word.
pub proof fn lemma_branch_on_equal(m: Machine, b: BTypeInstruction)
    ensures
        execute(Instruction::Beq(b), m) == Ok::<(Machine, u32), BusError>(
            if m.reg(b.rs1) == m.reg(b.rs2) {
                (m.at(wrap(m.pc + b.imm)), wrap(m.pc + b.imm))
            } else {
                (m, wrap(m.pc + 4))
            },
        ),
{
}

/// An operation that the function codes do not name changes nothing: the
/// registers, the program counter and the memory are as they were.
/// Execution goes on at the next word.
pub proof fn lemma_unknown_operation(m: Machine)
    ensures
        execute(Instruction::Unknown, m) == Ok::<(Machine, u32), BusError>(
            (m, wrap(m.pc + 4)),
        ),
{
}

/// A word whose opcode names no supported encoding ends the step with a
/// fault that carries the opcode. A step that faults gives no next machine:
/// nothing changes.
pub proof fn lemma_unsupported_opcode(m: Machine, word: u32)
    requires
        fetch(m) == Ok::<u32, BusError>(word),
        classify(word) is Err,
    ensures
        step(m) == Err::<Machine, Fault>(
            Fault::Unsupported(UnsupportedOpcode { opcode: opcode_of(word) as u8 }),
        ),
{
}

/// The low `width` bytes of a word, as a number.
pub open spec fn low_bytes(value: u32, width: nat) -> int {
    if width == 1 {
        value as int % 0x100
    } else if width == 2 {
        value as int % 0x1_0000
    } else {
        value as int
    }
}

/// What was stored is loaded back. After a store of `width` bytes, an
/// unsigned load of the same width through the same base register and
/// displacement succeeds and puts the low `width` bytes of the stored
/// register into its destination.
pub proof fn lemma_store_then_load(
    m: Machine,
    s: STypeInstruction,
    i: ITypeInstruction,
    width: nat,
)
    requires
        m.wf(),
        s.wf(),
        i.wf(),
        width == 1 || width == 2 || width == 4,
        i.rs1 == s.rs1,
        i.imm == s.imm,
        store(m, s, width) is Ok,
    ensures
        load(store(m, s, width)->Ok_0.0, i, width, false) matches Ok((loaded, _))
            && loaded.reg(i.rd) == low_bytes(m.reg(s.rs2), width),
{
    let address = m.effective_address(s.rs1, s.imm) as int;
    let value = m.reg(s.rs2);
    if width == 2 {
        lemma_half_round_trip(m.memory, address, (value % 0x1_0000) as u16);
    } else if width == 4 {
        lemma_word_round_trip(m.memory, address, value);
    }
}

} // verus!
