// A simulator for a reduced integer subset of a 32-bit load/store
// architecture. An instruction word is fetched from a flat memory image,
// sorted by its opcode into one of six shapes, resolved to a named operation
// and executed against 32 registers, a program counter and the memory.
//
// `word` states the arithmetic of 32-bit words over the integers,
// `instruction` the layout of a word and the decoding, `memory` the image,
// `machine` what each operation and a whole run do to the state, and `cpu` is
// the processor that does it. `dump` renders the registers as text.

pub mod cpu;
pub mod dump;
pub mod instruction;
pub mod machine;
pub mod memory;
pub mod opcode;
pub mod word;
