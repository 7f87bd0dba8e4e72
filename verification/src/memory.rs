// A flat, byte-addressed memory image with little-endian accesses of one, two
// and four bytes.

use vstd::prelude::*;

verus! {

/// Why an access was refused.
#[derive(Clone, Copy, Debug, PartialEq, Eq)]
pub enum AccessFault {
    /// The address is not a multiple of the access width.
    Unaligned,
    /// The access does not lie fully within the image.
    OutOfBounds,
}

/// A refused access: where it was aimed and why it was refused.
#[derive(Clone, Copy, Debug, PartialEq, Eq)]
pub struct BusError {
    pub address: usize,
    pub reason: AccessFault,
}

/// The fault, if any, of an access of `width` bytes at `address` to an image
/// of `size` bytes. Alignment is judged before bounds.
pub open spec fn access_fault(size: nat, address: int, width: int) -> Option<AccessFault> {
    if address % width != 0 {
        Some(AccessFault::Unaligned)
    } else if address + width > size {
        Some(AccessFault::OutOfBounds)
    } else {
        None
    }
}

/// The outcome of checking an access: the error it raises, or nothing.
pub open spec fn access_check(size: nat, address: usize, width: int) -> Result<(), BusError> {
    match access_fault(size, address as int, width) {
        Some(reason) => Err(BusError { address, reason }),
        None => Ok(()),
    }
}

/// The two bytes at `address`, least significant first, as a number.
pub open spec fn half_at(bytes: Seq<u8>, address: int) -> int {
    bytes[address] + 0x100 * bytes[address + 1]
}

/// The four bytes at `address`, least significant first, as a number.
pub open spec fn word_at(bytes: Seq<u8>, address: int) -> int {
    bytes[address] + 0x100 * bytes[address + 1] + 0x1_0000 * bytes[address + 2]
        + 0x100_0000 * bytes[address + 3]
}

/// The image with the two bytes at `address` replaced by `value`, least
/// significant byte first.
pub open spec fn with_half(bytes: Seq<u8>, address: int, value: u16) -> Seq<u8> {
    bytes.update(address, (value % 0x100) as u8)
        .update(address + 1, (value / 0x100) as u8)
}

/// The image with the four bytes at `address` replaced by `value`, least
/// significant byte first.
pub open spec fn with_word(bytes: Seq<u8>, address: int, value: u32) -> Seq<u8> {
    bytes.update(address, (value % 0x100) as u8)
        .update(address + 1, (value / 0x100 % 0x100) as u8)
        .update(address + 2, (value / 0x1_0000 % 0x100) as u8)
        .update(address + 3, (value / 0x100_0000) as u8)
}

/// The image that a new memory starts with: the words `0x000050B7`,
/// `0x00006137` and `0x002081B3`, each stored least significant byte first.
pub open spec fn seed_image() -> Seq<u8> {
    seq![
        0xB7u8, 0x50u8, 0x00u8, 0x00u8,
        0x37u8, 0x61u8, 0x00u8, 0x00u8,
        0xB3u8, 0x81u8, 0x20u8, 0x00u8,
    ]
}

/// A byte that was stored is read back unchanged, and no other byte of the
/// image moves.
pub proof fn lemma_byte_round_trip(bytes: Seq<u8>, address: int, value: u8)
    requires
        0 <= address < bytes.len(),
    ensures
        bytes.update(address, value)[address] == value,
        bytes.update(address, value).len() == bytes.len(),
        forall|i: int|
            0 <= i < bytes.len() && i != address ==> bytes.update(address, value)[i] == bytes[i],
{
}

/// A halfword that was stored is read back unchanged, and no other byte of the
/// image moves.
pub proof fn lemma_half_round_trip(bytes: Seq<u8>, address: int, value: u16)
    requires
        0 <= address,
        address + 2 <= bytes.len(),
    ensures
        half_at(with_half(bytes, address, value), address) == value,
        with_half(bytes, address, value).len() == bytes.len(),
        forall|i: int|
            0 <= i < bytes.len() && !(address <= i < address + 2)
                ==> with_half(bytes, address, value)[i] == bytes[i],
{
}

/// A word that was stored is read back unchanged, and no other byte of the
/// image moves.
pub proof fn lemma_word_round_trip(bytes: Seq<u8>, address: int, value: u32)
    requires
        0 <= address,
        address + 4 <= bytes.len(),
    ensures
        word_at(with_word(bytes, address, value), address) == value,
        with_word(bytes, address, value).len() == bytes.len(),
        forall|i: int|
            0 <= i < bytes.len() && !(address <= i < address + 4)
                ==> with_word(bytes, address, value)[i] == bytes[i],
{
}

/// A memory image: a sequence of bytes of fixed length, addressed from 0.
#[derive(Debug, Clone, PartialEq, Eq)]
pub struct Memory {
    data: Vec<u8>,
}

impl View for Memory {
    type V = Seq<u8>;

    closed spec fn view(&self) -> Seq<u8> {
        self.data@
    }
}

/// Bytes put side by side in a word add up as digits to the base 256.
proof fn lemma_join_bytes(b0: u8, b1: u8, b2: u8, b3: u8)
    by (bit_vector)
    ensures
        (b0 as u32) | ((b1 as u32) << 8) == b0 + 0x100 * b1,
        (b0 as u32) | ((b1 as u32) << 8) | ((b2 as u32) << 16) | ((b3 as u32) << 24)
            == b0 + 0x100 * b1 + 0x1_0000 * b2 + 0x100_0000 * b3,
{
}

/// The bytes of a halfword and of a word are their digits to the base 256.
proof fn lemma_split_bytes(half: u16, word: u32)
    by (bit_vector)
    ensures
        ({
            &&& (half & 0xFF) == half % 0x100
            &&& (half >> 8) == half / 0x100
            &&& (half >> 8) < 0x100
            &&& (word & 0xFF) == word % 0x100
            &&& ((word >> 8) & 0xFF) == word / 0x100 % 0x100
            &&& ((word >> 16) & 0xFF) == word / 0x1_0000 % 0x100
            &&& ((word >> 24) & 0xFF) == word / 0x100_0000
        }),
{
}

impl Memory {
    /// A memory that holds the seed image.
    pub fn new() -> (memory: Self)
        ensures
            memory@ == seed_image(),
    {
        let memory = Self {
            data: vec![
                0xB7, 0x50, 0x00, 0x00,
                0x37, 0x61, 0x00, 0x00,
                0xB3, 0x81, 0x20, 0x00,
            ],
        };
        assert(memory.data@ =~= seed_image());
        memory
    }

    /// A memory that holds the given bytes, the first of them at address 0.
    pub fn load(bytes: Vec<u8>) -> (memory: Self)
        ensures
            memory@ == bytes@,
    {
        Self { data: bytes }
    }

    /// The number of bytes in the image.
    pub fn size(&self) -> (size: usize)
        ensures
            size == self@.len(),
    {
        self.data.len()
    }

    /// Judges an access of one, two or four bytes without making it.
    fn check_access(&self, address: usize, width: usize) -> (result: Result<(), BusError>)
        requires
            width == 1 || width == 2 || width == 4,
        ensures
            result == access_check(self@.len(), address, width as int),
    {
        if address % width != 0 {
            Err(BusError { address, reason: AccessFault::Unaligned })
        } else if address > self.data.len() || self.data.len() - address < width {
            Err(BusError { address, reason: AccessFault::OutOfBounds })
        } else {
            Ok(())
        }
    }

    /// Reads the word at `address`, least significant byte first.
    pub fn load_word(&self, address: usize) -> (result: Result<u32, BusError>)
        ensures
            result == match access_check(self@.len(), address, 4) {
                Ok(_) => Ok(word_at(self@, address as int) as u32),
                Err(error) => Err(error),
            },
    {
        match self.check_access(address, 4) {
            Ok(_) => {},
            Err(error) => {
                return Err(error);
            },
        }
        let byte0: u32 = self.data[address] as u32;
        let byte1: u32 = self.data[address + 1] as u32;
        let byte2: u32 = self.data[address + 2] as u32;
        let byte3: u32 = self.data[address + 3] as u32;
        proof {
            lemma_join_bytes(
                self.data@[address as int],
                self.data@[address + 1],
                self.data@[address + 2],
                self.data@[address + 3],
            );
        }
        Ok(byte0 | (byte1 << 8) | (byte2 << 16) | (byte3 << 24))
    }

    /// Reads the byte at `address`.
    pub fn load_byte(&self, address: usize) -> (result: Result<u32, BusError>)
        ensures
            result == match access_check(self@.len(), address, 1) {
                Ok(_) => Ok(self@[address as int] as u32),
                Err(error) => Err(error),
            },
    {
        match self.check_access(address, 1) {
            Ok(_) => {},
            Err(error) => {
                return Err(error);
            },
        }
        Ok(self.data[address] as u32)
    }

    /// Reads the halfword at `address`, least significant byte first.
    pub fn load_halfword(&self, address: usize) -> (result: Result<u32, BusError>)
        ensures
            result == match access_check(self@.len(), address, 2) {
                Ok(_) => Ok(half_at(self@, address as int) as u32),
                Err(error) => Err(error),
            },
    {
        match self.check_access(address, 2) {
            Ok(_) => {},
            Err(error) => {
                return Err(error);
            },
        }
        let byte0: u32 = self.data[address] as u32;
        let byte1: u32 = self.data[address + 1] as u32;
        proof {
            lemma_join_bytes(self.data@[address as int], self.data@[address + 1], 0, 0);
        }
        Ok(byte0 | (byte1 << 8))
    }

    /// Writes one byte at `address`. A refused access leaves the image as it was.
    pub fn store_byte(&mut self, address: usize, value: u8) -> (result: Result<(), BusError>)
        ensures
            result == access_check(old(self)@.len(), address, 1),
            final(self)@ == if result is Ok {
                old(self)@.update(address as int, value)
            } else {
                old(self)@
            },
    {
        match self.check_access(address, 1) {
            Ok(_) => {},
            Err(error) => {
                return Err(error);
            },
        }
        self.data[address] = value;
        Ok(())
    }

    /// Writes a halfword at `address`, least significant byte first. A refused
    /// access leaves the image as it was.
    pub fn store_halfword(&mut self, address: usize, value: u16) -> (result: Result<(), BusError>)
        ensures
            result == access_check(old(self)@.len(), address, 2),
            final(self)@ == if result is Ok {
                with_half(old(self)@, address as int, value)
            } else {
                old(self)@
            },
    {
        match self.check_access(address, 2) {
            Ok(_) => {},
            Err(error) => {
                return Err(error);
            },
        }
        proof {
            lemma_split_bytes(value, 0);
        }
        self.data[address] = (value & 0xFF) as u8;
        self.data[address + 1] = (value >> 8) as u8;
        Ok(())
    }

    /// Writes a word at `address`, least significant byte first. A refused
    /// access leaves the image as it was.
    pub fn store_word(&mut self, address: usize, value: u32) -> (result: Result<(), BusError>)
        ensures
            result == access_check(old(self)@.len(), address, 4),
            final(self)@ == if result is Ok {
                with_word(old(self)@, address as int, value)
            } else {
                old(self)@
            },
    {
        match self.check_access(address, 4) {
            Ok(_) => {},
            Err(error) => {
                return Err(error);
            },
        }
        proof {
            lemma_split_bytes(0, value);
        }
        self.data[address] = (value & 0xFF) as u8;
        self.data[address + 1] = ((value >> 8) & 0xFF) as u8;
        self.data[address + 2] = ((value >> 16) & 0xFF) as u8;
        self.data[address + 3] = ((value >> 24) & 0xFF) as u8;
        Ok(())
    }
}

} // verus!
