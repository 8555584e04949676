//! The parts of the machine: memory with its two keyboard cells, the register
//! file, and the closed sets of registers, opcodes and condition flags.

use crate::error::{ErrorKind, VMError};
use crate::host::HostInput;
use vstd::prelude::*;
use vstd::std_specs::cmp::PartialEqSpecImpl;
use vstd::std_specs::convert::{FromSpecImpl, TryFromSpecImpl};
use vstd::string::StringExecFns;

verus! {

/// The number of memory cells.
pub const MEMORY_MAX: usize = 65536;

/// The number of registers.
pub const REGS_COUNT: usize = 10;

/// The address of the keyboard status cell.
pub const KBSR: u16 = 0xFE00;

/// The address of the keyboard data cell.
pub const KBDR: u16 = 0xFE02;

/// What the keyboard status cell holds after a key was read.
pub const KEY_READY: u16 = 0x8000;

/// Memory as a value: its cells, the key presses that wait at its keyboard, and
/// the number of cells read from it so far.
pub struct MemoryView {
    /// The 65,536 cells, by address.
    pub cells: Seq<u16>,
    /// The bytes that wait at the keyboard, oldest first.
    pub keys: Seq<u8>,
    /// How many cell reads have succeeded.
    pub reads: nat,
}

/// The address that lies `i` cells above `addr`, round the end of memory.
pub open spec fn cell_above(addr: u16, i: int) -> int {
    (addr + i) % 0x10000
}

/// Memory after its front key press was latched: status shows a key, data
/// holds it, and the key has left the queue.
pub open spec fn latched(m: MemoryView) -> MemoryView
    recommends
        m.keys.len() > 0,
{
    MemoryView {
        cells: m.cells.update(KBSR as int, KEY_READY).update(KBDR as int, m.keys[0] as u16),
        keys: m.keys.drop_first(),
        reads: m.reads,
    }
}

/// Whether a read of `addr` fails: only the status cell can fail to be read,
/// and only while no key waits.
pub open spec fn read_fails(m: MemoryView, addr: u16) -> bool {
    addr == KBSR && m.keys.len() == 0
}

/// Memory after a read of `addr`. A read of the status cell first latches a key;
/// a read that fails changes nothing.
pub open spec fn after_read(m: MemoryView, addr: u16) -> MemoryView {
    if read_fails(m, addr) {
        m
    } else if addr == KBSR {
        MemoryView { reads: m.reads + 1, ..latched(m) }
    } else {
        MemoryView { reads: m.reads + 1, ..m }
    }
}

/// The word that a read of `addr` yields when it does not fail.
pub open spec fn read_word(m: MemoryView, addr: u16) -> u16 {
    after_read(m, addr).cells[addr as int]
}

/// Memory after `value` was stored at `index`.
pub open spec fn after_write(m: MemoryView, index: int, value: u16) -> MemoryView {
    MemoryView { cells: m.cells.update(index, value), ..m }
}

/// The memory: 65,536 cells of 16 bits, two of them wired to the keyboard.
pub struct Memory {
    /// The cells, by address.
    pub inner: [u16; MEMORY_MAX],
    /// The host input that the keyboard cells draw from.
    pub keyboard: HostInput,
    /// The number of cells read so far.
    pub reads: Ghost<nat>,
}

impl View for Memory {
    type V = MemoryView;

    open spec fn view(&self) -> MemoryView {
        MemoryView { cells: self.inner@, keys: self.keyboard@, reads: self.reads@ }
    }
}

impl Memory {
    /// A memory of zeros, with no key waiting.
    pub fn new() -> (mem: Self)
        ensures
            mem@.cells.len() == MEMORY_MAX,
            forall|a: int| 0 <= a < MEMORY_MAX ==> mem@.cells[a] == 0,
            mem@.keys == Seq::<u8>::empty(),
            mem@.reads == 0,
    {
        Memory { inner: [0;MEMORY_MAX], keyboard: HostInput::new(), reads: Ghost(0) }
    }

    /// Stores `new_val` at `mem_address`. An address past the last cell is
    /// refused with `InvalidIndex`, and memory stays as it was.
    pub fn write(&mut self, mem_address: usize, new_val: u16) -> (r: Result<(), VMError>)
        ensures
            mem_address < MEMORY_MAX ==> r is Ok && final(self)@ == after_write(
                old(self)@,
                mem_address as int,
                new_val,
            ),
            mem_address >= MEMORY_MAX ==> r == Err::<(), VMError>(
                VMError::InvalidIndex(mem_address),
            ) && final(self)@ == old(self)@,
    {
        if mem_address < MEMORY_MAX {
            self.inner[mem_address] = new_val;
            return Ok(());
        }
        Err(VMError::InvalidIndex(mem_address))
    }

    /// Reads the cell at `addr`. A read of the keyboard status cell first
    /// takes one byte from the host input: with it, status becomes 0x8000 and
    /// data becomes the byte; without it, the read fails with `STDINRead` and
    /// memory stays as it was.
    pub fn read(&mut self, addr: u16) -> (r: Result<u16, VMError>)
        ensures
            final(self)@ == after_read(old(self)@, addr),
            match r {
                Ok(word) => !read_fails(old(self)@, addr) && word == read_word(old(self)@, addr),
                Err(e) => read_fails(old(self)@, addr) && e.spec_kind() == ErrorKind::STDINRead,
            },
    {
        if addr == MemoryRegister::KeyboardStatus {
            match self.keyboard.next() {
                Some(byte) => {
                    self.inner[usize::from(MemoryRegister::KeyboardStatus)] = KEY_READY;
                    self.inner[usize::from(MemoryRegister::KeyboardData)] = byte as u16;
                },
                None => {
                    return Err(VMError::STDINRead(String::from_str("failed to fill whole buffer")));
                },
            }
        }
        proof {
            self.reads@ = self.reads@ + 1;
        }
        Ok(self.inner[addr as usize])
    }
}

/// A word stored is the word read back: after `value` went to a cell other
/// than the keyboard status cell, a read of that cell succeeds and yields
/// `value`, and the write and the read together leave every other cell, and
/// the keys that wait, as they were.
pub proof fn lemma_write_then_read(m: MemoryView, addr: u16, value: u16)
    requires
        m.cells.len() == MEMORY_MAX,
        addr != KBSR,
    ensures
        !read_fails(after_write(m, addr as int, value), addr),
        read_word(after_write(m, addr as int, value), addr) == value,
        after_read(after_write(m, addr as int, value), addr).keys == m.keys,
        forall|other: int|
            0 <= other < MEMORY_MAX && other != addr ==> after_read(
                after_write(m, addr as int, value),
                addr,
            ).cells[other] == m.cells[other],
{
}

/// One of the ten registers: eight general ones, the program counter and the
/// condition register.
#[derive(Clone, Copy, Debug, PartialEq, Eq, Structural)]
pub enum Register {
    R0,
    R1,
    R2,
    R3,
    R4,
    R5,
    R6,
    R7,
    PC,
    Cond,
}

impl Register {
    /// The place of this register in the register file.
    pub open spec fn spec_index(&self) -> usize {
        match *self {
            Register::R0 => 0,
            Register::R1 => 1,
            Register::R2 => 2,
            Register::R3 => 3,
            Register::R4 => 4,
            Register::R5 => 5,
            Register::R6 => 6,
            Register::R7 => 7,
            Register::PC => 8,
            Register::Cond => 9,
        }
    }

    /// The place of this register in the register file.
    #[verifier::when_used_as_spec(spec_index)]
    pub fn index(&self) -> (i: usize)
        ensures
            i == self.spec_index(),
            i < REGS_COUNT,
    {
        match self {
            Register::R0 => 0,
            Register::R1 => 1,
            Register::R2 => 2,
            Register::R3 => 3,
            Register::R4 => 4,
            Register::R5 => 5,
            Register::R6 => 6,
            Register::R7 => 7,
            Register::PC => 8,
            Register::Cond => 9,
        }
    }

    /// The register whose place is `n`; numbers above 9 name none and are
    /// refused with `Conversion`.
    pub fn from_u16(n: u16) -> (r: Result<Self, VMError>)
        ensures
            match r {
                Ok(reg) => n <= 9 && reg.spec_index() == n,
                Err(e) => n > 9 && e.spec_kind() == ErrorKind::Conversion,
            },
    {
        match n {
            0 => Ok(Register::R0),
            1 => Ok(Register::R1),
            2 => Ok(Register::R2),
            3 => Ok(Register::R3),
            4 => Ok(Register::R4),
            5 => Ok(Register::R5),
            6 => Ok(Register::R6),
            7 => Ok(Register::R7),
            8 => Ok(Register::PC),
            9 => Ok(Register::Cond),
            _ => Err(VMError::Conversion(String::from_str("Invalid u16 for Register conversion"))),
        }
    }
}

/// The register file: one 16-bit cell for each register.
pub struct Registers {
    /// The cells, by the registers' places.
    pub inner: [u16; REGS_COUNT],
}

impl View for Registers {
    type V = Seq<u16>;

    open spec fn view(&self) -> Seq<u16> {
        self.inner@
    }
}

impl Registers {
    /// A register file in which every register holds 0.
    pub fn new() -> (regs: Self)
        ensures
            regs@.len() == REGS_COUNT,
            forall|i: int| 0 <= i < REGS_COUNT ==> regs@[i] == 0,
    {
        Registers { inner: [0;REGS_COUNT] }
    }

    /// What register `reg` holds.
    pub fn get(&self, reg: Register) -> (value: u16)
        ensures
            value == self@[reg.spec_index() as int],
    {
        self.inner[reg.index()]
    }

    /// Puts `value` into register `reg` and leaves the others alone.
    pub fn set(&mut self, reg: Register, value: u16)
        ensures
            final(self)@ == old(self)@.update(reg.spec_index() as int, value),
    {
        let index = reg.index();
        self.inner[index] = value;
    }
}

/// The operations of the machine. The two nibbles 0b1000 and 0b1101 stand for
/// none of them.
#[derive(Clone, Copy, Debug, PartialEq, Eq, Structural)]
pub enum OpCode {
    Br,
    Add,
    Ld,
    St,
    Jsr,
    And,
    Ldr,
    Str,
    Not,
    Ldi,
    Sti,
    Jmp,
    Lea,
    Trap,
}

/// The operation that an opcode nibble stands for, if it stands for one.
pub open spec fn opcode_of(value: u16) -> Option<OpCode> {
    if value == 0b0000 {
        Some(OpCode::Br)
    } else if value == 0b0001 {
        Some(OpCode::Add)
    } else if value == 0b0010 {
        Some(OpCode::Ld)
    } else if value == 0b0011 {
        Some(OpCode::St)
    } else if value == 0b0100 {
        Some(OpCode::Jsr)
    } else if value == 0b0101 {
        Some(OpCode::And)
    } else if value == 0b0110 {
        Some(OpCode::Ldr)
    } else if value == 0b0111 {
        Some(OpCode::Str)
    } else if value == 0b1001 {
        Some(OpCode::Not)
    } else if value == 0b1010 {
        Some(OpCode::Ldi)
    } else if value == 0b1011 {
        Some(OpCode::Sti)
    } else if value == 0b1100 {
        Some(OpCode::Jmp)
    } else if value == 0b1110 {
        Some(OpCode::Lea)
    } else if value == 0b1111 {
        Some(OpCode::Trap)
    } else {
        None
    }
}

impl TryFrom<u16> for OpCode {
    type Error = VMError;

    /// The operation for an opcode nibble; any other number is refused with
    /// `Conversion`.
    fn try_from(value: u16) -> (r: Result<Self, Self::Error>)
        ensures
            match r {
                Ok(op) => opcode_of(value) == Some(op),
                Err(e) => opcode_of(value) is None && e.spec_kind() == ErrorKind::Conversion,
            },
    {
        match value {
            0b0000 => Ok(OpCode::Br),
            0b0001 => Ok(OpCode::Add),
            0b0010 => Ok(OpCode::Ld),
            0b0011 => Ok(OpCode::St),
            0b0100 => Ok(OpCode::Jsr),
            0b0101 => Ok(OpCode::And),
            0b0110 => Ok(OpCode::Ldr),
            0b0111 => Ok(OpCode::Str),
            0b1001 => Ok(OpCode::Not),
            0b1010 => Ok(OpCode::Ldi),
            0b1011 => Ok(OpCode::Sti),
            0b1100 => Ok(OpCode::Jmp),
            0b1110 => Ok(OpCode::Lea),
            0b1111 => Ok(OpCode::Trap),
            _ => Err(VMError::Conversion(String::from_str("Invalid u16 for OpCode conversion"))),
        }
    }
}

impl TryFromSpecImpl<u16> for OpCode {
    /// The conversion is stated by the `ensures` of `try_from` itself: its
    /// failure carries a message, which no spec value can spell out.
    open spec fn obeys_try_from_spec() -> bool {
        false
    }

    open spec fn try_from_spec(value: u16) -> Result<Self, VMError> {
        match opcode_of(value) {
            Some(op) => Ok(op),
            None => Err(arbitrary()),
        }
    }
}

/// The three condition flags: the sign of the latest result.
#[derive(Clone, Copy, Debug, PartialEq, Eq, Structural)]
pub enum CondFlag {
    Pos,
    Zro,
    Neg,
}

impl CondFlag {
    /// The bit that stands for this flag in the condition register.
    pub open spec fn spec_value(&self) -> u16 {
        match *self {
            CondFlag::Pos => 1,
            CondFlag::Zro => 2,
            CondFlag::Neg => 4,
        }
    }

    /// The bit that stands for this flag in the condition register.
    #[verifier::when_used_as_spec(spec_value)]
    pub fn value(&self) -> (bit: u16)
        ensures
            bit == self.spec_value(),
    {
        match self {
            CondFlag::Pos => 1,
            CondFlag::Zro => 2,
            CondFlag::Neg => 4,
        }
    }
}

/// The two memory cells that are wired to the keyboard.
#[derive(Clone, Copy, Debug)]
pub enum MemoryRegister {
    KeyboardStatus,
    KeyboardData,
}

impl MemoryRegister {
    /// The address of this cell.
    pub open spec fn spec_address(&self) -> u16 {
        match *self {
            MemoryRegister::KeyboardStatus => KBSR,
            MemoryRegister::KeyboardData => KBDR,
        }
    }

    /// The address of this cell.
    #[verifier::when_used_as_spec(spec_address)]
    pub fn address(&self) -> (addr: u16)
        ensures
            addr == self.spec_address(),
    {
        match self {
            MemoryRegister::KeyboardStatus => KBSR,
            MemoryRegister::KeyboardData => KBDR,
        }
    }
}

impl From<MemoryRegister> for usize {
    /// The address of the cell, as an index.
    fn from(value: MemoryRegister) -> (index: usize) {
        value.address() as usize
    }
}

impl FromSpecImpl<MemoryRegister> for usize {
    open spec fn obeys_from_spec() -> bool {
        true
    }

    open spec fn from_spec(value: MemoryRegister) -> usize {
        value.spec_address() as usize
    }
}

/// Allows comparison of an u16 with a MemoryRegister
impl PartialEq<MemoryRegister> for u16 {
    fn eq(&self, mem_reg: &MemoryRegister) -> (same: bool) {
        *self == mem_reg.address()
    }
}

impl PartialEqSpecImpl<MemoryRegister> for u16 {
    open spec fn obeys_eq_spec() -> bool {
        true
    }

    open spec fn eq_spec(&self, mem_reg: &MemoryRegister) -> bool {
        *self == mem_reg.spec_address()
    }
}

/// Allows comparison of a MemoryRegister with an u16
impl PartialEq<u16> for MemoryRegister {
    fn eq(&self, num: &u16) -> (same: bool) {
        self.address() == *num
    }
}

impl PartialEqSpecImpl<u16> for MemoryRegister {
    open spec fn obeys_eq_spec() -> bool {
        true
    }

    open spec fn eq_spec(&self, num: &u16) -> bool {
        self.spec_address() == *num
    }
}

} // verus!
