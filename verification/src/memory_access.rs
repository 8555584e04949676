//! Memory access with a keyboard that is asked, not waited for: a read of the
//! status cell looks whether a key is there and says so in the cell.

use crate::error::VMError;
use crate::hardware::{latched, Memory, MemoryRegister, MemoryView, KBSR};
use vstd::prelude::*;

verus! {

/// Memory after a polling read of `addr`. A read of the status cell latches
/// the key in front when one waits, and else clears the status cell.
pub open spec fn after_poll(m: MemoryView, addr: u16) -> MemoryView {
    if addr != KBSR {
        MemoryView { reads: m.reads + 1, ..m }
    } else if m.keys.len() > 0 {
        MemoryView { reads: m.reads + 1, ..latched(m) }
    } else {
        MemoryView { cells: m.cells.update(KBSR as int, 0), reads: m.reads + 1, ..m }
    }
}

/// Reads the cell at `address` without ever waiting for a key. Where
/// [`Memory::read`] fails for want of a key, this read clears the status cell
/// and returns it: the program sees that no key is ready. It never fails.
pub fn mem_read(address: u16, memory: &mut Memory) -> (r: Result<u16, VMError>)
    ensures
        final(memory)@ == after_poll(old(memory)@, address),
        r is Ok,
        r->Ok_0 == after_poll(old(memory)@, address).cells[address as int],
{
    if address == MemoryRegister::KeyboardStatus {
        if !memory.keyboard.is_empty() {
            return memory.read(address);
        } else {
            memory.write(usize::from(MemoryRegister::KeyboardStatus), 0)?;
        }
    }
    proof {
        memory.reads@ = memory.reads@ + 1;
    }
    Ok(memory.inner[address as usize])
}

/// Stores `new_val` in the cell at `address`.
pub fn mem_write(address: u16, new_val: u16, memory: &mut Memory) -> (r: Result<(), VMError>)
    ensures
        r is Ok,
        final(memory)@ == crate::hardware::after_write(old(memory)@, address as int, new_val),
{
    memory.write(address as usize, new_val)
}

} // verus!
