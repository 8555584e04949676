//! The machine that runs: its memory, registers and output, one method for
//! each instruction and service routine, the fetch, decode and dispatch cycle,
//! and the image loader.

use crate::error::{failure, ErrorKind, VMError};
use crate::hardware::{
    cell_above, CondFlag, Memory, MemoryView, OpCode, Register, Registers, KBDR, KBSR,
    MEMORY_MAX, REGS_COUNT,
};
use crate::host::{flushed, written, HostInput, HostOutput, OutputView};
use crate::machine::{
    added, addressed, anded, be_word, branched, image_origin, image_words, jumped, laid,
    lemma_register_fields, lemma_starved_cycle, linked, load_indirect_outcome, load_outcome,
    load_register_outcome, negated, ran, stepped, store_indirect_outcome, stored,
    stored_register, trapped, Machine, EIGHT_BIT_MASK, ELEVEN_BIT_MASK, FIVE_BIT_MASK,
    NINE_BIT_MASK, ONE_BIT_MASK, SIX_BIT_MASK, THREE_BIT_MASK,
};
use crate::trap_code::TrapCode;
use crate::trap_routines::{
    emitted, get_c, halt, halt_banner, key_stored, low_byte, out, prompted, puts, puts_p,
    trap_in,
};
use crate::utils::{sign_extend, with_flags};
use vstd::prelude::*;
use vstd::string::StringExecFns;

verus! {

/// Where the program counter stands when the machine is made.
pub const PC_START: u16 = 0x3000;

/// The virtual machine: memory, registers, the running flag and the host
/// output that its service routines write to.
pub struct VM {
    pub mem: Memory,
    pub regs: Registers,
    pub running: bool,
    pub output: HostOutput,
}

impl View for VM {
    type V = Machine;

    open spec fn view(&self) -> Machine {
        Machine { mem: self.mem@, regs: self.regs@, running: self.running, out: self.output@ }
    }
}

impl VM {
    /// A machine ready to run: the program counter at 0x3000, the condition
    /// register at Z, every other register and every memory cell at 0, no key
    /// waiting and nothing written.
    pub fn new() -> (vm: Self)
        ensures
            vm@.running,
            vm@.regs.len() == REGS_COUNT,
            vm@.regs[Register::PC.spec_index() as int] == PC_START,
            vm@.regs[Register::Cond.spec_index() as int] == CondFlag::Zro.spec_value(),
            forall|i: int| 0 <= i < 8 ==> vm@.regs[i] == 0,
            vm@.mem.cells.len() == MEMORY_MAX,
            forall|a: int| 0 <= a < MEMORY_MAX ==> vm@.mem.cells[a] == 0,
            vm@.mem.keys == Seq::<u8>::empty(),
            vm@.mem.reads == 0,
            vm@.out == (OutputView { bytes: Seq::<u8>::empty(), flushed: None, closed: false }),
    {
        let mut regs = Registers::new();
        let mem = Memory::new();
        // Initialize the registers Cond and PC to standard values
        regs.set(Register::Cond, CondFlag::Zro.value());
        regs.set(Register::PC, PC_START);

        Self { regs, mem, running: true, output: HostOutput::new() }
    }

    /// Sets the condition register from what register `r` holds.
    pub fn update_flags(&mut self, r: Register)
        ensures
            final(self)@ == (Machine {
                regs: with_flags(old(self)@.regs, r.spec_index() as int),
                ..old(self)@
            }),
    {
        crate::utils::update_flags(r, &mut self.regs);
    }

    /// ADD: adds to SR1 either SR2 or the sign-extended `imm5`, wrapping at 16
    /// bits, stores the sum in DR and sets the flags from it.
    pub fn add(&mut self, instr: u16) -> (r: Result<(), VMError>)
        ensures
            r is Ok,
            final(self)@ == (Machine { regs: added(old(self)@.regs, instr), ..old(self)@ }),
    {
        proof {
            lemma_register_fields(instr);
        }
        // Destination register
        let dr: Register = Register::from_u16((instr >> 9) & THREE_BIT_MASK)?;
        // First operand
        let sr1: Register = Register::from_u16((instr >> 6) & THREE_BIT_MASK)?;
        // Check the bit 5 to see if we are in immediate mode
        let imm_flag = (instr >> 5) & ONE_BIT_MASK;

        if imm_flag == 1 {
            // Get the 5 bits of the imm5 section (first 5 bits) and sign extend them
            let mut imm5 = instr & FIVE_BIT_MASK;
            imm5 = sign_extend(imm5, 5)?;
            let sum = self.regs.get(sr1).wrapping_add(imm5);
            self.regs.set(dr, sum);
        } else {
            // Since the immediate flag was off, we only need the SR2 section (first 3 bits).
            // This section contains the register containing the value to add.
            let sr2 = Register::from_u16(instr & THREE_BIT_MASK)?;
            let sum = self.regs.get(sr1).wrapping_add(self.regs.get(sr2));
            self.regs.set(dr, sum);
        }

        self.update_flags(dr);
        Ok(())
    }

    /// NOT: stores in DR the bitwise complement of SR1 and sets the flags from
    /// it.
    pub fn not(&mut self, instr: u16) -> (r: Result<(), VMError>)
        ensures
            r is Ok,
            final(self)@ == (Machine { regs: negated(old(self)@.regs, instr), ..old(self)@ }),
    {
        proof {
            lemma_register_fields(instr);
        }
        let dr = Register::from_u16((instr >> 9) & THREE_BIT_MASK)?;
        let sr = Register::from_u16((instr >> 6) & THREE_BIT_MASK)?;

        let flipped = !self.regs.get(sr);
        self.regs.set(dr, flipped);
        self.update_flags(dr);
        Ok(())
    }

    /// AND: combines SR1 bit by bit with either SR2 or the sign-extended
    /// `imm5`, stores the result in DR and sets the flags from it.
    pub fn and(&mut self, instr: u16) -> (r: Result<(), VMError>)
        ensures
            r is Ok,
            final(self)@ == (Machine { regs: anded(old(self)@.regs, instr), ..old(self)@ }),
    {
        proof {
            lemma_register_fields(instr);
        }
        // Destination register
        let dr = Register::from_u16((instr >> 9) & THREE_BIT_MASK)?;
        // SR1 section
        let sr1 = Register::from_u16((instr >> 6) & THREE_BIT_MASK)?;
        // Imm flag
        let imm_flag = (instr >> 5) & ONE_BIT_MASK;

        if imm_flag == 1 {
            // Get the imm5 section, then do the bitwise and with the content on R1.
            let mut imm5 = instr & FIVE_BIT_MASK;
            imm5 = sign_extend(imm5, 5)?;
            let both = self.regs.get(sr1) & imm5;
            self.regs.set(dr, both);
        } else {
            // Get the SR2 section, then do the bitwise and with the content on R1.
            let sr2 = Register::from_u16(instr & THREE_BIT_MASK)?;
            let both = self.regs.get(sr1) & self.regs.get(sr2);
            self.regs.set(dr, both);
        }

        self.update_flags(dr);
        Ok(())
    }
    /// BR: adds the sign-extended `PCoffset9` to the program counter when the
    /// condition register shares a flag with bits 11 to 9.
    pub fn branch(&mut self, instr: u16) -> (r: Result<(), VMError>)
        ensures
            r is Ok,
            final(self)@ == (Machine { regs: branched(old(self)@.regs, instr), ..old(self)@ }),
    {
        // Get the PCOffset9 section
        let mut pc_offset = instr & NINE_BIT_MASK;
        pc_offset = sign_extend(pc_offset, 9)?;
        // Get the Condition Flag and check if it is the same
        // as the one selected on the instruction
        let cond_flag = (instr >> 9) & THREE_BIT_MASK;
        let coincides = cond_flag & self.regs.get(Register::Cond);
        if coincides != 0 {
            let target = self.regs.get(Register::PC).wrapping_add(pc_offset);
            self.regs.set(Register::PC, target);
        }
        Ok(())
    }

    /// JMP: puts what the base register holds into the program counter.
    pub fn jump(&mut self, instr: u16) -> (r: Result<(), VMError>)
        ensures
            r is Ok,
            final(self)@ == (Machine { regs: jumped(old(self)@.regs, instr), ..old(self)@ }),
    {
        proof {
            lemma_register_fields(instr);
        }
        // Get the BaseR section
        let baser_r = Register::from_u16((instr >> 6) & THREE_BIT_MASK)?;
        let target = self.regs.get(baser_r);
        self.regs.set(Register::PC, target);
        Ok(())
    }

    /// JSR and JSRR: saves the program counter in R7, then adds the
    /// sign-extended `PCoffset11` to the program counter when bit 11 is set, and
    /// else puts what the base register holds into it.
    pub fn jump_register(&mut self, instr: u16) -> (r: Result<(), VMError>)
        ensures
            r is Ok,
            final(self)@ == (Machine { regs: linked(old(self)@.regs, instr), ..old(self)@ }),
            final(self)@.regs[7] == old(self)@.regs[8],
    {
        proof {
            lemma_register_fields(instr);
        }
        let long_flag = (instr >> 11) & 1;
        let pc = self.regs.get(Register::PC);
        self.regs.set(Register::R7, pc);
        if long_flag == 1 {
            let mut long_pc_offset = instr & ELEVEN_BIT_MASK;
            long_pc_offset = sign_extend(long_pc_offset, 11)?;
            let target = self.regs.get(Register::PC).wrapping_add(long_pc_offset);
            self.regs.set(Register::PC, target);
        } else {
            let r1 = Register::from_u16((instr >> 6) & THREE_BIT_MASK)?;
            let target = self.regs.get(r1);
            self.regs.set(Register::PC, target);
        }
        Ok(())
    }

    /// LDI: reads the cell at the program counter plus the sign-extended
    /// `PCoffset9`, reads the cell that it points to into DR, and sets the flags
    /// from DR. A read that fails ends the instruction with `STDINRead`.
    pub fn load_indirect(&mut self, instr: u16) -> (r: Result<(), VMError>)
        ensures
            final(self)@ == load_indirect_outcome(old(self)@, instr).machine,
            failure(r) == load_indirect_outcome(old(self)@, instr).failure,
    {
        proof {
            lemma_register_fields(instr);
        }
        // Destination register
        let dr = Register::from_u16((instr >> 9) & THREE_BIT_MASK)?;
        // PCoffset 9 section
        let mut pc_offset = instr & NINE_BIT_MASK;
        pc_offset = sign_extend(pc_offset, 9)?;
        // Add the number that was on PCoffset 9 section to PC to get the
        // memory location we need to look at for the final address
        let address_of_final_address = self.regs.get(Register::PC).wrapping_add(pc_offset);
        let final_address = self.mem.read(address_of_final_address)?;
        let value = self.mem.read(final_address)?;
        self.regs.set(dr, value);
        self.update_flags(dr);
        Ok(())
    }

    /// LD: reads the cell at the program counter plus the sign-extended
    /// `PCoffset9` into DR and sets the flags from it. A read that fails ends
    /// the instruction with `STDINRead`.
    pub fn load(&mut self, instr: u16) -> (r: Result<(), VMError>)
        ensures
            final(self)@ == load_outcome(old(self)@, instr).machine,
            failure(r) == load_outcome(old(self)@, instr).failure,
    {
        proof {
            lemma_register_fields(instr);
        }
        // Destination register
        let dr = Register::from_u16((instr >> 9) & THREE_BIT_MASK)?;
        // PCoffset 9 section
        let mut pc_offset = instr & NINE_BIT_MASK;
        pc_offset = sign_extend(pc_offset, 9)?;
        // Calculate the memory address to read
        let address = self.regs.get(Register::PC).wrapping_add(pc_offset);
        let value = self.mem.read(address)?;
        self.regs.set(dr, value);
        self.update_flags(dr);
        Ok(())
    }

    /// LDR: reads the cell at the base register plus the sign-extended
    /// `offset6` into DR and sets the flags from it. A read that fails ends the
    /// instruction with `STDINRead`.
    pub fn load_register(&mut self, instr: u16) -> (r: Result<(), VMError>)
        ensures
            final(self)@ == load_register_outcome(old(self)@, instr).machine,
            failure(r) == load_register_outcome(old(self)@, instr).failure,
    {
        proof {
            lemma_register_fields(instr);
        }
        // Destination Register
        let dr = Register::from_u16((instr >> 9) & THREE_BIT_MASK)?;
        // BaseR section
        let r1 = Register::from_u16((instr >> 6) & THREE_BIT_MASK)?;
        // Offset6 section
        let mut offset6 = instr & SIX_BIT_MASK;
        offset6 = sign_extend(offset6, 6)?;
        // Calculate the memory address to read
        let address = self.regs.get(r1).wrapping_add(offset6);
        let value = self.mem.read(address)?;
        self.regs.set(dr, value);
        self.update_flags(dr);
        Ok(())
    }

    /// LEA: puts the program counter plus the sign-extended `PCoffset9` into DR
    /// and sets the flags from it.
    pub fn load_effective_address(&mut self, instr: u16) -> (r: Result<(), VMError>)
        ensures
            r is Ok,
            final(self)@ == (Machine { regs: addressed(old(self)@.regs, instr), ..old(self)@ }),
    {
        proof {
            lemma_register_fields(instr);
        }
        // Destination Register
        let dr = Register::from_u16((instr >> 9) & THREE_BIT_MASK)?;
        // PCoffset9 section
        let mut pc_offset = instr & NINE_BIT_MASK;
        pc_offset = sign_extend(pc_offset, 9)?;
        // Set the new value for the destination register
        let address = self.regs.get(Register::PC).wrapping_add(pc_offset);
        self.regs.set(dr, address);
        self.update_flags(dr);
        Ok(())
    }

    /// ST: stores the source register in the cell at the program counter plus
    /// the sign-extended `PCoffset9`.
    pub fn store(&mut self, instr: u16) -> (r: Result<(), VMError>)
        ensures
            r is Ok,
            final(self)@ == stored(old(self)@, instr),
    {
        proof {
            lemma_register_fields(instr);
        }
        // Source Register
        let sr = Register::from_u16((instr >> 9) & THREE_BIT_MASK)?;
        // PCoffset9 section
        let mut pc_offset = instr & NINE_BIT_MASK;
        pc_offset = sign_extend(pc_offset, 9)?;
        // Calculate the address
        let address = self.regs.get(Register::PC).wrapping_add(pc_offset);
        let new_val = self.regs.get(sr);
        self.mem.write(address as usize, new_val)
    }

    /// STI: reads the cell at the program counter plus the sign-extended
    /// `PCoffset9` and stores the source register in the cell that it points
    /// to. A read that fails ends the instruction with `STDINRead`.
    pub fn store_indirect(&mut self, instr: u16) -> (r: Result<(), VMError>)
        ensures
            final(self)@ == store_indirect_outcome(old(self)@, instr).machine,
            failure(r) == store_indirect_outcome(old(self)@, instr).failure,
    {
        proof {
            lemma_register_fields(instr);
        }
        // Source Register
        let sr = Register::from_u16((instr >> 9) & THREE_BIT_MASK)?;
        // PCoffset9 section
        let mut pc_offset = instr & NINE_BIT_MASK;
        pc_offset = sign_extend(pc_offset, 9)?;
        // Get the first address
        let first_address = self.regs.get(Register::PC).wrapping_add(pc_offset);
        // Read the first address, get the second one and write on it
        let final_address = self.mem.read(first_address)?;
        let new_val = self.regs.get(sr);
        self.mem.write(final_address as usize, new_val)
    }

    /// STR: stores the source register in the cell at the base register plus
    /// the sign-extended `offset6`.
    pub fn store_register(&mut self, instr: u16) -> (r: Result<(), VMError>)
        ensures
            r is Ok,
            final(self)@ == stored_register(old(self)@, instr),
    {
        proof {
            lemma_register_fields(instr);
        }
        // Source Register
        let sr = Register::from_u16((instr >> 9) & THREE_BIT_MASK)?;
        // BaseR section
        let r1 = Register::from_u16((instr >> 6) & THREE_BIT_MASK)?;
        // Offset 6 section
        let mut offset = instr & SIX_BIT_MASK;
        offset = sign_extend(offset, 6)?;
        // Calculate the address
        let address = self.regs.get(r1).wrapping_add(offset);
        let new_val = self.regs.get(sr);
        self.mem.write(address as usize, new_val)
    }
    /// TRAP: saves the program counter in R7 and runs the service routine that
    /// bits 7 to 0 name, on the machine's own keyboard and output.
    pub fn trap(&mut self, instr: u16) -> (r: Result<(), VMError>)
        ensures
            final(self)@ == trapped(old(self)@, instr).machine,
            failure(r) == trapped(old(self)@, instr).failure,
    {
        let pc = self.regs.get(Register::PC);
        self.regs.set(Register::R7, pc);
        let trap_code = TrapCode::try_from(instr & EIGHT_BIT_MASK)?;
        match trap_code {
            TrapCode::GetC => get_c(&mut self.regs, &mut self.mem.keyboard)?,
            TrapCode::Out => out(&mut self.regs, &mut self.output)?,
            TrapCode::Puts => puts(&mut self.regs, &mut self.mem, &mut self.output)?,
            TrapCode::In => trap_in(&mut self.regs, &mut self.output, &mut self.mem.keyboard)?,
            TrapCode::PutsP => puts_p(&mut self.regs, &mut self.mem, &mut self.output)?,
            TrapCode::Halt => halt(&mut self.running, &mut self.output)?,
        }
        Ok(())
    }

    /// GETC on the given input: reads one byte into R0 and sets the flags from
    /// it. With no byte waiting it fails with `STDINRead` and changes nothing.
    pub fn get_c(&mut self, reader: &mut HostInput) -> (r: Result<(), VMError>)
        ensures
            match r {
                Ok(_) => {
                    &&& old(reader)@.len() > 0
                    &&& final(reader)@ == old(reader)@.drop_first()
                    &&& final(self)@ == (Machine {
                        regs: key_stored(old(self)@.regs, old(reader)@[0]),
                        ..old(self)@
                    })
                },
                Err(e) => {
                    &&& old(reader)@.len() == 0
                    &&& e.spec_kind() == ErrorKind::STDINRead
                    &&& final(reader)@ == old(reader)@
                    &&& final(self)@ == old(self)@
                },
            },
    {
        get_c(&mut self.regs, reader)
    }

    /// OUT on the given output: writes the low byte of R0. On a closed output
    /// it fails with `STDOUTWrite`.
    pub fn out(&mut self, writer: &mut HostOutput) -> (r: Result<(), VMError>)
        ensures
            final(self)@ == old(self)@,
            final(writer)@ == written(old(writer)@, seq![low_byte(old(self)@.regs[0])]),
            match r {
                Ok(_) => !old(writer)@.closed,
                Err(e) => old(writer)@.closed && e.spec_kind() == ErrorKind::STDOUTWrite,
            },
    {
        out(&mut self.regs, writer)
    }

    /// IN on the given output and input: writes the prompt, reads one byte,
    /// echoes it, stores it in R0, sets the flags from it and flushes.
    pub fn trap_in(&mut self, writer: &mut HostOutput, reader: &mut HostInput) -> (r: Result<
        (),
        VMError,
    >)
        ensures
            final(self)@ == (Machine {
                regs: prompted(old(self)@.regs, old(reader)@, old(writer)@).regs,
                ..old(self)@
            }),
            final(reader)@ == prompted(old(self)@.regs, old(reader)@, old(writer)@).keys,
            final(writer)@ == prompted(old(self)@.regs, old(reader)@, old(writer)@).out,
            failure(r) == prompted(old(self)@.regs, old(reader)@, old(writer)@).failure,
    {
        trap_in(&mut self.regs, writer, reader)
    }

    /// PUTS on the given output: writes the string that starts at the address
    /// in R0, one character to a word, up to the first zero word, then flushes.
    pub fn puts(&mut self, writer: &mut HostOutput) -> (r: Result<(), VMError>)
        ensures
            final(self)@ == (Machine {
                mem: emitted(old(self)@.mem, old(self)@.regs[0], old(writer)@, false).mem,
                ..old(self)@
            }),
            final(writer)@ == emitted(old(self)@.mem, old(self)@.regs[0], old(writer)@, false).out,
            failure(r) == emitted(
                old(self)@.mem,
                old(self)@.regs[0],
                old(writer)@,
                false,
            ).failure,
    {
        puts(&mut self.regs, &mut self.mem, writer)
    }

    /// PUTSP on the given output: writes the string that starts at the address
    /// in R0, two characters to a word, up to the first zero word, then
    /// flushes.
    pub fn puts_p(&mut self, writer: &mut HostOutput) -> (r: Result<(), VMError>)
        ensures
            final(self)@ == (Machine {
                mem: emitted(old(self)@.mem, old(self)@.regs[0], old(writer)@, true).mem,
                ..old(self)@
            }),
            final(writer)@ == emitted(old(self)@.mem, old(self)@.regs[0], old(writer)@, true).out,
            failure(r) == emitted(old(self)@.mem, old(self)@.regs[0], old(writer)@, true).failure,
    {
        puts_p(&mut self.regs, &mut self.mem, writer)
    }

    /// HALT on the given output: writes "HALT" and a line feed, flushes, and
    /// clears the running flag. On a closed output it fails with `STDOUTWrite`
    /// and the flag stays.
    pub fn halt(&mut self, writer: &mut HostOutput) -> (r: Result<(), VMError>)
        ensures
            match r {
                Ok(_) => {
                    &&& !old(writer)@.closed
                    &&& final(self)@ == (Machine { running: false, ..old(self)@ })
                    &&& final(writer)@ == flushed(written(old(writer)@, halt_banner()))
                },
                Err(e) => {
                    &&& old(writer)@.closed
                    &&& e.spec_kind() == ErrorKind::STDOUTWrite
                    &&& final(self)@ == old(self)@
                    &&& final(writer)@ == old(writer)@
                },
            },
    {
        halt(&mut self.running, writer)
    }

    /// One cycle: moves the program counter on by one, reads the word it
    /// pointed to, and carries out the instruction in that word.
    pub fn step(&mut self) -> (r: Result<(), VMError>)
        ensures
            final(self)@ == stepped(old(self)@).machine,
            failure(r) == stepped(old(self)@).failure,
    {
        let instr_addr = self.regs.get(Register::PC);
        self.regs.set(Register::PC, instr_addr.wrapping_add(1));
        let instr = self.mem.read(instr_addr)?;
        let op_code = OpCode::try_from(instr >> 12)?;
        match op_code {
            OpCode::Br => self.branch(instr)?,
            OpCode::Add => self.add(instr)?,
            OpCode::Ld => self.load(instr)?,
            OpCode::St => self.store(instr)?,
            OpCode::Jsr => self.jump_register(instr)?,
            OpCode::And => self.and(instr)?,
            OpCode::Ldr => self.load_register(instr)?,
            OpCode::Str => self.store_register(instr)?,
            OpCode::Not => self.not(instr)?,
            OpCode::Ldi => self.load_indirect(instr)?,
            OpCode::Sti => self.store_indirect(instr)?,
            OpCode::Jmp => self.jump(instr)?,
            OpCode::Lea => self.load_effective_address(instr)?,
            OpCode::Trap => self.trap(instr)?,
        }
        Ok(())
    }

    /// One cycle, unless it would have to wait for a key. Where the cycle
    /// would fail for want of a key, nothing is done: the machine stays exactly
    /// as it was and `Ok(false)` comes back, so that a driver can fetch a key,
    /// feed it to the keyboard and ask again. Every other cycle is carried
    /// out as [`VM::step`] does it, with `Ok(true)` where it succeeds.
    pub fn try_step(&mut self) -> (r: Result<bool, VMError>)
        ensures
            stepped(old(self)@).failure == Some(ErrorKind::STDINRead) ==> r == Ok::<bool, VMError>(
                false,
            ) && final(self)@ == old(self)@,
            stepped(old(self)@).failure != Some(ErrorKind::STDINRead) ==> {
                &&& final(self)@ == stepped(old(self)@).machine
                &&& failure(r) == stepped(old(self)@).failure
                &&& r is Ok ==> r == Ok::<bool, VMError>(true)
            },
    {
        let regs = self.regs.inner;
        let status = self.mem.inner[KBSR as usize];
        let data = self.mem.inner[KBDR as usize];
        let keys = self.mem.keyboard.duplicate();
        let written = self.output.len();
        let flushed = self.output.flushed_len();
        match self.step() {
            Ok(()) => Ok(true),
            Err(e) => {
                match e.kind() {
                    ErrorKind::STDINRead => {
                        proof {
                            lemma_starved_cycle(old(self)@);
                        }
                        self.regs.inner = regs;
                        self.mem.inner[KBSR as usize] = status;
                        self.mem.inner[KBDR as usize] = data;
                        self.mem.keyboard = keys;
                        self.mem.reads = Ghost(old(self).mem.reads@);
                        self.output.rewind(written, flushed);
                        proof {
                            assert(self.regs@ =~= old(self).regs@);
                            assert(self.mem@.cells =~= old(self).mem@.cells);
                        }
                        Ok(false)
                    },
                    _ => Err(e),
                }
            },
        }
    }

    /// Runs cycles until the machine halts, a cycle fails, or `cycles` of them
    /// have been run. The failure of a cycle is the failure of the run.
    pub fn run_for(&mut self, cycles: u64) -> (r: Result<(), VMError>)
        ensures
            final(self)@ == ran(old(self)@, cycles as nat).machine,
            failure(r) == ran(old(self)@, cycles as nat).failure,
    {
        let mut left = cycles;
        while self.running && left > 0
            invariant
                ran(self@, left as nat) == ran(old(self)@, cycles as nat),
            decreases left,
        {
            self.step()?;
            left -= 1;
        }
        Ok(())
    }

    /// Runs the machine until it halts or a cycle fails. Should it do neither
    /// within 2^64 - 1 cycles, the run ends there with the machine still
    /// running.
    pub fn run(&mut self) -> (r: Result<(), VMError>)
        ensures
            final(self)@ == ran(old(self)@, u64::MAX as nat).machine,
            failure(r) == ran(old(self)@, u64::MAX as nat).failure,
    {
        self.run_for(u64::MAX)
    }
    /// Loads one image: its first two bytes are the origin, and every pair
    /// after them is a word, laid down from the origin upwards, round the end
    /// of memory. All words are big-endian. The two origin bytes are taken off
    /// `file_bytes`. An image of fewer than two bytes is refused with
    /// `NoMoreBytes` and nothing changes; a last byte without a partner gives
    /// `NoMoreBytes` after the words before it were laid down.
    pub fn read_image_file(&mut self, file_bytes: &mut Vec<u8>) -> (r: Result<(), VMError>)
        ensures
            old(file_bytes)@.len() < 2 ==> {
                &&& failure(r) == Some(ErrorKind::NoMoreBytes)
                &&& final(self)@ == old(self)@
                &&& final(file_bytes)@ == old(file_bytes)@
            },
            old(file_bytes)@.len() >= 2 ==> {
                &&& final(file_bytes)@ == old(file_bytes)@.subrange(
                    2,
                    old(file_bytes)@.len() as int,
                )
                &&& final(self)@ == (Machine {
                    mem: MemoryView {
                        cells: laid(
                            old(self)@.mem.cells,
                            image_origin(old(file_bytes)@),
                            image_words(old(file_bytes)@),
                        ),
                        ..old(self)@.mem
                    },
                    ..old(self)@
                })
                &&& failure(r) == if old(file_bytes)@.len() % 2 == 0 {
                    None
                } else {
                    Some(ErrorKind::NoMoreBytes)
                }
            },
    {
        if file_bytes.len() < 2 {
            return Err(VMError::NoMoreBytes(String::from_str("No origin in image")));
        }
        // Get the first 2 bytes and join them to get the origin
        let byte0 = file_bytes.remove(0);
        let byte1 = file_bytes.remove(0);
        let origin = word_from_be_bytes(byte0, byte1);

        // Get chunks of 2 bytes and join them so we get the data.
        // This data starts to get written from memory address = origin
        let ghost words = image_words(old(file_bytes)@);
        let ghost cells = old(self)@.mem.cells;
        let mut mem_addr = origin;
        let mut at: usize = 0;
        while at + 1 < file_bytes.len()
            invariant
                at % 2 == 0,
                at <= file_bytes@.len(),
                old(file_bytes)@.len() >= 2,
                file_bytes@.len() == old(file_bytes)@.len() - 2,
                file_bytes@ == old(file_bytes)@.subrange(2, old(file_bytes)@.len() as int),
                words == image_words(old(file_bytes)@),
                origin == image_origin(old(file_bytes)@),
                cells == old(self)@.mem.cells,
                cells.len() == MEMORY_MAX,
                mem_addr == cell_above(origin, at as int / 2),
                self@ == (Machine {
                    mem: MemoryView {
                        cells: laid(cells, origin, words.subrange(0, at as int / 2)),
                        ..old(self)@.mem
                    },
                    ..old(self)@
                }),
            decreases file_bytes@.len() - at,
        {
            let data = word_from_be_bytes(file_bytes[at], file_bytes[at + 1]);
            proof {
                let k = at as int / 2;
                assert(words.subrange(0, k + 1).drop_last() =~= words.subrange(0, k));
            }
            self.mem.write(mem_addr as usize, data)?;
            mem_addr = mem_addr.wrapping_add(1);
            at += 2;
        }
        proof {
            assert(words.subrange(0, at as int / 2) =~= words);
        }
        if at < file_bytes.len() {
            return Err(VMError::NoMoreBytes(String::from_str("No byte1 in chunk")));
        }
        Ok(())
    }
}

impl Default for VM {
    /// A machine in which every register, the program counter and the
    /// condition register among them, and every memory cell is 0.
    fn default() -> (vm: Self)
        ensures
            vm@.running,
            vm@.regs.len() == REGS_COUNT,
            forall|i: int| 0 <= i < REGS_COUNT ==> vm@.regs[i] == 0,
            vm@.mem.cells.len() == MEMORY_MAX,
            forall|a: int| 0 <= a < MEMORY_MAX ==> vm@.mem.cells[a] == 0,
            vm@.mem.keys == Seq::<u8>::empty(),
            vm@.mem.reads == 0,
            vm@.out == (OutputView { bytes: Seq::<u8>::empty(), flushed: None, closed: false }),
    {
        Self {
            mem: Memory::new(),
            regs: Registers::new(),
            running: true,
            output: HostOutput::new(),
        }
    }
}

/// Joins two bytes into a word, the first of them as its high byte.
pub fn word_from_be_bytes(high: u8, low: u8) -> (word: u16)
    ensures
        word == be_word(high, low),
{
    let word = ((high as u16) << 8) | (low as u16);
    assert(word == (high as u16) * 256 + (low as u16)) by (bit_vector)
        requires
            word == ((high as u16) << 8) | (low as u16),
    ;
    word
}

} // verus!