//! The machine as mathematics: its state as a value, what each instruction
//! makes of that state, what one cycle and a run of cycles make of it, and the
//! laws that follow.

use crate::error::ErrorKind;
use crate::hardware::{
    after_read, after_write, cell_above, opcode_of, read_fails, read_word, CondFlag, MemoryView,
    OpCode, KBDR, KBSR, MEMORY_MAX, REGS_COUNT,
};
use crate::host::{flushed, written, OutputView};
use crate::trap_code::{trap_code_of, TrapCode};
use crate::trap_routines::{
    emitted, halt_banner, key_stored, lemma_emitted_frame, low_byte, prompted,
};
use crate::utils::{flag_of, sign_extended, with_flags};
use vstd::prelude::*;

verus! {

/// Selects one bit.
pub const ONE_BIT_MASK: u16 = 0b1;

/// Selects the three bits of a register field.
pub const THREE_BIT_MASK: u16 = 0b111;

/// Selects the five bits of `imm5`.
pub const FIVE_BIT_MASK: u16 = 0b11111;

/// Selects the six bits of `offset6`.
pub const SIX_BIT_MASK: u16 = 0b11_1111;

/// Selects the eight bits of a trap vector.
pub const EIGHT_BIT_MASK: u16 = 0b1111_1111;

/// Selects the nine bits of `PCoffset9`.
pub const NINE_BIT_MASK: u16 = 0b1_1111_1111;

/// Selects the eleven bits of `PCoffset11`.
pub const ELEVEN_BIT_MASK: u16 = 0b111_1111_1111;

/// The machine as a value.
pub struct Machine {
    /// Memory, with the keys that wait at its keyboard.
    pub mem: MemoryView,
    /// The ten registers, by their places.
    pub regs: Seq<u16>,
    /// Whether the machine goes on fetching.
    pub running: bool,
    /// The host output.
    pub out: OutputView,
}

/// A machine after some work, and the failure that ended the work, if one did.
pub struct Outcome {
    pub machine: Machine,
    pub failure: Option<ErrorKind>,
}

/// Work that ended well and left `machine`.
pub open spec fn done(machine: Machine) -> Outcome {
    Outcome { machine, failure: None }
}

/// Work that ended in a failure of kind `kind` and left `machine`.
pub open spec fn failed(machine: Machine, kind: ErrorKind) -> Outcome {
    Outcome { machine, failure: Some(kind) }
}

/// The place of the register that bits 11 to 9 name: the destination of most
/// instructions, the source of the stores.
pub open spec fn dr(instr: u16) -> int {
    ((instr >> 9) & THREE_BIT_MASK) as int
}

/// The place of the register that bits 8 to 6 name: the first source, or the
/// base of an address.
pub open spec fn sr1(instr: u16) -> int {
    ((instr >> 6) & THREE_BIT_MASK) as int
}

/// The place of the register that bits 2 to 0 name: the second source.
pub open spec fn sr2(instr: u16) -> int {
    (instr & THREE_BIT_MASK) as int
}

/// Bit 5: whether the second operand is written in the instruction.
pub open spec fn imm_flag(instr: u16) -> bool {
    (instr >> 5) & ONE_BIT_MASK == 1
}

/// Bit 11: whether a JSR names its target by an offset.
pub open spec fn long_flag(instr: u16) -> bool {
    (instr >> 11) & 1 == 1
}

/// Bits 4 to 0 as a signed number.
pub open spec fn imm5(instr: u16) -> u16 {
    sign_extended(instr & FIVE_BIT_MASK, 5)
}

/// Bits 5 to 0 as a signed number.
pub open spec fn offset6(instr: u16) -> u16 {
    sign_extended(instr & SIX_BIT_MASK, 6)
}

/// Bits 8 to 0 as a signed number.
pub open spec fn pc_offset9(instr: u16) -> u16 {
    sign_extended(instr & NINE_BIT_MASK, 9)
}

/// Bits 10 to 0 as a signed number.
pub open spec fn pc_offset11(instr: u16) -> u16 {
    sign_extended(instr & ELEVEN_BIT_MASK, 11)
}

/// The second operand of ADD and AND.
pub open spec fn second_operand(regs: Seq<u16>, instr: u16) -> u16 {
    if imm_flag(instr) {
        imm5(instr)
    } else {
        regs[sr2(instr)]
    }
}

/// A three-bit field names one of the eight general registers.
pub proof fn lemma_register_fields(instr: u16)
    by (bit_vector)
    ensures
        (instr >> 9) & 0b111 <= 7,
        (instr >> 6) & 0b111 <= 7,
        instr & 0b111 <= 7,
{
}

/// The register file after `value` went to the register at place `d` and the
/// flags were set from it.
pub open spec fn loaded(regs: Seq<u16>, d: int, value: u16) -> Seq<u16> {
    with_flags(regs.update(d, value), d)
}

/// ADD: DR gets SR1 plus the second operand, wrapping; flags from DR.
pub open spec fn added(regs: Seq<u16>, instr: u16) -> Seq<u16> {
    loaded(regs, dr(instr), regs[sr1(instr)].wrapping_add(second_operand(regs, instr)))
}

/// AND: DR gets SR1 and the second operand, bit by bit; flags from DR.
pub open spec fn anded(regs: Seq<u16>, instr: u16) -> Seq<u16> {
    loaded(regs, dr(instr), regs[sr1(instr)] & second_operand(regs, instr))
}

/// NOT: DR gets every bit of SR1 turned over; flags from DR.
pub open spec fn negated(regs: Seq<u16>, instr: u16) -> Seq<u16> {
    loaded(regs, dr(instr), !regs[sr1(instr)])
}

/// BR: when the condition register holds one of the flags that bits 11 to 9
/// select, the program counter moves by the offset.
pub open spec fn branched(regs: Seq<u16>, instr: u16) -> Seq<u16> {
    if ((instr >> 9) & THREE_BIT_MASK) & regs[9] != 0 {
        regs.update(8, regs[8].wrapping_add(pc_offset9(instr)))
    } else {
        regs
    }
}

/// JMP: the program counter gets what the base register holds.
pub open spec fn jumped(regs: Seq<u16>, instr: u16) -> Seq<u16> {
    regs.update(8, regs[sr1(instr)])
}

/// JSR and JSRR: R7 gets the program counter, then the program counter moves
/// by the long offset or gets what the base register holds by then.
pub open spec fn linked(regs: Seq<u16>, instr: u16) -> Seq<u16> {
    let saved = regs.update(7, regs[8]);
    if long_flag(instr) {
        saved.update(8, regs[8].wrapping_add(pc_offset11(instr)))
    } else {
        saved.update(8, saved[sr1(instr)])
    }
}

/// LEA: DR gets the program counter plus the offset; flags from DR.
pub open spec fn addressed(regs: Seq<u16>, instr: u16) -> Seq<u16> {
    loaded(regs, dr(instr), regs[8].wrapping_add(pc_offset9(instr)))
}

/// The machine after the cell at `addr` was read into the register at place
/// `d`, with the flags set from it; or the failure of the read.
pub open spec fn fetched_into(m: Machine, d: int, addr: u16) -> Outcome {
    if read_fails(m.mem, addr) {
        failed(m, ErrorKind::STDINRead)
    } else {
        done(
            Machine {
                mem: after_read(m.mem, addr),
                regs: loaded(m.regs, d, read_word(m.mem, addr)),
                ..m
            },
        )
    }
}

/// LD: DR gets the cell at the program counter plus the offset.
pub open spec fn load_outcome(m: Machine, instr: u16) -> Outcome {
    fetched_into(m, dr(instr), m.regs[8].wrapping_add(pc_offset9(instr)))
}

/// LDR: DR gets the cell at the base register plus the offset.
pub open spec fn load_register_outcome(m: Machine, instr: u16) -> Outcome {
    fetched_into(m, dr(instr), m.regs[sr1(instr)].wrapping_add(offset6(instr)))
}

/// LDI: DR gets the cell whose address stands in the cell at the program
/// counter plus the offset.
pub open spec fn load_indirect_outcome(m: Machine, instr: u16) -> Outcome {
    let pointer = m.regs[8].wrapping_add(pc_offset9(instr));
    if read_fails(m.mem, pointer) {
        failed(m, ErrorKind::STDINRead)
    } else {
        fetched_into(
            Machine { mem: after_read(m.mem, pointer), ..m },
            dr(instr),
            read_word(m.mem, pointer),
        )
    }
}

/// ST: the cell at the program counter plus the offset gets the source
/// register.
pub open spec fn stored(m: Machine, instr: u16) -> Machine {
    Machine {
        mem: after_write(
            m.mem,
            m.regs[8].wrapping_add(pc_offset9(instr)) as int,
            m.regs[dr(instr)],
        ),
        ..m
    }
}

/// STR: the cell at the base register plus the offset gets the source
/// register.
pub open spec fn stored_register(m: Machine, instr: u16) -> Machine {
    Machine {
        mem: after_write(
            m.mem,
            m.regs[sr1(instr)].wrapping_add(offset6(instr)) as int,
            m.regs[dr(instr)],
        ),
        ..m
    }
}

/// STI: the cell whose address stands in the cell at the program counter plus
/// the offset gets the source register.
pub open spec fn store_indirect_outcome(m: Machine, instr: u16) -> Outcome {
    let pointer = m.regs[8].wrapping_add(pc_offset9(instr));
    if read_fails(m.mem, pointer) {
        failed(m, ErrorKind::STDINRead)
    } else {
        done(
            Machine {
                mem: after_write(
                    after_read(m.mem, pointer),
                    read_word(m.mem, pointer) as int,
                    m.regs[dr(instr)],
                ),
                ..m
            },
        )
    }
}

/// A service routine asked of the machine: R7 gets the program counter, then
/// the routine that bits 7 to 0 name runs on the machine's own keyboard and
/// output. A code that names no routine fails with `Conversion`, after R7 was
/// set.
pub open spec fn trapped(m: Machine, instr: u16) -> Outcome {
    let m = Machine { regs: m.regs.update(7, m.regs[8]), ..m };
    match trap_code_of(instr & EIGHT_BIT_MASK) {
        None => failed(m, ErrorKind::Conversion),
        Some(TrapCode::GetC) => {
            if m.mem.keys.len() == 0 {
                failed(m, ErrorKind::STDINRead)
            } else {
                done(
                    Machine {
                        regs: key_stored(m.regs, m.mem.keys[0]),
                        mem: MemoryView { keys: m.mem.keys.drop_first(), ..m.mem },
                        ..m
                    },
                )
            }
        },
        Some(TrapCode::Out) => Outcome {
            machine: Machine { out: written(m.out, seq![low_byte(m.regs[0])]), ..m },
            failure: if m.out.closed {
                Some(ErrorKind::STDOUTWrite)
            } else {
                None
            },
        },
        Some(TrapCode::Puts) => {
            let e = emitted(m.mem, m.regs[0], m.out, false);
            Outcome { machine: Machine { mem: e.mem, out: e.out, ..m }, failure: e.failure }
        },
        Some(TrapCode::In) => {
            let p = prompted(m.regs, m.mem.keys, m.out);
            Outcome {
                machine: Machine {
                    regs: p.regs,
                    mem: MemoryView { keys: p.keys, ..m.mem },
                    out: p.out,
                    ..m
                },
                failure: p.failure,
            }
        },
        Some(TrapCode::PutsP) => {
            let e = emitted(m.mem, m.regs[0], m.out, true);
            Outcome { machine: Machine { mem: e.mem, out: e.out, ..m }, failure: e.failure }
        },
        Some(TrapCode::Halt) => {
            if m.out.closed {
                failed(m, ErrorKind::STDOUTWrite)
            } else {
                done(Machine { running: false, out: flushed(written(m.out, halt_banner())), ..m })
            }
        },
    }
}

/// The instruction `instr` carried out on a machine whose program counter has
/// already moved past it. The two opcode nibbles that stand for no operation
/// fail with `Conversion`.
pub open spec fn executed(m: Machine, instr: u16) -> Outcome {
    match opcode_of(instr >> 12) {
        None => failed(m, ErrorKind::Conversion),
        Some(OpCode::Br) => done(Machine { regs: branched(m.regs, instr), ..m }),
        Some(OpCode::Add) => done(Machine { regs: added(m.regs, instr), ..m }),
        Some(OpCode::Ld) => load_outcome(m, instr),
        Some(OpCode::St) => done(stored(m, instr)),
        Some(OpCode::Jsr) => done(Machine { regs: linked(m.regs, instr), ..m }),
        Some(OpCode::And) => done(Machine { regs: anded(m.regs, instr), ..m }),
        Some(OpCode::Ldr) => load_register_outcome(m, instr),
        Some(OpCode::Str) => done(stored_register(m, instr)),
        Some(OpCode::Not) => done(Machine { regs: negated(m.regs, instr), ..m }),
        Some(OpCode::Ldi) => load_indirect_outcome(m, instr),
        Some(OpCode::Sti) => store_indirect_outcome(m, instr),
        Some(OpCode::Jmp) => done(Machine { regs: jumped(m.regs, instr), ..m }),
        Some(OpCode::Lea) => done(Machine { regs: addressed(m.regs, instr), ..m }),
        Some(OpCode::Trap) => trapped(m, instr),
    }
}

/// One cycle: the program counter moves on by one, the word it pointed to is
/// read, and the instruction in that word is carried out. A fetch that fails
/// leaves the program counter moved.
pub open spec fn stepped(m: Machine) -> Outcome {
    let addr = m.regs[8];
    let moved = Machine { regs: m.regs.update(8, addr.wrapping_add(1)), ..m };
    if read_fails(m.mem, addr) {
        failed(moved, ErrorKind::STDINRead)
    } else {
        executed(Machine { mem: after_read(m.mem, addr), ..moved }, read_word(m.mem, addr))
    }
}

/// Up to `cycles` cycles, one after the other, for as long as the machine is
/// running and no cycle fails.
pub open spec fn ran(m: Machine, cycles: nat) -> Outcome
    decreases cycles,
{
    if cycles == 0 || !m.running {
        done(m)
    } else if stepped(m).failure is Some {
        stepped(m)
    } else {
        ran(stepped(m).machine, (cycles - 1) as nat)
    }
}

/// The word whose high byte is `high` and whose low byte is `low`.
pub open spec fn be_word(high: u8, low: u8) -> u16 {
    (high as u16 * 256 + low as u16) as u16
}

/// The origin of an image: its first two bytes as a big-endian word.
pub open spec fn image_origin(bytes: Seq<u8>) -> u16
    recommends
        bytes.len() >= 2,
{
    be_word(bytes[0], bytes[1])
}

/// The data words of an image: every full pair of bytes after the origin, as
/// a big-endian word. A last byte without a partner belongs to no word.
pub open spec fn image_words(bytes: Seq<u8>) -> Seq<u16>
    recommends
        bytes.len() >= 2,
{
    Seq::new(
        ((bytes.len() - 2) / 2) as nat,
        |i: int| be_word(bytes[2 + 2 * i], bytes[3 + 2 * i]),
    )
}

/// The cells after `words` were laid down from `origin` upwards, one after the
/// other, round the end of memory.
pub open spec fn laid(cells: Seq<u16>, origin: u16, words: Seq<u16>) -> Seq<u16>
    decreases words.len(),
{
    if words.len() == 0 {
        cells
    } else {
        laid(cells, origin, words.drop_last()).update(
            cell_above(origin, words.len() - 1),
            words.last(),
        )
    }
}

/// Whether an instruction sets the condition flags when it succeeds: ADD, AND,
/// NOT, the three loads, LEA, and the two service routines that take a key.
pub open spec fn sets_flags(instr: u16) -> bool {
    match opcode_of(instr >> 12) {
        Some(OpCode::Add) | Some(OpCode::And) | Some(OpCode::Not) | Some(OpCode::Ld) | Some(
            OpCode::Ldi,
        ) | Some(OpCode::Ldr) | Some(OpCode::Lea) => true,
        Some(OpCode::Trap) => trap_code_of(instr & EIGHT_BIT_MASK) == Some(TrapCode::GetC)
            || trap_code_of(instr & EIGHT_BIT_MASK) == Some(TrapCode::In),
        _ => false,
    }
}

/// The place of the register that a flag-setting instruction fills: R0 for
/// the service routines, DR for the others.
pub open spec fn flag_source(instr: u16) -> int {
    if opcode_of(instr >> 12) == Some(OpCode::Trap) {
        0
    } else {
        dr(instr)
    }
}

/// Whether an instruction leaves the program counter to the fetch: ADD, AND,
/// NOT, LD, LDI, LDR, LEA, ST, STI and STR.
pub open spec fn is_sequential(instr: u16) -> bool {
    match opcode_of(instr >> 12) {
        Some(OpCode::Add) | Some(OpCode::And) | Some(OpCode::Not) | Some(OpCode::Ld) | Some(
            OpCode::Ldi,
        ) | Some(OpCode::Ldr) | Some(OpCode::Lea) | Some(OpCode::St) | Some(OpCode::Sti) | Some(
            OpCode::Str,
        ) => true,
        _ => false,
    }
}

/// Whether a machine has its ten registers and its 65,536 cells.
pub open spec fn well_formed(m: Machine) -> bool {
    m.regs.len() == REGS_COUNT && m.mem.cells.len() == MEMORY_MAX
}

/// After a flag-setting instruction that succeeded, the condition register
/// holds exactly one of P, Z and N, and it is the flag of what the instruction
/// put into its register.
pub proof fn lemma_flags_one_hot(m: Machine, instr: u16)
    requires
        well_formed(m),
        sets_flags(instr),
        executed(m, instr).failure is None,
    ensures
        executed(m, instr).machine.regs[9] == CondFlag::Pos.spec_value() || executed(
            m,
            instr,
        ).machine.regs[9] == CondFlag::Zro.spec_value() || executed(m, instr).machine.regs[9]
            == CondFlag::Neg.spec_value(),
        executed(m, instr).machine.regs[9] == flag_of(
            executed(m, instr).machine.regs[flag_source(instr)],
        ),
{
    lemma_register_fields(instr);
}

/// A cycle whose instruction is none of BR, JMP, JSR and TRAP leaves the
/// program counter one past where it was, wrapped to 16 bits, whether the
/// instruction succeeds or fails.
pub proof fn lemma_sequential_pc(m: Machine)
    requires
        well_formed(m),
        !read_fails(m.mem, m.regs[8]),
        is_sequential(read_word(m.mem, m.regs[8])),
    ensures
        stepped(m).machine.regs[8] == m.regs[8].wrapping_add(1),
{
    lemma_register_fields(read_word(m.mem, m.regs[8]));
}

/// After a cycle whose instruction is JSR or JSRR, R7 holds the address of
/// the instruction that follows it: the program counter of before the cycle
/// plus one, wrapped to 16 bits.
pub proof fn lemma_jsr_links(m: Machine)
    requires
        well_formed(m),
        !read_fails(m.mem, m.regs[8]),
        opcode_of(read_word(m.mem, m.regs[8]) >> 12) == Some(OpCode::Jsr),
    ensures
        stepped(m).failure is None,
        stepped(m).machine.regs[7] == m.regs[8].wrapping_add(1),
{
    lemma_register_fields(read_word(m.mem, m.regs[8]));
}

/// Laying words down keeps the number of cells.
pub proof fn lemma_laid_len(cells: Seq<u16>, origin: u16, words: Seq<u16>)
    requires
        cells.len() == MEMORY_MAX,
    ensures
        laid(cells, origin, words).len() == MEMORY_MAX,
    decreases words.len(),
{
    if words.len() > 0 {
        lemma_laid_len(cells, origin, words.drop_last());
    }
}

/// An image is found where it was loaded: after `words` were laid down from
/// `origin`, the cell `i` above the origin holds word `i`. This holds of every
/// word that no later word has replaced by another: in an image of more than
/// 65,536 words the late words land on the early ones.
pub proof fn lemma_image_round_trip(cells: Seq<u16>, origin: u16, words: Seq<u16>, i: int)
    requires
        cells.len() == MEMORY_MAX,
        0 <= i < words.len(),
        forall|j: int|
            i < j < words.len() && (j - i) % 0x10000 == 0 ==> words[j] == words[i],
    ensures
        laid(cells, origin, words)[cell_above(origin, i)] == words[i],
    decreases words.len(),
{
    let last = words.len() - 1;
    lemma_laid_len(cells, origin, words.drop_last());
    if i < last {
        lemma_image_round_trip(cells, origin, words.drop_last(), i);
    }
}

/// Loading an image leaves alone every cell that none of its words lands on.
pub proof fn lemma_image_leaves_rest(cells: Seq<u16>, origin: u16, words: Seq<u16>, addr: int)
    requires
        cells.len() == MEMORY_MAX,
        0 <= addr < MEMORY_MAX,
        forall|j: int| 0 <= j < words.len() ==> cell_above(origin, j) != addr,
    ensures
        laid(cells, origin, words)[addr] == cells[addr],
    decreases words.len(),
{
    if words.len() > 0 {
        lemma_laid_len(cells, origin, words.drop_last());
        lemma_image_leaves_rest(cells, origin, words.drop_last(), addr);
    }
}

/// A cycle that fails for want of a key leaves most of the machine alone: the
/// running flag, every cell but the two keyboard cells, and what the output
/// held before the cycle.
pub proof fn lemma_starved_cycle(m: Machine)
    requires
        well_formed(m),
        stepped(m).failure == Some(ErrorKind::STDINRead),
    ensures
        stepped(m).machine.running == m.running,
        stepped(m).machine.regs.len() == REGS_COUNT,
        stepped(m).machine.mem.cells.len() == MEMORY_MAX,
        forall|a: int|
            0 <= a < MEMORY_MAX && a != KBSR && a != KBDR ==> #[trigger] stepped(
                m,
            ).machine.mem.cells[a] == m.mem.cells[a],
        stepped(m).machine.out.closed == m.out.closed,
        m.out.bytes.len() <= stepped(m).machine.out.bytes.len(),
        stepped(m).machine.out.bytes.subrange(0, m.out.bytes.len() as int) == m.out.bytes,
{
    let addr = m.regs[8];
    if !read_fails(m.mem, addr) {
        let instr = read_word(m.mem, addr);
        let fetched = Machine {
            mem: after_read(m.mem, addr),
            regs: m.regs.update(8, addr.wrapping_add(1)),
            ..m
        };
        lemma_register_fields(instr);
        let saved = Machine { regs: fetched.regs.update(7, fetched.regs[8]), ..fetched };
        lemma_emitted_frame(saved.mem, saved.regs[0], saved.out, false);
        lemma_emitted_frame(saved.mem, saved.regs[0], saved.out, true);
    }
}

} // verus!
