//! The six service routines, each on the parts of the machine that it touches.

use crate::error::{failure, ErrorKind, VMError};
use crate::hardware::{
    after_read, cell_above, read_fails, read_word, Memory, MemoryView, Register, Registers, KBDR,
    KBSR, MEMORY_MAX,
};
use crate::host::{flushed, written, HostInput, HostOutput, OutputView};
use crate::utils::{getchar, stdout_flush, stdout_write, update_flags, with_flags};
use vstd::prelude::*;

verus! {

/// The word that ends a string.
pub const NULL: u16 = 0x0000;

/// The low eight bits of a word.
pub open spec fn low_byte(word: u16) -> u8 {
    (word & 0xFF) as u8
}

/// The high eight bits of a word.
pub open spec fn high_byte(word: u16) -> u8 {
    (word >> 8) as u8
}

/// Facts about the two halves of a word that the routines rest on.
pub proof fn lemma_word_halves(word: u16)
    by (bit_vector)
    ensures
        word & 0xFF <= 0xFF,
        word >> 8 <= 0xFF,
        word >> 8 == 0 <==> word <= 0xFF,
{
}

/// The register file after a key was taken: R0 holds the byte, and the flags
/// describe it.
pub open spec fn key_stored(regs: Seq<u16>, byte: u8) -> Seq<u16> {
    with_flags(regs.update(0, byte as u16), 0)
}

/// GETC: reads one byte from the host input into R0 and sets the flags from
/// it. With no byte waiting it fails with `STDINRead` and changes nothing.
pub fn get_c(regs: &mut Registers, reader: &mut HostInput) -> (r: Result<(), VMError>)
    ensures
        match r {
            Ok(_) => {
                &&& old(reader)@.len() > 0
                &&& final(reader)@ == old(reader)@.drop_first()
                &&& final(regs)@ == key_stored(old(regs)@, old(reader)@[0])
            },
            Err(e) => {
                &&& old(reader)@.len() == 0
                &&& e.spec_kind() == ErrorKind::STDINRead
                &&& final(reader)@ == old(reader)@
                &&& final(regs)@ == old(regs)@
            },
        },
{
    let buffer = getchar(reader)?;
    let char: u16 = buffer[0] as u16;
    regs.set(Register::R0, char);
    update_flags(Register::R0, regs);
    Ok(())
}

/// OUT: writes the low byte of R0 to the host output. On a closed output it
/// fails with `STDOUTWrite`.
pub fn out(regs: &mut Registers, writer: &mut HostOutput) -> (r: Result<(), VMError>)
    ensures
        final(regs)@ == old(regs)@,
        final(writer)@ == written(old(writer)@, seq![low_byte(old(regs)@[0])]),
        match r {
            Ok(_) => !old(writer)@.closed,
            Err(e) => old(writer)@.closed && e.spec_kind() == ErrorKind::STDOUTWrite,
        },
{
    let word = regs.get(Register::R0);
    proof {
        lemma_word_halves(word);
    }
    let c: u8 = (word & 0xFF) as u8;
    let buffer = [c];
    assert(buffer@ =~= seq![low_byte(word)]);
    stdout_write(&buffer, writer)?;
    Ok(())
}

/// The bytes of the prompt that IN shows: "Enter a character: ".
pub open spec fn prompt() -> Seq<u8> {
    seq![
        0x45u8, 0x6E, 0x74, 0x65, 0x72, 0x20, 0x61, 0x20, 0x63, 0x68, 0x61, 0x72, 0x61, 0x63,
        0x74, 0x65, 0x72, 0x3A, 0x20,
    ]
}

/// What IN leaves behind and how it ends.
pub struct Prompted {
    /// The register file.
    pub regs: Seq<u16>,
    /// The bytes still waiting at the host input.
    pub keys: Seq<u8>,
    /// The host output.
    pub out: OutputView,
    /// The failure, if the routine failed.
    pub failure: Option<ErrorKind>,
}

/// IN as a function: the prompt goes out, one key comes in, is echoed and
/// stored in R0 with the flags set, and the output is flushed. A closed output
/// stops it before the prompt, a missing key after it.
pub open spec fn prompted(regs: Seq<u16>, keys: Seq<u8>, out: OutputView) -> Prompted {
    if out.closed {
        Prompted { regs, keys, out, failure: Some(ErrorKind::STDOUTWrite) }
    } else if keys.len() == 0 {
        Prompted { regs, keys, out: written(out, prompt()), failure: Some(ErrorKind::STDINRead) }
    } else {
        Prompted {
            regs: key_stored(regs, keys[0]),
            keys: keys.drop_first(),
            out: flushed(written(written(out, prompt()), seq![keys[0]])),
            failure: None,
        }
    }
}

/// IN: writes the prompt, reads one byte from the host input, echoes it,
/// stores it in R0, sets the flags from it and flushes the output.
pub fn trap_in(regs: &mut Registers, writer: &mut HostOutput, reader: &mut HostInput) -> (r:
    Result<(), VMError>)
    ensures
        final(regs)@ == prompted(old(regs)@, old(reader)@, old(writer)@).regs,
        final(reader)@ == prompted(old(regs)@, old(reader)@, old(writer)@).keys,
        final(writer)@ == prompted(old(regs)@, old(reader)@, old(writer)@).out,
        failure(r) == prompted(old(regs)@, old(reader)@, old(writer)@).failure,
{
    let text: [u8; 19] = [
        0x45, 0x6E, 0x74, 0x65, 0x72, 0x20, 0x61, 0x20, 0x63, 0x68, 0x61, 0x72, 0x61, 0x63, 0x74,
        0x65, 0x72, 0x3A, 0x20,
    ];
    stdout_write(&text, writer)?;
    let buffer = getchar(reader)?;
    assert(buffer@ =~= seq![buffer[0]]);
    stdout_write(&buffer, writer)?;
    regs.set(Register::R0, buffer[0] as u16);
    update_flags(Register::R0, regs);
    stdout_flush(writer)?;
    Ok(())
}

/// How far `addr` is from the keyboard status cell, going upwards and round
/// the end of memory.
pub open spec fn steps_to_keyboard(addr: u16) -> int {
    if addr <= KBSR {
        KBSR - addr
    } else {
        KBSR + 0x10000 - addr
    }
}

/// The bytes that one word of a string stands for: its low byte, and in a
/// packed string its high byte too unless that is zero.
pub open spec fn glyphs(word: u16, packed: bool) -> Seq<u8> {
    if packed && high_byte(word) != 0 {
        seq![low_byte(word), high_byte(word)]
    } else {
        seq![low_byte(word)]
    }
}

/// What writing a string leaves behind and how it ends.
pub struct Emission {
    /// Memory: reading the string may have latched keys.
    pub mem: MemoryView,
    /// The host output.
    pub out: OutputView,
    /// The failure, if the routine failed.
    pub failure: Option<ErrorKind>,
}

/// PUTS and PUTSP as a function. Words are read from `addr` upwards, round the
/// end of memory. Each word that is not zero sends its bytes to the output; the
/// zero word ends the string with a flush. The routine stops early where a read
/// fails, and at the first word when the output is closed.
pub open spec fn emitted(mem: MemoryView, addr: u16, out: OutputView, packed: bool) -> Emission
    decreases mem.keys.len(), steps_to_keyboard(addr),
{
    if read_fails(mem, addr) {
        Emission { mem, out, failure: Some(ErrorKind::STDINRead) }
    } else if read_word(mem, addr) == NULL {
        Emission {
            mem: after_read(mem, addr),
            out: flushed(out),
            failure: if out.closed {
                Some(ErrorKind::STDOUTFlush)
            } else {
                None
            },
        }
    } else if out.closed {
        Emission { mem: after_read(mem, addr), out, failure: Some(ErrorKind::STDOUTWrite) }
    } else {
        emitted(
            after_read(mem, addr),
            addr.wrapping_add(1),
            written(out, glyphs(read_word(mem, addr), packed)),
            packed,
        )
    }
}

/// The low bytes of the `k` cells from `addr` upwards.
pub open spec fn low_bytes(cells: Seq<u16>, addr: u16, k: nat) -> Seq<u8> {
    Seq::new(k, |i: int| low_byte(cells[cell_above(addr, i)]))
}

/// PUTS writes a string and stops at its end: where the `k` cells from `addr`
/// upwards are not zero and the next one is, the routine succeeds, sends
/// exactly the low bytes of those `k` cells, flushes, and reads exactly `k + 1`
/// cells. This is stated for an open output and for a string that does not
/// run over the keyboard status cell, whose reading changes memory.
pub proof fn lemma_puts_stops_at_zero(mem: MemoryView, addr: u16, out: OutputView, k: nat)
    requires
        mem.cells.len() == MEMORY_MAX,
        !out.closed,
        forall|i: int| 0 <= i < k ==> mem.cells[cell_above(addr, i)] != 0,
        mem.cells[cell_above(addr, k as int)] == 0,
        forall|i: int| 0 <= i <= k ==> cell_above(addr, i) != KBSR,
    ensures
        emitted(mem, addr, out, false).failure is None,
        emitted(mem, addr, out, false).out == flushed(
            written(out, low_bytes(mem.cells, addr, k)),
        ),
        emitted(mem, addr, out, false).mem == (MemoryView { reads: mem.reads + k + 1, ..mem }),
    decreases k,
{
    assert(cell_above(addr, 0) == addr as int);
    if k > 0 {
        let next = addr.wrapping_add(1);
        let mem1 = after_read(mem, addr);
        let word = read_word(mem, addr);
        assert forall|i: int| 0 <= i <= k - 1 implies cell_above(next, i) == cell_above(
            addr,
            i + 1,
        ) by {}
        lemma_puts_stops_at_zero(mem1, next, written(out, glyphs(word, false)), (k - 1) as nat);
        let rest = low_bytes(mem1.cells, next, (k - 1) as nat);
        let all = low_bytes(mem.cells, addr, k);
        assert(out.bytes + glyphs(word, false) + rest =~= out.bytes + all);
    }
}

/// Writing a string changes little: no cell but the two keyboard cells, and of
/// the output only its end, where the new bytes stand.
pub proof fn lemma_emitted_frame(mem: MemoryView, addr: u16, out: OutputView, packed: bool)
    requires
        mem.cells.len() == MEMORY_MAX,
    ensures
        emitted(mem, addr, out, packed).mem.cells.len() == MEMORY_MAX,
        forall|a: int|
            0 <= a < MEMORY_MAX && a != KBSR && a != KBDR ==> #[trigger] emitted(
                mem,
                addr,
                out,
                packed,
            ).mem.cells[a] == mem.cells[a],
        emitted(mem, addr, out, packed).out.closed == out.closed,
        out.bytes.len() <= emitted(mem, addr, out, packed).out.bytes.len(),
        emitted(mem, addr, out, packed).out.bytes.subrange(0, out.bytes.len() as int)
            == out.bytes,
    decreases mem.keys.len(), steps_to_keyboard(addr),
{
    let result = emitted(mem, addr, out, packed);
    if !read_fails(mem, addr) && read_word(mem, addr) != NULL && !out.closed {
        let out1 = written(out, glyphs(read_word(mem, addr), packed));
        lemma_emitted_frame(after_read(mem, addr), addr.wrapping_add(1), out1, packed);
        assert(result.out.bytes.subrange(0, out.bytes.len() as int) =~= result.out.bytes.subrange(
            0,
            out1.bytes.len() as int,
        ).subrange(0, out.bytes.len() as int));
    }
}

/// PUTS: writes the string that starts at the address in R0, one character in
/// the low byte of each word, up to the first zero word, then flushes.
pub fn puts(regs: &mut Registers, mem: &mut Memory, writer: &mut HostOutput) -> (r: Result<
    (),
    VMError,
>)
    ensures
        final(regs)@ == old(regs)@,
        final(mem)@ == emitted(old(mem)@, old(regs)@[0], old(writer)@, false).mem,
        final(writer)@ == emitted(old(mem)@, old(regs)@[0], old(writer)@, false).out,
        failure(r) == emitted(old(mem)@, old(regs)@[0], old(writer)@, false).failure,
{
    let mut c_addr = regs.get(Register::R0);
    loop
        invariant
            emitted(mem@, c_addr, writer@, false) == emitted(
                old(mem)@,
                old(regs)@[0],
                old(writer)@,
                false,
            ),
            regs@ == old(regs)@,
        decreases mem@.keys.len(), steps_to_keyboard(c_addr),
    {
        let c = mem.read(c_addr)?;
        if c == NULL {
            return stdout_flush(writer);
        }
        proof {
            lemma_word_halves(c);
        }
        let char: u8 = (c & 0xFF) as u8;
        let buffer = [char];
        assert(buffer@ =~= glyphs(c, false));
        stdout_write(&buffer, writer)?;
        c_addr = c_addr.wrapping_add(1);
    }
}

/// PUTSP: writes the string that starts at the address in R0, two characters
/// to a word, the low byte first and the high byte unless it is zero, up to the
/// first zero word, then flushes.
pub fn puts_p(regs: &mut Registers, mem: &mut Memory, writer: &mut HostOutput) -> (r: Result<
    (),
    VMError,
>)
    ensures
        final(regs)@ == old(regs)@,
        final(mem)@ == emitted(old(mem)@, old(regs)@[0], old(writer)@, true).mem,
        final(writer)@ == emitted(old(mem)@, old(regs)@[0], old(writer)@, true).out,
        failure(r) == emitted(old(mem)@, old(regs)@[0], old(writer)@, true).failure,
{
    let mut c_addr = regs.get(Register::R0);
    loop
        invariant
            emitted(mem@, c_addr, writer@, true) == emitted(
                old(mem)@,
                old(regs)@[0],
                old(writer)@,
                true,
            ),
            regs@ == old(regs)@,
        decreases mem@.keys.len(), steps_to_keyboard(c_addr),
    {
        let c = mem.read(c_addr)?;
        if c == NULL {
            return stdout_flush(writer);
        }
        proof {
            lemma_word_halves(c);
        }
        let ghost before = writer@;
        let char1: u8 = (c & 0xFF) as u8;
        stdout_write(&[char1], writer)?;
        let char2: u8 = (c >> 8) as u8;
        if char2 != 0x00 {
            stdout_write(&[char2], writer)?;
        }
        assert(writer@.bytes =~= written(before, glyphs(c, true)).bytes);
        c_addr = c_addr.wrapping_add(1);
    }
}

/// The bytes that HALT writes: "HALT" and a line feed.
pub open spec fn halt_banner() -> Seq<u8> {
    seq![0x48u8, 0x41, 0x4C, 0x54, 0x0A]
}

/// HALT: writes "HALT" and a line feed, flushes, and clears the running flag.
/// On a closed output it fails with `STDOUTWrite` and the flag stays.
pub fn halt(running: &mut bool, writer: &mut HostOutput) -> (r: Result<(), VMError>)
    ensures
        match r {
            Ok(_) => {
                &&& !old(writer)@.closed
                &&& !*final(running)
                &&& final(writer)@ == flushed(written(old(writer)@, halt_banner()))
            },
            Err(e) => {
                &&& old(writer)@.closed
                &&& e.spec_kind() == ErrorKind::STDOUTWrite
                &&& *final(running) == *old(running)
                &&& final(writer)@ == old(writer)@
            },
        },
{
    let s: [u8; 5] = [0x48, 0x41, 0x4C, 0x54, 0x0A];
    stdout_write(&s, writer)?;
    stdout_flush(writer)?;
    // Change the flag so the main loop stops
    *running = false;
    Ok(())
}

} // verus!
