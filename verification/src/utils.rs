//! Helpers that most instructions share: sign extension, the condition flags,
//! and single steps of console input and output.

use crate::error::{ErrorKind, VMError};
use crate::hardware::{CondFlag, Register, Registers};
use crate::host::{flushed, written, HostInput, HostOutput};
use vstd::arithmetic::power2::{lemma2_to64, lemma_pow2_unfold, pow2};
use vstd::bits::lemma_u16_shl_is_mul;
use vstd::prelude::*;
use vstd::string::StringExecFns;

verus! {

/// `x` with its bit `width - 1` copied into every higher bit. Widths of 16 and
/// more leave no higher bit to fill, and width 0 names no bit: `x` stays.
pub open spec fn sign_extended(x: u16, width: nat) -> u16 {
    if 1 <= width <= 15 && (x >> ((width - 1) as u16)) & 1 == 1 {
        x | (0xFFFFu16 << (width as u16))
    } else {
        x
    }
}

/// The number that `x` stands for when its low `width` bits are read in two's
/// complement.
pub open spec fn signed_value(x: u16, width: nat) -> int
    recommends
        1 <= width <= 16,
        x < pow2(width),
{
    if x >= pow2((width - 1) as nat) {
        x - pow2(width)
    } else {
        x as int
    }
}

/// Takes a number of `bit_count` bits, held in the low bits of `x`, and widens
/// it to 16 bits with its sign kept. A width of 0 is refused with `Arithmetic`.
pub fn sign_extend(x: u16, bit_count: usize) -> (r: Result<u16, VMError>)
    ensures
        match r {
            Ok(wide) => bit_count >= 1 && wide == sign_extended(x, bit_count as nat),
            Err(e) => bit_count == 0 && e == (VMError::Arithmetic { minuend: 0, subtrahend: 1 }),
        },
{
    let bitcount_sub = match bit_count.checked_sub(1) {
        Some(below) => below,
        None => {
            return Err(VMError::Arithmetic { minuend: bit_count, subtrahend: 1 });
        },
    };
    if bitcount_sub >= 15 {
        return Ok(x);
    }
    let top: u16 = bitcount_sub as u16;
    let width: u16 = bit_count as u16;
    let msb = (x >> top) & 1;
    if msb != 0 {
        assert(msb == 1) by (bit_vector)
            requires
                msb == (x >> top) & 1,
                msb != 0,
        ;
        Ok(x | (0xFFFF << width))
    } else {
        Ok(x)
    }
}

/// Sign extension keeps the number: for a width from 1 to 16 and an `x` that
/// fits in that many bits, the result read as a 16-bit two's-complement number
/// is `x` read as a two's-complement number of that width.
pub proof fn lemma_sign_extend_keeps_value(x: u16, width: nat)
    requires
        1 <= width <= 16,
        x < pow2(width),
    ensures
        signed_value(sign_extended(x, width), 16) == signed_value(x, width),
{
    lemma2_to64();
    if width <= 15 {
        let w = width as u16;
        let below = (width - 1) as u16;
        lemma_u16_shl_is_mul(1, w);
        lemma_u16_shl_is_mul(1, below);
        lemma_pow2_unfold(width);
        assert(x >= (1u16 << below) ==> (x >> below) & 1 == 1 && (x | (0xFFFFu16 << w)) as u32
            == x as u32 + 0x10000u32 - ((1u16 << w) as u32)) by (bit_vector)
            requires
                1 <= w <= 15,
                below == w - 1,
                x < (1u16 << w),
        ;
        assert(x < (1u16 << below) ==> (x >> below) & 1 == 0) by (bit_vector)
            requires
                1 <= w <= 15,
                below == w - 1,
        ;
    }
}

/// The flag bit that describes `value`: zero, negative when bit 15 is set,
/// positive otherwise.
pub open spec fn flag_of(value: u16) -> u16 {
    if value == 0 {
        CondFlag::Zro.spec_value()
    } else if value >= 0x8000 {
        CondFlag::Neg.spec_value()
    } else {
        CondFlag::Pos.spec_value()
    }
}

/// The register file after the condition register was set from the register
/// at place `index`.
pub open spec fn with_flags(regs: Seq<u16>, index: int) -> Seq<u16> {
    regs.update(Register::Cond.spec_index() as int, flag_of(regs[index]))
}

/// Sets the condition register from what register `r` holds: Z for zero, N
/// when bit 15 is set, P otherwise. No other register changes.
pub fn update_flags(r: Register, regs: &mut Registers)
    ensures
        final(regs)@ == with_flags(old(regs)@, r.spec_index() as int),
        final(regs)@[9] == CondFlag::Zro.spec_value() <==> old(regs)@[r.spec_index() as int] == 0,
        final(regs)@[9] == CondFlag::Neg.spec_value() <==> old(regs)@[r.spec_index() as int]
            >= 0x8000,
        final(regs)@[9] == CondFlag::Pos.spec_value() <==> 0 < old(regs)@[r.spec_index() as int]
            < 0x8000,
{
    let value = regs.get(r);
    if value == 0 {
        regs.set(Register::Cond, CondFlag::Zro.value());
    } else if value >> 15 == 1 {
        assert(value >= 0x8000) by (bit_vector)
            requires
                value >> 15 == 1,
        ;
        regs.set(Register::Cond, CondFlag::Neg.value());
    } else {
        assert(value < 0x8000) by (bit_vector)
            requires
                value >> 15 != 1,
        ;
        regs.set(Register::Cond, CondFlag::Pos.value());
    }
}

/// Reads one byte from the host input. With no byte waiting the read fails
/// with `STDINRead`.
pub fn getchar(reader: &mut HostInput) -> (r: Result<[u8; 1], VMError>)
    ensures
        match r {
            Ok(buffer) => {
                &&& old(reader)@.len() > 0
                &&& buffer[0] == old(reader)@[0]
                &&& final(reader)@ == old(reader)@.drop_first()
            },
            Err(e) => {
                &&& old(reader)@.len() == 0
                &&& e.spec_kind() == ErrorKind::STDINRead
                &&& final(reader)@ == old(reader)@
            },
        },
{
    match reader.next() {
        Some(byte) => Ok([byte]),
        None => Err(VMError::STDINRead(String::from_str("failed to fill whole buffer"))),
    }
}

/// Flushes the host output. On a closed output the flush fails with
/// `STDOUTFlush`.
pub fn stdout_flush(writer: &mut HostOutput) -> (r: Result<(), VMError>)
    ensures
        final(writer)@ == flushed(old(writer)@),
        match r {
            Ok(_) => !old(writer)@.closed,
            Err(e) => old(writer)@.closed && e.spec_kind() == ErrorKind::STDOUTFlush,
        },
{
    if writer.flush() {
        Ok(())
    } else {
        Err(VMError::STDOUTFlush(String::from_str("Cannot flush stdout")))
    }
}

/// Writes all of `buffer` to the host output. On a closed output nothing is
/// written and the write fails with `STDOUTWrite`.
pub fn stdout_write(buffer: &[u8], writer: &mut HostOutput) -> (r: Result<(), VMError>)
    ensures
        final(writer)@ == written(old(writer)@, buffer@),
        match r {
            Ok(_) => !old(writer)@.closed,
            Err(e) => old(writer)@.closed && e.spec_kind() == ErrorKind::STDOUTWrite,
        },
{
    if writer.write_all(buffer) {
        Ok(())
    } else {
        Err(VMError::STDOUTWrite(String::from_str("Cannot write on stdout")))
    }
}

/// The local-mode flags of a console for raw input: `flags` with every bit of
/// `canonical` and of `echo` cleared, and every other bit as it was.
pub fn raw_mode_flags(flags: u64, canonical: u64, echo: u64) -> (raw: u64)
    ensures
        raw == flags & !canonical & !echo,
        raw & canonical == 0,
        raw & echo == 0,
        raw | (flags & (canonical | echo)) == flags,
{
    let raw = flags & !canonical & !echo;
    assert(raw & canonical == 0 && raw & echo == 0 && raw | (flags & (canonical | echo))
        == flags) by (bit_vector)
        requires
            raw == flags & !canonical & !echo,
    ;
    raw
}

} // verus!
