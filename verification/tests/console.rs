use lc3_vm::error::ErrorKind;
use lc3_vm::hardware::{CondFlag, Memory, MemoryRegister, Register, Registers};
use lc3_vm::host::{HostInput, HostOutput};
use lc3_vm::memory_access::{mem_read, mem_write};
use lc3_vm::trap_routines::{get_c, out, puts, puts_p, trap_in};
use lc3_vm::utils::raw_mode_flags;
use lc3_vm::vm::VM;

#[test]
fn keyboard_cells_have_their_addresses() {
    assert_eq!(MemoryRegister::KeyboardStatus.address(), 0xFE00);
    assert_eq!(MemoryRegister::KeyboardData.address(), 0xFE02);
    assert_eq!(usize::from(MemoryRegister::KeyboardStatus), 0xFE00);
    assert_eq!(usize::from(MemoryRegister::KeyboardData), 0xFE02);
    assert!(0xFE00u16 == MemoryRegister::KeyboardStatus);
    assert!(0xFE02u16 != MemoryRegister::KeyboardStatus);
    assert!(MemoryRegister::KeyboardData == 0xFE02u16);
    assert!(MemoryRegister::KeyboardData != 0xFE00u16);
}

#[test]
fn reading_the_status_cell_latches_a_key() {
    let mut mem = Memory::new();
    mem.keyboard.feed(b'a');
    mem.keyboard.feed(b'b');

    assert_eq!(mem.read(0xFE00).unwrap(), 0x8000);
    assert_eq!(mem.read(0xFE02).unwrap(), 0x0061);
    // Reading the data cell takes no key.
    assert_eq!(mem.read(0xFE02).unwrap(), 0x0061);
    assert_eq!(mem.keyboard.len(), 1);

    assert_eq!(mem.read(0xFE00).unwrap(), 0x8000);
    assert_eq!(mem.read(0xFE02).unwrap(), 0x0062);
    assert!(mem.keyboard.is_empty());

    assert_eq!(
        mem.read(0xFE00).unwrap_err().kind(),
        ErrorKind::STDINRead
    );
    assert_eq!(mem.read(0xFE02).unwrap(), 0x0062);
}

#[test]
fn polling_read_never_waits() {
    let mut mem = Memory::new();
    mem_write(0xFE00, 0x8000, &mut mem).unwrap();
    mem_write(0x0010, 0x0099, &mut mem).unwrap();

    // No key: the status cell is cleared and read.
    assert_eq!(mem_read(0xFE00, &mut mem).unwrap(), 0x0000);
    assert_eq!(mem_read(0x0010, &mut mem).unwrap(), 0x0099);

    mem.keyboard.feed(0xFF);
    assert_eq!(mem_read(0xFE00, &mut mem).unwrap(), 0x8000);
    assert_eq!(mem_read(0xFE02, &mut mem).unwrap(), 0x00FF);
    assert!(mem.keyboard.is_empty());
    assert_eq!(mem_read(0xFE00, &mut mem).unwrap(), 0x0000);
    assert_eq!(mem_read(0xFE02, &mut mem).unwrap(), 0x00FF);
}

#[test]
fn get_c_sets_flags_from_the_key() {
    for (key, flag) in [(0u8, CondFlag::Zro), (b'a', CondFlag::Pos), (0xFF, CondFlag::Pos)] {
        let mut regs = Registers::new();
        regs.set(Register::R0, 0xFFFF);
        let mut reader = HostInput::from_bytes(&[key, b'!']);
        get_c(&mut regs, &mut reader).unwrap();
        assert_eq!(regs.get(Register::R0), key as u16);
        assert_eq!(regs.get(Register::Cond), flag.value());
        assert_eq!(reader.len(), 1);
    }
}

#[test]
fn out_writes_the_low_byte_only() {
    let mut regs = Registers::new();
    regs.set(Register::R0, 0x1241);
    let mut writer = HostOutput::new();
    out(&mut regs, &mut writer).unwrap();
    assert_eq!(writer.bytes().as_slice(), &[0x41]);
    // OUT does not flush.
    assert_eq!(writer.flushed_len(), None);
    assert_eq!(regs.get(Register::R0), 0x1241);
}

#[test]
fn trap_in_prompts_reads_echoes_and_flushes() {
    let mut regs = Registers::new();
    let mut writer = HostOutput::new();
    let mut reader = HostInput::from_bytes(b"qr");
    trap_in(&mut regs, &mut writer, &mut reader).unwrap();

    assert_eq!(writer.bytes().as_slice(), b"Enter a character: q");
    assert_eq!(writer.flushed_len(), Some(20));
    assert_eq!(regs.get(Register::R0), b'q' as u16);
    assert_eq!(regs.get(Register::Cond), CondFlag::Pos.value());
    assert_eq!(reader.len(), 1);
}

#[test]
fn trap_in_without_a_key_has_shown_the_prompt() {
    let mut regs = Registers::new();
    let mut writer = HostOutput::new();
    let mut reader = HostInput::new();
    let error = trap_in(&mut regs, &mut writer, &mut reader).unwrap_err();
    assert_eq!(error.kind(), ErrorKind::STDINRead);
    assert_eq!(writer.bytes().as_slice(), b"Enter a character: ");
    assert_eq!(writer.flushed_len(), None);
    assert_eq!(regs.get(Register::R0), 0);
}

#[test]
fn puts_p_skips_a_zero_high_byte() {
    let mut regs = Registers::new();
    let mut mem = Memory::new();
    let mut writer = HostOutput::new();
    regs.set(Register::R0, 0xFFFF);
    // "ab", "c" with nothing in the high byte, then the end. The string wraps
    // round the end of memory.
    mem.write(0xFFFF, 0x6261).unwrap();
    mem.write(0x0000, 0x0063).unwrap();
    mem.write(0x0001, 0x0000).unwrap();
    mem.write(0x0002, 0x6565).unwrap();

    puts_p(&mut regs, &mut mem, &mut writer).unwrap();

    assert_eq!(writer.bytes().as_slice(), b"abc");
    assert_eq!(writer.flushed_len(), Some(3));
}

#[test]
fn puts_of_an_empty_string_only_flushes() {
    let mut regs = Registers::new();
    let mut mem = Memory::new();
    let mut writer = HostOutput::new();
    writer.write_all(b"x");
    puts(&mut regs, &mut mem, &mut writer).unwrap();
    assert_eq!(writer.bytes().as_slice(), b"x");
    assert_eq!(writer.flushed_len(), Some(1));
}

#[test]
fn puts_over_the_status_cell_reads_a_key() {
    let mut regs = Registers::new();
    let mut mem = Memory::new();
    let mut writer = HostOutput::new();
    regs.set(Register::R0, 0xFDFF);
    mem.write(0xFDFF, 0x0041).unwrap();
    mem.keyboard.feed(b'k');

    // 0xFDFF holds 'A'; the status cell then reads 0x8000, whose low byte is 0;
    // the cell after it holds 0 and ends the string.
    puts(&mut regs, &mut mem, &mut writer).unwrap();
    assert_eq!(writer.bytes().as_slice(), &[0x41, 0x00]);
    assert!(mem.keyboard.is_empty());
    assert_eq!(mem.read(0xFE02).unwrap(), b'k' as u16);

    // Without a key the routine stops at the status cell.
    let mut writer = HostOutput::new();
    let error = puts(&mut regs, &mut mem, &mut writer).unwrap_err();
    assert_eq!(error.kind(), ErrorKind::STDINRead);
    assert_eq!(writer.bytes().as_slice(), &[0x41]);
    assert_eq!(writer.flushed_len(), None);
}

#[test]
fn trap_uses_the_machine_keyboard_and_output() {
    let mut vm = VM::new();
    vm.mem.keyboard.feed(b'7');
    vm.trap(0xF020).unwrap();
    assert_eq!(vm.regs.get(Register::R0), b'7' as u16);
    assert_eq!(vm.regs.get(Register::R7), 0x3000);

    vm.trap(0xF021).unwrap();
    assert_eq!(vm.output.bytes().as_slice(), b"7");

    vm.mem.keyboard.feed(b'8');
    vm.trap(0xF023).unwrap();
    assert_eq!(vm.output.bytes().as_slice(), b"7Enter a character: 8");
    assert_eq!(vm.regs.get(Register::R0), b'8' as u16);

    vm.regs.set(Register::R0, 0x5000);
    vm.mem.write(0x5000, 0x4948).unwrap();
    vm.trap(0xF024).unwrap();
    assert_eq!(vm.output.bytes().as_slice(), b"7Enter a character: 8HI");
    assert!(vm.running);
}

#[test]
fn try_step_waits_for_a_key_without_changing_anything() {
    // GETC; OUT; HALT
    let mut vm = VM::new();
    vm.mem.write(0x3000, 0xF020).unwrap();
    vm.mem.write(0x3001, 0xF021).unwrap();
    vm.mem.write(0x3002, 0xF025).unwrap();
    vm.regs.set(Register::R7, 0x0777);

    assert_eq!(vm.try_step().unwrap(), false);
    assert_eq!(vm.regs.get(Register::PC), 0x3000);
    assert_eq!(vm.regs.get(Register::R7), 0x0777);
    assert_eq!(vm.try_step().unwrap(), false);
    assert_eq!(vm.regs.get(Register::PC), 0x3000);

    vm.mem.keyboard.feed(b'y');
    assert_eq!(vm.try_step().unwrap(), true);
    assert_eq!(vm.regs.get(Register::R0), b'y' as u16);
    assert_eq!(vm.regs.get(Register::R7), 0x3001);
    assert_eq!(vm.try_step().unwrap(), true);
    assert_eq!(vm.try_step().unwrap(), true);
    assert!(!vm.running);
    assert_eq!(vm.output.bytes().as_slice(), b"yHALT\n");
}

#[test]
fn try_step_takes_back_what_a_starved_cycle_did() {
    // IN: the prompt goes out before the key is asked for.
    let mut vm = VM::new();
    vm.mem.write(0x3000, 0xF023).unwrap();
    vm.output.write_all(b"old");
    vm.output.flush();
    assert_eq!(vm.try_step().unwrap(), false);
    assert_eq!(vm.output.bytes().as_slice(), b"old");
    assert_eq!(vm.output.flushed_len(), Some(3));
    assert_eq!(vm.regs.get(Register::PC), 0x3000);

    // PUTS over the status cell, twice round memory: two keys are needed.
    let mut vm = VM::new();
    for addr in 0..=0xFFFFusize {
        vm.mem.write(addr, 0x0041).unwrap();
    }
    vm.mem.write(0x3000, 0xF022).unwrap();
    vm.regs.set(Register::R0, 0xFE00);
    vm.mem.keyboard.feed(b'1');
    assert_eq!(vm.try_step().unwrap(), false);
    assert!(vm.output.bytes().is_empty());
    assert_eq!(vm.mem.keyboard.len(), 1);
    assert_eq!(vm.regs.get(Register::PC), 0x3000);
    assert_eq!(vm.mem.inner[0xFE00], 0x0041);
    assert_eq!(vm.mem.inner[0xFE02], 0x0041);

    // The second key is 0: it ends the string at the data cell.
    vm.mem.keyboard.feed(0);
    assert_eq!(vm.try_step().unwrap(), true);
    assert_eq!(vm.output.bytes().len(), 1 + 1 + 0xFFFE + 2);
    assert!(vm.mem.keyboard.is_empty());
}

#[test]
fn try_step_passes_other_failures_on() {
    let mut vm = VM::new();
    vm.mem.write(0x3000, 0x8000).unwrap();
    let error = vm.try_step().unwrap_err();
    assert_eq!(error.kind(), ErrorKind::Conversion);
    assert_eq!(vm.regs.get(Register::PC), 0x3001);
}

#[test]
fn fetch_from_the_status_cell_takes_a_key() {
    let mut vm = VM::new();
    vm.regs.set(Register::PC, 0xFE00);
    let error = vm.step().unwrap_err();
    assert_eq!(error.kind(), ErrorKind::STDINRead);
    assert_eq!(vm.regs.get(Register::PC), 0xFE01);

    // With a key the word fetched is 0x8000, which is no instruction.
    let mut vm = VM::new();
    vm.regs.set(Register::PC, 0xFE00);
    vm.mem.keyboard.feed(b'a');
    let error = vm.step().unwrap_err();
    assert_eq!(error.kind(), ErrorKind::Conversion);
}

#[test]
fn output_can_be_taken_and_rewound() {
    let mut writer = HostOutput::new();
    assert!(writer.write_all(b"abc"));
    assert!(writer.flush());
    assert!(writer.write_all(b"de"));
    assert_eq!(writer.len(), 5);
    assert_eq!(writer.flushed_len(), Some(3));

    writer.rewind(4, Some(3));
    assert_eq!(writer.bytes().as_slice(), b"abcd");
    writer.rewind(9, None);
    assert_eq!(writer.bytes().as_slice(), b"abcd");
    assert_eq!(writer.flushed_len(), None);

    assert_eq!(writer.take(), b"abcd".to_vec());
    assert!(writer.bytes().is_empty());
    assert_eq!(writer.flushed_len(), None);
    assert!(!writer.is_closed());
}

#[test]
fn input_can_be_duplicated() {
    let mut reader = HostInput::from_bytes(b"xyz");
    let mut copy = reader.duplicate();
    assert_eq!(reader.next(), Some(b'x'));
    assert_eq!(copy.len(), 3);
    assert_eq!(copy.next(), Some(b'x'));
    assert_eq!(copy.next(), Some(b'y'));
    assert_eq!(copy.next(), Some(b'z'));
    assert_eq!(copy.next(), None);
}

#[test]
fn raw_mode_clears_canonical_and_echo() {
    assert_eq!(raw_mode_flags(0o105073, 0o2, 0o10), 0o105061);
    assert_eq!(raw_mode_flags(0, 0o2, 0o10), 0);
    assert_eq!(raw_mode_flags(u64::MAX, 0x100, 0x8), u64::MAX & !0x108);
    assert_eq!(raw_mode_flags(0o12, 0o2, 0o10), 0);
}
