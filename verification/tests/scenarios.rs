use lc3_vm::hardware::{CondFlag, Register};
use lc3_vm::vm::VM;

/// An image with the given origin and words, in the file format.
fn image(origin: u16, words: &[u16]) -> Vec<u8> {
    let mut bytes = origin.to_be_bytes().to_vec();
    for word in words {
        bytes.extend_from_slice(&word.to_be_bytes());
    }
    bytes
}

#[test]
fn add_immediate_from_image() {
    let mut vm = VM::new();
    vm.read_image_file(&mut image(0x3000, &[0x1063])).unwrap();
    vm.regs.set(Register::R1, 0x0001);

    vm.step().unwrap();

    assert_eq!(vm.regs.get(Register::R0), 0x0004);
    assert_eq!(vm.regs.get(Register::Cond), CondFlag::Pos.value());
    assert_eq!(vm.regs.get(Register::PC), 0x3001);
}

#[test]
fn and_register_from_image() {
    let mut vm = VM::new();
    vm.read_image_file(&mut image(0x3000, &[0x5042])).unwrap();
    vm.regs.set(Register::R1, 0xFFFF);
    vm.regs.set(Register::R2, 0x00FF);

    vm.step().unwrap();

    assert_eq!(vm.regs.get(Register::R0), 0x00FF);
    assert_eq!(vm.regs.get(Register::Cond), CondFlag::Pos.value());
}

#[test]
fn branch_taken_skips_two_words() {
    let mut vm = VM::new();
    vm.read_image_file(&mut image(0x3000, &[0x0E02, 0x1000, 0x1020, 0x1040]))
        .unwrap();
    vm.regs.set(Register::Cond, CondFlag::Pos.value());

    vm.step().unwrap();

    assert_eq!(vm.regs.get(Register::PC), 0x3003);
    assert_eq!(vm.mem.read(vm.regs.get(Register::PC)).unwrap(), 0x1040);
}

#[test]
fn branch_on_every_flag_is_taken_when_negative() {
    // 0x0E02 selects all three flags, so N branches as P does.
    let mut vm = VM::new();
    vm.read_image_file(&mut image(0x3000, &[0x0E02, 0x1000, 0x1020, 0x1040]))
        .unwrap();
    vm.regs.set(Register::Cond, CondFlag::Neg.value());

    vm.step().unwrap();

    assert_eq!(vm.regs.get(Register::PC), 0x3003);
}

#[test]
fn branch_not_taken_goes_to_next_word() {
    // 0x0202 selects P alone.
    let mut vm = VM::new();
    vm.read_image_file(&mut image(0x3000, &[0x0202, 0x1000, 0x1020, 0x1040]))
        .unwrap();
    vm.regs.set(Register::Cond, CondFlag::Neg.value());

    vm.step().unwrap();

    assert_eq!(vm.regs.get(Register::PC), 0x3001);
    assert_eq!(vm.mem.read(vm.regs.get(Register::PC)).unwrap(), 0x1000);
}

#[test]
fn load_indirect_follows_pointer() {
    let mut vm = VM::new();
    vm.mem.write(0x300F, 0x3100).unwrap();
    vm.mem.write(0x3100, 0x002A).unwrap();
    vm.mem.write(0x3000, 0xA20E).unwrap();

    vm.step().unwrap();

    assert_eq!(vm.regs.get(Register::R1), 0x002A);
    assert_eq!(vm.regs.get(Register::Cond), CondFlag::Pos.value());
    assert_eq!(vm.regs.get(Register::PC), 0x3001);
}

#[test]
fn puts_trap_writes_string_and_flushes() {
    let mut vm = VM::new();
    vm.regs.set(Register::R0, 0x4000);
    vm.mem.write(0x4000, 0x0048).unwrap();
    vm.mem.write(0x4001, 0x0049).unwrap();
    vm.mem.write(0x4002, 0x0021).unwrap();
    vm.mem.write(0x4003, 0x0000).unwrap();
    vm.mem.write(0x3000, 0xF022).unwrap();

    vm.step().unwrap();

    assert_eq!(vm.output.bytes().as_slice(), &[0x48, 0x49, 0x21]);
    assert_eq!(vm.output.flushed_len(), Some(3));
    assert_eq!(vm.regs.get(Register::R7), 0x3001);
    assert!(vm.running);
}

#[test]
fn halt_trap_stops_the_loop() {
    let mut vm = VM::new();
    vm.mem.write(0x3000, 0xF025).unwrap();

    vm.run().unwrap();

    assert_eq!(vm.output.bytes().as_slice(), "HALT\n".as_bytes());
    assert_eq!(vm.output.flushed_len(), Some(5));
    assert!(!vm.running);
    assert_eq!(vm.regs.get(Register::PC), 0x3001);
}

#[test]
fn program_runs_to_halt() {
    // R0 <- 5; R0 <- R0 + R0; ST R0, #1; HALT; (data)
    let mut vm = VM::new();
    vm.read_image_file(&mut image(
        0x3000,
        &[0x5020, 0x1025, 0x1000, 0x3001, 0xF025, 0x0000],
    ))
    .unwrap();

    vm.run().unwrap();

    assert!(!vm.running);
    assert_eq!(vm.regs.get(Register::R0), 10);
    assert_eq!(vm.mem.read(0x3005).unwrap(), 10);
    assert_eq!(vm.regs.get(Register::PC), 0x3005);
}

#[test]
fn run_for_stops_when_cycles_are_spent() {
    // BRnzp #-1: a loop that never ends.
    let mut vm = VM::new();
    vm.mem.write(0x3000, 0x0FFF).unwrap();

    vm.run_for(10).unwrap();

    assert!(vm.running);
    assert_eq!(vm.regs.get(Register::PC), 0x3000);
}

#[test]
fn run_for_zero_cycles_does_nothing() {
    let mut vm = VM::new();
    vm.mem.write(0x3000, 0xF025).unwrap();

    vm.run_for(0).unwrap();

    assert!(vm.running);
    assert_eq!(vm.regs.get(Register::PC), 0x3000);
    assert!(vm.output.bytes().is_empty());
}

#[test]
fn new_machine_is_reset() {
    let mut vm = VM::new();
    assert!(vm.running);
    assert_eq!(vm.regs.get(Register::PC), 0x3000);
    assert_eq!(vm.regs.get(Register::Cond), CondFlag::Zro.value());
    for n in 0..8 {
        assert_eq!(vm.regs.get(Register::from_u16(n).unwrap()), 0);
    }
    assert_eq!(vm.mem.read(0x0000).unwrap(), 0);
    assert_eq!(vm.mem.read(0x3000).unwrap(), 0);
    assert_eq!(vm.mem.read(0xFFFF).unwrap(), 0);
    assert!(vm.mem.keyboard.is_empty());
    assert!(vm.output.bytes().is_empty());
    assert_eq!(vm.output.flushed_len(), None);
}

#[test]
fn default_machine_is_all_zero() {
    let vm = VM::default();
    assert!(vm.running);
    assert_eq!(vm.regs.get(Register::PC), 0);
    assert_eq!(vm.regs.get(Register::Cond), 0);
}

#[test]
fn later_image_overwrites_earlier() {
    let mut vm = VM::new();
    vm.read_image_file(&mut image(0x3000, &[1, 2, 3])).unwrap();
    vm.read_image_file(&mut image(0x3001, &[9])).unwrap();

    assert_eq!(vm.mem.read(0x3000).unwrap(), 1);
    assert_eq!(vm.mem.read(0x3001).unwrap(), 9);
    assert_eq!(vm.mem.read(0x3002).unwrap(), 3);
}
