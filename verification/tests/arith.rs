use trip_night::machine::Machine;
use trip_night::ops::make_legacy_set;
use trip_night::ops::make_standard_set;
use trip_night::Address;
use trip_night::RegIdent;

fn run(program: &[u8]) -> Machine {
    let mut machine = Machine::new(program, make_standard_set(), 60);
    let cycles = program.len() / 2;
    for _ in 0..cycles {
        machine.cycle(0).unwrap();
    }
    machine
}

fn run_legacy(program: &[u8]) -> Machine {
    let mut machine = Machine::new(program, make_legacy_set(), 60);
    let cycles = program.len() / 2;
    for _ in 0..cycles {
        machine.cycle(0).unwrap();
    }
    machine
}

fn reg(machine: &mut Machine, i: u8) -> u8 {
    machine.state.reg_read(RegIdent::try_from(i).unwrap())
}

#[test]
fn add_overflow_sets_flag_and_wraps() {
    // 200 + 100 = 300: stored 300 mod 256 = 44, flag 1.
    let mut machine = run(&[0x60, 200, 0x61, 100, 0x80, 0x14]);
    assert_eq!(reg(&mut machine, 0), 44);
    assert_eq!(reg(&mut machine, 15), 1);
}

#[test]
fn add_without_overflow_clears_flag() {
    let mut machine = run(&[0x60, 5, 0x61, 3, 0x80, 0x14]);
    assert_eq!(reg(&mut machine, 0), 8);
    assert_eq!(reg(&mut machine, 15), 0);
}

#[test]
fn add_boundary_sum_of_255_does_not_overflow() {
    let mut machine = run(&[0x60, 255, 0x61, 0, 0x80, 0x14]);
    assert_eq!(reg(&mut machine, 0), 255);
    assert_eq!(reg(&mut machine, 15), 0);
    let mut machine = run(&[0x60, 255, 0x61, 1, 0x80, 0x14]);
    assert_eq!(reg(&mut machine, 0), 0);
    assert_eq!(reg(&mut machine, 15), 1);
}

#[test]
fn sub_without_borrow_sets_flag() {
    // 200 - 100 = 100, no borrow: flag 1.
    let mut machine = run(&[0x60, 200, 0x61, 100, 0x80, 0x15]);
    assert_eq!(reg(&mut machine, 0), 100);
    assert_eq!(reg(&mut machine, 15), 1);
}

#[test]
fn sub_with_borrow_clears_flag_and_wraps() {
    // 100 - 200 = -100: stored mod 256 = 156, flag 0.
    let mut machine = run(&[0x60, 100, 0x61, 200, 0x80, 0x15]);
    assert_eq!(reg(&mut machine, 0), 156);
    assert_eq!(reg(&mut machine, 15), 0);
}

#[test]
fn sub_of_equal_values_counts_as_no_borrow() {
    let mut machine = run(&[0x60, 77, 0x61, 77, 0x80, 0x15]);
    assert_eq!(reg(&mut machine, 0), 0);
    assert_eq!(reg(&mut machine, 15), 1);
}

#[test]
fn sub_n_reverses_the_operands() {
    // Y - X with Y = 200, X = 100: 100 stored, flag 1 (no borrow).
    let mut machine = run(&[0x60, 100, 0x61, 200, 0x80, 0x17]);
    assert_eq!(reg(&mut machine, 0), 100);
    assert_eq!(reg(&mut machine, 15), 1);
    // Y - X with Y = 100, X = 200: borrow, 156 stored, flag 0.
    let mut machine = run(&[0x60, 200, 0x61, 100, 0x80, 0x17]);
    assert_eq!(reg(&mut machine, 0), 156);
    assert_eq!(reg(&mut machine, 15), 0);
}

#[test]
fn add_const_wraps_without_flag_effect() {
    let mut machine = run(&[0x60, 0xFF, 0x70, 0x02]);
    assert_eq!(reg(&mut machine, 0), 1);
    assert_eq!(reg(&mut machine, 15), 0);
}

#[test]
fn assign_and_bitwise_ops() {
    let mut machine = run(&[0x60, 0xCC, 0x61, 0xAA, 0x82, 0x00]);
    assert_eq!(reg(&mut machine, 2), 0xCC);
    let mut machine = run(&[0x60, 0xCC, 0x61, 0xAA, 0x80, 0x11]);
    assert_eq!(reg(&mut machine, 0), 0xEE);
    let mut machine = run(&[0x60, 0xCC, 0x61, 0xAA, 0x80, 0x12]);
    assert_eq!(reg(&mut machine, 0), 0x88);
    let mut machine = run(&[0x60, 0xCC, 0x61, 0xAA, 0x80, 0x13]);
    assert_eq!(reg(&mut machine, 0), 0x66);
}

#[test]
fn standard_shift_right_uses_register_x() {
    // X = 6, Y = 9: standard stores 6 >> 1 = 3, flag = bit 0 of 6 = 0.
    let mut machine = run(&[0x60, 6, 0x61, 9, 0x80, 0x16]);
    assert_eq!(reg(&mut machine, 0), 3);
    assert_eq!(reg(&mut machine, 15), 0);
}

#[test]
fn legacy_shift_right_uses_register_y() {
    // X = 6, Y = 9: legacy stores 9 >> 1 = 4, flag = bit 0 of 9 = 1.
    let mut machine = run_legacy(&[0x60, 6, 0x61, 9, 0x80, 0x16]);
    assert_eq!(reg(&mut machine, 0), 4);
    assert_eq!(reg(&mut machine, 15), 1);
}

#[test]
fn shift_modes_agree_when_the_source_registers_are_equal() {
    let program = [0x60, 9, 0x61, 9, 0x80, 0x16];
    let mut standard = run(&program);
    let mut legacy = run_legacy(&program);
    for i in 0..16u8 {
        assert_eq!(reg(&mut standard, i), reg(&mut legacy, i));
    }
    let program = [0x60, 9, 0x61, 9, 0x80, 0x1E];
    let mut standard = run(&program);
    let mut legacy = run_legacy(&program);
    for i in 0..16u8 {
        assert_eq!(reg(&mut standard, i), reg(&mut legacy, i));
    }
}

#[test]
fn standard_shift_left_uses_register_x() {
    // X = 0x81: stored 0x81 << 1 = 0x02 (truncated), flag = bit 7 = 1.
    let mut machine = run(&[0x60, 0x81, 0x61, 0x01, 0x80, 0x1E]);
    assert_eq!(reg(&mut machine, 0), 0x02);
    assert_eq!(reg(&mut machine, 15), 1);
}

#[test]
fn legacy_shift_left_uses_register_y() {
    let mut machine = run_legacy(&[0x60, 0x81, 0x61, 0x01, 0x80, 0x1E]);
    assert_eq!(reg(&mut machine, 0), 0x02);
    assert_eq!(reg(&mut machine, 15), 0);
}

#[test]
fn skip_instructions_move_past_one_instruction() {
    // 0x200: set V0 = 5;  0x202: skip-if-equal 5 (taken);
    // 0x204: skipped;  0x206: set V1 = 9.
    let mut machine = Machine::new(
        &[0x60, 0x05, 0x30, 0x05, 0x61, 0x01, 0x61, 0x09],
        make_standard_set(),
        60,
    );
    for _ in 0..3 {
        machine.cycle(0).unwrap();
    }
    assert_eq!(machine.state.pc, Address(0x208));
    assert_eq!(reg(&mut machine, 1), 9);
}

#[test]
fn skip_not_taken_leaves_the_program_counter_alone() {
    let mut machine = Machine::new(&[0x60, 0x05, 0x30, 0x06], make_standard_set(), 60);
    machine.cycle(0).unwrap();
    machine.cycle(0).unwrap();
    assert_eq!(machine.state.pc, Address(0x204));
}

#[test]
fn skip_on_register_pairs() {
    // V0 = 5, V1 = 5: skip-if-equal-registers taken.
    let mut machine = Machine::new(
        &[0x60, 0x05, 0x61, 0x05, 0x50, 0x10],
        make_standard_set(),
        60,
    );
    for _ in 0..3 {
        machine.cycle(0).unwrap();
    }
    assert_eq!(machine.state.pc, Address(0x208));
    // V0 = 5, V1 = 6: skip-if-unequal-registers taken.
    let mut machine = Machine::new(
        &[0x60, 0x05, 0x61, 0x06, 0x90, 0x10],
        make_standard_set(),
        60,
    );
    for _ in 0..3 {
        machine.cycle(0).unwrap();
    }
    assert_eq!(machine.state.pc, Address(0x208));
}

#[test]
fn jump_offset_adds_register_zero() {
    let mut machine = Machine::new(&[0x60, 0x05, 0xB3, 0x00], make_standard_set(), 60);
    machine.cycle(0).unwrap();
    machine.cycle(0).unwrap();
    assert_eq!(machine.state.pc, Address(0x305));
}
