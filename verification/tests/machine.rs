use trip_night::machine::Machine;
use trip_night::machine::StepError;
use trip_night::ops::make_standard_set;
use trip_night::screen::PixelState;
use trip_night::Address;
use trip_night::RegIdent;

fn machine_with(program: &[u8]) -> Machine {
    Machine::new(program, make_standard_set(), 60)
}

#[test]
fn initial_state_has_font_program_and_entry_point() {
    let machine = machine_with(&[0xAB, 0xCD]);
    assert_eq!(machine.state.pc, Address(0x200));
    assert_eq!(machine.state.index, Address(0));
    // The glyph table sits at 0x50..0xA0; glyph 0 starts with 0xF0.
    assert_eq!(machine.state.ram[0x4F], 0x00);
    assert_eq!(machine.state.ram[0x50], 0xF0);
    assert_eq!(machine.state.ram[0x9F], 0x80);
    assert_eq!(machine.state.ram[0xA0], 0x00);
    // The program image is loaded verbatim at 0x200.
    assert_eq!(machine.state.ram[0x200], 0xAB);
    assert_eq!(machine.state.ram[0x201], 0xCD);
    assert_eq!(machine.state.ram[0x202], 0x00);
}

#[test]
fn clear_screen_opcode_clears_every_pixel() {
    let mut machine = machine_with(&[0x00, 0xE0]);
    machine.state.screen.set_pixel(3, 4);
    machine.state.screen.set_pixel(63, 31);
    assert_eq!(machine.cycle(0), Ok(()));
    for y in 0..32 {
        assert_eq!(machine.state.screen.get_row(y), 0);
    }
    assert!(machine.state.screen.is_changed());
}

#[test]
fn set_const_opcode_stores_the_immediate() {
    let mut machine = machine_with(&[0x6A, 0x05]);
    assert_eq!(machine.cycle(0), Ok(()));
    let va = RegIdent::try_from(10).unwrap();
    assert_eq!(machine.state.reg_read(va), 5);
    assert_eq!(machine.state.pc, Address(0x202));
}

#[test]
fn set_index_opcode_stores_the_address() {
    let mut machine = machine_with(&[0xA2, 0xF0]);
    assert_eq!(machine.cycle(0), Ok(()));
    assert_eq!(machine.state.index, Address(0x2F0));
}

#[test]
fn draw_opcode_draws_the_sprite_rows_without_collision() {
    let mut machine = machine_with(&[0xA2, 0xF0, 0xD0, 0x05]);
    let sprite = [0x3C, 0xC3, 0xFF, 0x81, 0x5A];
    for (i, b) in sprite.iter().enumerate() {
        machine.state.ram[0x2F0 + i] = *b;
    }
    assert_eq!(machine.cycle(0), Ok(()));
    assert_eq!(machine.cycle(0), Ok(()));
    // Registers 0 and 0 hold 0, so the sprite lands at (0, 0).
    for (i, b) in sprite.iter().enumerate() {
        assert_eq!(machine.state.screen.get_vectored(0, i as u8), *b);
    }
    assert_eq!(machine.state.screen.get_row(5), 0);
    // No prior content: no collision.
    let vf = RegIdent::try_from(15).unwrap();
    assert_eq!(machine.state.reg_read(vf), 0);
    assert!(machine.state.screen.is_changed());
}

#[test]
fn drawing_the_same_sprite_twice_restores_the_screen_and_collides() {
    let mut machine = machine_with(&[0xA2, 0xF0, 0xD0, 0x05, 0xA2, 0xF0, 0xD0, 0x05]);
    let sprite = [0x3C, 0xC3, 0xFF, 0x81, 0x5A];
    for (i, b) in sprite.iter().enumerate() {
        machine.state.ram[0x2F0 + i] = *b;
    }
    for _ in 0..4 {
        assert_eq!(machine.cycle(0), Ok(()));
    }
    for y in 0..32 {
        assert_eq!(machine.state.screen.get_row(y), 0);
    }
    // The second pass erased the first: collision reported.
    let vf = RegIdent::try_from(15).unwrap();
    assert_eq!(machine.state.reg_read(vf), 1);
}

#[test]
fn call_then_return_restores_the_program_counter() {
    // 0x200: call 0x204;  0x202: unreached;  0x204: return.
    let mut machine = machine_with(&[0x22, 0x04, 0x00, 0x00, 0x00, 0xEE]);
    assert_eq!(machine.cycle(0), Ok(()));
    assert_eq!(machine.state.pc, Address(0x204));
    assert_eq!(machine.cycle(0), Ok(()));
    assert_eq!(machine.state.pc, Address(0x202));
}

#[test]
fn seventeenth_nested_call_reports_stack_exhaustion() {
    // Seventeen calls, each to the next instruction.
    let mut program: Vec<u8> = Vec::new();
    for i in 0..17u16 {
        let target = 0x202 + 2 * i;
        program.push(0x20 | (target >> 8) as u8);
        program.push((target & 0xFF) as u8);
    }
    let mut machine = machine_with(&program);
    for _ in 0..16 {
        assert_eq!(machine.cycle(0), Ok(()));
    }
    assert_eq!(machine.cycle(0), Err(StepError::StackExhaustion));
}

#[test]
fn return_with_empty_stack_reports_underflow() {
    let mut machine = machine_with(&[0x00, 0xEE]);
    assert_eq!(machine.cycle(0), Err(StepError::StackUnderflow));
}

#[test]
fn unknown_instruction_is_reported_distinctly() {
    let mut machine = machine_with(&[0xFF, 0xFF]);
    assert_eq!(machine.cycle(0), Err(StepError::UnknownInstruction));
}

#[test]
fn fetch_past_memory_end_reports_range_violation() {
    // Jump to 0xFFF: the next fetch would need bytes 4095 and 4096.
    let mut machine = machine_with(&[0x1F, 0xFF]);
    assert_eq!(machine.cycle(0), Ok(()));
    assert_eq!(machine.cycle(0), Err(StepError::MemoryRangeViolation));
}

#[test]
fn sprite_read_past_memory_end_reports_range_violation() {
    let mut machine = machine_with(&[0xAF, 0xFF, 0xD0, 0x05]);
    assert_eq!(machine.cycle(0), Ok(()));
    assert_eq!(machine.cycle(0), Err(StepError::MemoryRangeViolation));
}

#[test]
fn timers_decay_once_per_modulus_cycles() {
    // At 60 Hz the modulus is 1: both timers decay every cycle.
    let mut machine = machine_with(&[0x12, 0x00]);  // jump-to-self
    machine.state.delay_timer = 3;
    machine.state.sound_timer = 2;
    assert_eq!(machine.cycle(0), Ok(()));
    assert_eq!(machine.state.delay_timer, 2);
    assert_eq!(machine.state.sound_timer, 1);
    assert_eq!(machine.cycle(0), Ok(()));
    assert_eq!(machine.state.delay_timer, 1);
    assert_eq!(machine.state.sound_timer, 0);
}

#[test]
fn timers_never_go_below_zero() {
    let mut machine = machine_with(&[0x12, 0x00]);
    machine.state.delay_timer = 2;
    machine.state.sound_timer = 1;
    for _ in 0..50 {
        assert_eq!(machine.cycle(0), Ok(()));
        assert!(machine.state.delay_timer <= 2);
    }
    assert_eq!(machine.state.delay_timer, 0);
    assert_eq!(machine.state.sound_timer, 0);
}

#[test]
fn timer_decay_respects_the_clock_frequency() {
    // At 700 Hz the modulus is 11: the first decay comes on cycle 11.
    let mut machine = Machine::new(&[0x12, 0x00], make_standard_set(), 700);
    machine.state.delay_timer = 5;
    for _ in 0..10 {
        assert_eq!(machine.cycle(0), Ok(()));
        assert_eq!(machine.state.delay_timer, 5);
    }
    assert_eq!(machine.cycle(0), Ok(()));
    assert_eq!(machine.state.delay_timer, 4);
}

#[test]
fn beeping_while_sound_timer_is_nonzero() {
    let mut machine = machine_with(&[0x12, 0x00]);
    machine.state.sound_timer = 2;
    assert!(machine.is_beeping());
    machine.cycle(0).unwrap();
    assert!(machine.is_beeping());
    machine.cycle(0).unwrap();
    assert!(!machine.is_beeping());
}

#[test]
fn random_opcode_masks_the_drawn_byte() {
    let mut machine = machine_with(&[0xC0, 0xFF, 0xC1, 0x0F]);
    assert_eq!(machine.cycle(0x7A), Ok(()));
    assert_eq!(machine.cycle(0xAB), Ok(()));
    let v0 = RegIdent::try_from(0).unwrap();
    let v1 = RegIdent::try_from(1).unwrap();
    assert_eq!(machine.state.reg_read(v0), 0x7A);
    assert_eq!(machine.state.reg_read(v1), 0x0B);
}

#[test]
fn screen_view_reflects_draws() {
    let mut machine = machine_with(&[0x00, 0xE0]);
    machine.state.screen.set_pixel(7, 9);
    assert_eq!(machine.screen().get_pixel(7, 9), PixelState::On);
}

#[test]
fn dirty_flag_is_cleared_each_cycle() {
    // A cycle running a non-drawing instruction leaves the flag cleared.
    let mut machine = machine_with(&[0x60, 0x01, 0x00, 0xE0]);
    machine.state.screen.set_pixel(0, 0);
    assert!(machine.state.screen.is_changed());
    assert_eq!(machine.cycle(0), Ok(()));
    assert!(!machine.state.screen.is_changed());
    assert_eq!(machine.cycle(0), Ok(()));
    assert!(machine.state.screen.is_changed());
}

#[test]
fn stack_push_and_pop_are_last_in_first_out() {
    let mut machine = machine_with(&[]);
    machine.state.stack_push(Address(0x111));
    machine.state.stack_push(Address(0x222));
    assert_eq!(machine.state.stack_pop(), Address(0x222));
    assert_eq!(machine.state.stack_pop(), Address(0x111));
}

#[test]
fn registers_read_back_what_was_written() {
    let mut machine = machine_with(&[]);
    for i in 0..16u8 {
        let reg = RegIdent::try_from(i).unwrap();
        machine.state.reg_write(reg, 0x40 + i);
    }
    for i in 0..16u8 {
        let reg = RegIdent::try_from(i).unwrap();
        assert_eq!(machine.state.reg_read(reg), 0x40 + i);
        assert_eq!(reg.get(), i);
    }
    assert!(RegIdent::try_from(16).is_err());
}

#[test]
fn draw_wraps_rows_past_the_bottom_edge() {
    // Start at row 30 with height 4: rows 30, 31, then 0 and 1.
    let mut machine = machine_with(&[0x61, 30, 0xA2, 0xF0, 0xD0, 0x14]);
    let sprite = [0x11, 0x22, 0x44, 0x88];
    for (i, b) in sprite.iter().enumerate() {
        machine.state.ram[0x2F0 + i] = *b;
    }
    for _ in 0..3 {
        assert_eq!(machine.cycle(0), Ok(()));
    }
    assert_eq!(machine.state.screen.get_vectored(0, 30), 0x11);
    assert_eq!(machine.state.screen.get_vectored(0, 31), 0x22);
    assert_eq!(machine.state.screen.get_vectored(0, 0), 0x44);
    assert_eq!(machine.state.screen.get_vectored(0, 1), 0x88);
    assert_eq!(machine.state.screen.get_row(2), 0);
}

#[test]
fn unassigned_slots_run_as_no_ops() {
    // The timer and input families decode but their slots are no-ops: only
    // the program counter moves.
    let mut machine = machine_with(&[0xF1, 0x07, 0xE1, 0x9E]);
    machine.state.reg_write(RegIdent::try_from(1).unwrap(), 0x55);
    assert_eq!(machine.cycle(0), Ok(()));
    assert_eq!(machine.cycle(0), Ok(()));
    assert_eq!(machine.state.pc, Address(0x204));
    assert_eq!(machine.state.reg_read(RegIdent::try_from(1).unwrap()), 0x55);
    assert_eq!(machine.state.index, Address(0));
}
