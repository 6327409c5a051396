use trip_night::decode::decode_instruction;
use trip_night::instruction::InstructionSet;
use trip_night::instruction::OpCode;
use trip_night::instruction::OpSlot;
use trip_night::instruction::OP_8XY6;
use trip_night::instruction::OP_8XYE;
use trip_night::ops::make_legacy_set;
use trip_night::ops::make_standard_set;

fn decode_std(word: u16) -> Result<OpSlot, trip_night::decode::UnknownInstructionError> {
    let set = make_standard_set();
    decode_instruction(&set, OpCode::new(word))
}

#[test]
fn opcode_bit_fields() {
    let op = OpCode::new(0xD123);
    assert_eq!(op.get_inner(), 0xD123);
    assert_eq!(op.get_first_nibble(), 0xD);
    assert_eq!(op.get_x().get(), 0x1);
    assert_eq!(op.get_y().get(), 0x2);
    assert_eq!(op.get_n(), 0x3);
    assert_eq!(op.get_nn(), 0x23);
    assert_eq!(op.get_nnn().0, 0x123);
}

#[test]
fn canonical_patterns_decode_to_their_slots() {
    assert_eq!(decode_std(0x00E0), Ok(OpSlot::ClearScreen));
    assert_eq!(decode_std(0x00EE), Ok(OpSlot::Ret));
    assert_eq!(decode_std(0x1234), Ok(OpSlot::Jump));
    assert_eq!(decode_std(0x2345), Ok(OpSlot::Call));
    assert_eq!(decode_std(0x3122), Ok(OpSlot::SkipEqConst));
    assert_eq!(decode_std(0x4122), Ok(OpSlot::SkipNeqConst));
    assert_eq!(decode_std(0x5120), Ok(OpSlot::SkipEq));
    assert_eq!(decode_std(0x6122), Ok(OpSlot::SetConst));
    assert_eq!(decode_std(0x7122), Ok(OpSlot::AddConst));
    assert_eq!(decode_std(0x8120), Ok(OpSlot::Assign));
    assert_eq!(decode_std(0x8121), Ok(OpSlot::BitOr));
    assert_eq!(decode_std(0x8122), Ok(OpSlot::BitAnd));
    assert_eq!(decode_std(0x8123), Ok(OpSlot::BitXor));
    assert_eq!(decode_std(0x8124), Ok(OpSlot::Add));
    assert_eq!(decode_std(0x8125), Ok(OpSlot::Sub));
    assert_eq!(decode_std(0x8126), Ok(OpSlot::ShiftRight));
    assert_eq!(decode_std(0x8127), Ok(OpSlot::SubN));
    assert_eq!(decode_std(0x812E), Ok(OpSlot::ShiftLeft));
    assert_eq!(decode_std(0x9120), Ok(OpSlot::SkipNeq));
    assert_eq!(decode_std(0xA123), Ok(OpSlot::SetIndex));
    assert_eq!(decode_std(0xB123), Ok(OpSlot::JumpOffset));
    assert_eq!(decode_std(0xC122), Ok(OpSlot::Random));
    assert_eq!(decode_std(0xD123), Ok(OpSlot::Draw));
    // The input and timer families decode to slots the core leaves as no-ops.
    assert_eq!(decode_std(0xE19E), Ok(OpSlot::Nop));
    assert_eq!(decode_std(0xE1A1), Ok(OpSlot::Nop));
    assert_eq!(decode_std(0xF107), Ok(OpSlot::Nop));
    assert_eq!(decode_std(0xF10A), Ok(OpSlot::Nop));
    assert_eq!(decode_std(0xF115), Ok(OpSlot::Nop));
    assert_eq!(decode_std(0xF118), Ok(OpSlot::Nop));
    assert_eq!(decode_std(0xF11E), Ok(OpSlot::Nop));
    assert_eq!(decode_std(0xF129), Ok(OpSlot::Nop));
    assert_eq!(decode_std(0xF133), Ok(OpSlot::Nop));
    assert_eq!(decode_std(0xF155), Ok(OpSlot::Nop));
    assert_eq!(decode_std(0xF165), Ok(OpSlot::Nop));
}

#[test]
fn absent_combinations_are_unknown() {
    assert!(decode_std(0x0000).is_err());
    assert!(decode_std(0x00E1).is_err());
    assert!(decode_std(0x0123).is_err());
    assert!(decode_std(0x8128).is_err());
    assert!(decode_std(0x8129).is_err());
    assert!(decode_std(0x812D).is_err());
    assert!(decode_std(0x812F).is_err());
    assert!(decode_std(0xE100).is_err());
    assert!(decode_std(0xE19F).is_err());
    assert!(decode_std(0xF100).is_err());
    assert!(decode_std(0xF108).is_err());
    assert!(decode_std(0xFFFF).is_err());
}

fn count_differences(a: &InstructionSet, b: &InstructionSet) -> usize {
    let mut n = 0;
    for i in 0..34 {
        if a.slots[i] != b.slots[i] {
            n += 1;
        }
    }
    n
}

#[test]
fn legacy_set_overrides_exactly_the_two_shifts() {
    let standard = make_standard_set();
    let legacy = make_legacy_set();
    assert_eq!(standard.slots.len(), 34);
    assert_eq!(legacy.slots.len(), 34);
    assert_eq!(standard.slots[OP_8XY6], OpSlot::ShiftRight);
    assert_eq!(standard.slots[OP_8XYE], OpSlot::ShiftLeft);
    assert_eq!(legacy.slots[OP_8XY6], OpSlot::ShiftRightLegacy);
    assert_eq!(legacy.slots[OP_8XYE], OpSlot::ShiftLeftLegacy);
    assert_eq!(count_differences(&standard, &legacy), 2);
}

#[test]
fn legacy_set_decodes_shifts_to_legacy_slots() {
    let legacy = make_legacy_set();
    assert_eq!(
        decode_instruction(&legacy, OpCode::new(0x8126)),
        Ok(OpSlot::ShiftRightLegacy)
    );
    assert_eq!(
        decode_instruction(&legacy, OpCode::new(0x812E)),
        Ok(OpSlot::ShiftLeftLegacy)
    );
}
