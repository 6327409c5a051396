//! Two-level opcode dispatch: the instruction family (top nibble) first,
//! then, for the ambiguous families, a second discriminant.

use vstd::prelude::*;

use crate::instruction::InstructionSet;
use crate::instruction::OpCode;
use crate::instruction::OpSlot;
use crate::instruction::spec_first_nibble;
use crate::instruction::spec_n;
use crate::instruction::spec_nn;
use crate::instruction::OP_00E0;
use crate::instruction::OP_00EE;
use crate::instruction::OP_1NNN;
use crate::instruction::OP_2NNN;
use crate::instruction::OP_3XNN;
use crate::instruction::OP_4XNN;
use crate::instruction::OP_5XY0;
use crate::instruction::OP_6XNN;
use crate::instruction::OP_7XNN;
use crate::instruction::OP_8XY0;
use crate::instruction::OP_8XY1;
use crate::instruction::OP_8XY2;
use crate::instruction::OP_8XY3;
use crate::instruction::OP_8XY4;
use crate::instruction::OP_8XY5;
use crate::instruction::OP_8XY6;
use crate::instruction::OP_8XY7;
use crate::instruction::OP_8XYE;
use crate::instruction::OP_9XY0;
use crate::instruction::OP_ANNN;
use crate::instruction::OP_BNNN;
use crate::instruction::OP_CXNN;
use crate::instruction::OP_DXYN;
use crate::instruction::OP_EX9E;
use crate::instruction::OP_EXA1;
use crate::instruction::OP_FX07;
use crate::instruction::OP_FX0A;
use crate::instruction::OP_FX15;
use crate::instruction::OP_FX18;
use crate::instruction::OP_FX1E;
use crate::instruction::OP_FX29;
use crate::instruction::OP_FX33;
use crate::instruction::OP_FX55;
use crate::instruction::OP_FX65;

verus! {

/// The decoder found no slot for the given instruction word. Surfaced
/// distinctly so a host can choose to halt, log, or skip.
#[derive(Clone, Copy, Debug, PartialEq, Eq, Structural)]
pub struct UnknownInstructionError;

/// The table slot an instruction word selects, or `None` for every
/// nibble/sub-selector combination absent from the 34-entry table.
pub open spec fn spec_decode(op: u16) -> Option<usize> {
    let fam = spec_first_nibble(op);
    if fam == 0x0 {
        if op == 0x00E0 {
            Some(OP_00E0)
        } else if op == 0x00EE {
            Some(OP_00EE)
        } else {
            None
        }
    } else if fam == 0x1 {
        Some(OP_1NNN)
    } else if fam == 0x2 {
        Some(OP_2NNN)
    } else if fam == 0x3 {
        Some(OP_3XNN)
    } else if fam == 0x4 {
        Some(OP_4XNN)
    } else if fam == 0x5 {
        Some(OP_5XY0)
    } else if fam == 0x6 {
        Some(OP_6XNN)
    } else if fam == 0x7 {
        Some(OP_7XNN)
    } else if fam == 0x8 {
        let n = spec_n(op);
        if n == 0x0 {
            Some(OP_8XY0)
        } else if n == 0x1 {
            Some(OP_8XY1)
        } else if n == 0x2 {
            Some(OP_8XY2)
        } else if n == 0x3 {
            Some(OP_8XY3)
        } else if n == 0x4 {
            Some(OP_8XY4)
        } else if n == 0x5 {
            Some(OP_8XY5)
        } else if n == 0x6 {
            Some(OP_8XY6)
        } else if n == 0x7 {
            Some(OP_8XY7)
        } else if n == 0xE {
            Some(OP_8XYE)
        } else {
            None
        }
    } else if fam == 0x9 {
        Some(OP_9XY0)
    } else if fam == 0xA {
        Some(OP_ANNN)
    } else if fam == 0xB {
        Some(OP_BNNN)
    } else if fam == 0xC {
        Some(OP_CXNN)
    } else if fam == 0xD {
        Some(OP_DXYN)
    } else if fam == 0xE {
        let nn = spec_nn(op);
        if nn == 0x9E {
            Some(OP_EX9E)
        } else if nn == 0xA1 {
            Some(OP_EXA1)
        } else {
            None
        }
    } else if fam == 0xF {
        let nn = spec_nn(op);
        if nn == 0x07 {
            Some(OP_FX07)
        } else if nn == 0x0A {
            Some(OP_FX0A)
        } else if nn == 0x15 {
            Some(OP_FX15)
        } else if nn == 0x18 {
            Some(OP_FX18)
        } else if nn == 0x1E {
            Some(OP_FX1E)
        } else if nn == 0x29 {
            Some(OP_FX29)
        } else if nn == 0x33 {
            Some(OP_FX33)
        } else if nn == 0x55 {
            Some(OP_FX55)
        } else if nn == 0x65 {
            Some(OP_FX65)
        } else {
            None
        }
    } else {
        None
    }
}

/// Returns the table slot matching the instruction word, or reports an
/// unknown instruction for every combination the table does not enumerate;
/// it never falls through to a wrong slot.
pub fn decode_instruction(set: &InstructionSet, op: OpCode) -> (r: Result<
    OpSlot,
    UnknownInstructionError,
>)
    requires
        set.wf(),
    ensures
        r == (match spec_decode(op.spec_inner()) {
            Some(i) => Ok::<OpSlot, UnknownInstructionError>(set@[i as int]),
            None => Err::<OpSlot, UnknownInstructionError>(UnknownInstructionError),
        }),
{
    let instruction = match op.get_first_nibble() {
        0x0 => match op.get_inner() {
            0x00E0 => set.slots[OP_00E0],
            0x00EE => set.slots[OP_00EE],
            _ => {
                return Err(UnknownInstructionError);
            },
        },
        0x1 => set.slots[OP_1NNN],
        0x2 => set.slots[OP_2NNN],
        0x3 => set.slots[OP_3XNN],
        0x4 => set.slots[OP_4XNN],
        0x5 => set.slots[OP_5XY0],
        0x6 => set.slots[OP_6XNN],
        0x7 => set.slots[OP_7XNN],
        0x8 => match op.get_n() {
            0x0 => set.slots[OP_8XY0],
            0x1 => set.slots[OP_8XY1],
            0x2 => set.slots[OP_8XY2],
            0x3 => set.slots[OP_8XY3],
            0x4 => set.slots[OP_8XY4],
            0x5 => set.slots[OP_8XY5],
            0x6 => set.slots[OP_8XY6],
            0x7 => set.slots[OP_8XY7],
            0xE => set.slots[OP_8XYE],
            _ => {
                return Err(UnknownInstructionError);
            },
        },
        0x9 => set.slots[OP_9XY0],
        0xA => set.slots[OP_ANNN],
        0xB => set.slots[OP_BNNN],
        0xC => set.slots[OP_CXNN],
        0xD => set.slots[OP_DXYN],
        0xE => match op.get_nn() {
            0x9E => set.slots[OP_EX9E],
            0xA1 => set.slots[OP_EXA1],
            _ => {
                return Err(UnknownInstructionError);
            },
        },
        _ => match op.get_nn() {
            0x07 => set.slots[OP_FX07],
            0x0A => set.slots[OP_FX0A],
            0x15 => set.slots[OP_FX15],
            0x18 => set.slots[OP_FX18],
            0x1E => set.slots[OP_FX1E],
            0x29 => set.slots[OP_FX29],
            0x33 => set.slots[OP_FX33],
            0x55 => set.slots[OP_FX55],
            0x65 => set.slots[OP_FX65],
            _ => {
                return Err(UnknownInstructionError);
            },
        },
    };

    Ok(instruction)
}

/// Decoding an instruction struct out of the word that selected it.
pub trait DecodeOpCode: Sized {
    fn decode(op: OpCode) -> Self;
}

} // verus!
