//! The 16-bit instruction word, its named bit fields, and the 34-slot
//! instruction table that the decoder selects from.

use vstd::prelude::*;

use crate::machine::State;
use crate::machine::StepError;
use crate::Address;
use crate::RegIdent;

verus! {

/// CLS
pub const OP_00E0: usize = 0;
/// RET
pub const OP_00EE: usize = 1;

/// JP addr
pub const OP_1NNN: usize = 2;

/// CALL addr
pub const OP_2NNN: usize = 3;

/// SE Vx, byte
pub const OP_3XNN: usize = 4;

/// SNE Vx, byte
pub const OP_4XNN: usize = 5;

/// SE Vx, Vy
pub const OP_5XY0: usize = 6;

/// LD Vx, byte
pub const OP_6XNN: usize = 7;

/// ADD Vx, byte
pub const OP_7XNN: usize = 8;

/// LD Vx, Vy
pub const OP_8XY0: usize = 9;
/// OR Vx, Vy
pub const OP_8XY1: usize = 10;
/// AND Vx, Vy
pub const OP_8XY2: usize = 11;
/// XOR Vx, Vy
pub const OP_8XY3: usize = 12;
/// ADD Vx, Vy
pub const OP_8XY4: usize = 13;
/// SUB Vx, Vy
pub const OP_8XY5: usize = 14;
/// SHR Vx {, Vy}
pub const OP_8XY6: usize = 15;
/// SUBN Vx, Vy
pub const OP_8XY7: usize = 16;
/// SHL Vx {, Vy}
pub const OP_8XYE: usize = 17;

/// SNE Vx, Vy
pub const OP_9XY0: usize = 18;

/// LD I, addr
pub const OP_ANNN: usize = 19;

/// JP V0, addr
pub const OP_BNNN: usize = 20;

/// RND Vx, byte
pub const OP_CXNN: usize = 21;

/// DRW Vx, Vy, nibble
pub const OP_DXYN: usize = 22;

/// SKP Vx
pub const OP_EX9E: usize = 23;
/// SKNP Vx
pub const OP_EXA1: usize = 24;

/// LD Vx, DT
pub const OP_FX07: usize = 25;
/// LD Vx, K
pub const OP_FX0A: usize = 26;
/// LD DT, Vx
pub const OP_FX15: usize = 27;
/// LD ST, Vx
pub const OP_FX18: usize = 28;
/// ADD I, Vx
pub const OP_FX1E: usize = 29;
/// LD F, Vx
pub const OP_FX29: usize = 30;
/// LD B, Vx
pub const OP_FX33: usize = 31;
/// LD [I], Vx
pub const OP_FX55: usize = 32;
/// LD Vx, [I]
pub const OP_FX65: usize = 33;

/// How many slots an instruction table holds.
pub const SLOT_COUNT: usize = 34;

/// Bits 12..16 of an instruction word: the instruction family.
pub open spec fn spec_first_nibble(op: u16) -> u8 {
    (op >> 12u16) as u8
}

/// Bits 8..12 of an instruction word: the primary register operand X.
pub open spec fn spec_x(op: u16) -> u8 {
    ((op >> 8u16) & 0xFu16) as u8
}

/// Bits 4..8 of an instruction word: the secondary register operand Y.
pub open spec fn spec_y(op: u16) -> u8 {
    ((op >> 4u16) & 0xFu16) as u8
}

/// Bits 0..4 of an instruction word: the 4-bit immediate N.
pub open spec fn spec_n(op: u16) -> u8 {
    (op & 0xFu16) as u8
}

/// Bits 0..8 of an instruction word: the 8-bit immediate NN.
pub open spec fn spec_nn(op: u16) -> u8 {
    (op & 0xFFu16) as u8
}

/// Bits 0..12 of an instruction word: the 12-bit address NNN.
pub open spec fn spec_nnn(op: u16) -> u16 {
    op & 0xFFFu16
}

/// A single 16-bit instruction word, fetched big-endian from memory.
#[derive(Clone, Copy, Debug, PartialEq, Eq, Structural)]
pub struct OpCode(u16);

impl OpCode {
    /// The full 16-bit word.
    pub closed spec fn spec_inner(self) -> u16 {
        self.0
    }

    pub fn new(inner: u16) -> (r: Self)
        ensures
            r.spec_inner() == inner,
    {
        Self(inner)
    }

    pub fn get_inner(self) -> (r: u16)
        ensures
            r == self.spec_inner(),
    {
        self.0
    }

    pub fn get_first_nibble(self) -> (r: u8)
        ensures
            r == spec_first_nibble(self.spec_inner()),
            r <= 0xF,
    {
        let w = self.0;
        proof {
            assert(w >> 12u16 <= 0xF) by (bit_vector);
        }
        (w >> 12u16) as u8
    }

    pub fn get_x(self) -> (r: RegIdent)
        ensures
            r.wf(),
            r.spec_get() == spec_x(self.spec_inner()),
    {
        let w = self.0;
        proof {
            assert((w >> 8u16) & 0xFu16 <= 0xF) by (bit_vector);
        }
        let raw = ((w >> 8u16) & 0xFu16) as u8;
        match RegIdent::try_from(raw) {
            Ok(id) => id,
            Err(()) => RegIdent::try_from(0).unwrap(),
        }
    }

    pub fn get_y(self) -> (r: RegIdent)
        ensures
            r.wf(),
            r.spec_get() == spec_y(self.spec_inner()),
    {
        let w = self.0;
        proof {
            assert((w >> 4u16) & 0xFu16 <= 0xF) by (bit_vector);
        }
        let raw = ((w >> 4u16) & 0xFu16) as u8;
        match RegIdent::try_from(raw) {
            Ok(id) => id,
            Err(()) => RegIdent::try_from(0).unwrap(),
        }
    }

    pub fn get_n(self) -> (r: u8)
        ensures
            r == spec_n(self.spec_inner()),
            r <= 0xF,
    {
        let w = self.0;
        proof {
            assert(w & 0xFu16 <= 0xF) by (bit_vector);
        }
        (w & 0xFu16) as u8
    }

    pub fn get_nn(self) -> (r: u8)
        ensures
            r == spec_nn(self.spec_inner()),
    {
        let w = self.0;
        proof {
            assert(w & 0xFFu16 <= 0xFF) by (bit_vector);
        }
        (w & 0xFFu16) as u8
    }

    pub fn get_nnn(self) -> (r: Address)
        ensures
            r.0 == spec_nnn(self.spec_inner()),
            r.0 <= 0xFFF,
    {
        let w = self.0;
        proof {
            assert(w & 0xFFFu16 <= 0xFFF) by (bit_vector);
        }
        Address(w & 0xFFFu16)
    }
}

/// One slot of the instruction table: which of the machine's operations the
/// slot runs. Slots the table leaves unassigned hold `Nop`, which reads and
/// mutates nothing beyond the fetch already performed.
#[derive(Clone, Copy, Debug, PartialEq, Eq, Structural)]
pub enum OpSlot {
    Nop,
    ClearScreen,
    Ret,
    Jump,
    Call,
    SkipEqConst,
    SkipNeqConst,
    SkipEq,
    SkipNeq,
    JumpOffset,
    SetConst,
    AddConst,
    Assign,
    BitOr,
    BitAnd,
    BitXor,
    Add,
    Sub,
    SubN,
    ShiftRight,
    ShiftRightLegacy,
    ShiftLeft,
    ShiftLeftLegacy,
    Random,
    SetIndex,
    Draw,
}

/// A dense table of exactly 34 executable slots, indexed by the `OP_*`
/// constants. Built by the assembly functions in `ops`.
pub struct InstructionSet {
    pub slots: Vec<OpSlot>,
}

impl View for InstructionSet {
    type V = Seq<OpSlot>;

    open spec fn view(&self) -> Seq<OpSlot> {
        self.slots@
    }
}

impl InstructionSet {
    pub open spec fn wf(&self) -> bool {
        self@.len() == SLOT_COUNT
    }
}

/// An executable instruction slot. Implemented by `OpSlot`; the engine calls
/// through this to run the slot the decoder selected.
pub trait Instruction {
    /// Runs the instruction named by `opcode` against the machine state.
    /// `random_byte` is the byte drawn from the host's random source for this
    /// step; only the `Random` instruction reads it.
    fn execute(&self, opcode: OpCode, random_byte: u8, state: &mut State) -> Result<(), StepError>
        requires
            old(state).wf(),
    ;
}

} // verus!
