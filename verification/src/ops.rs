//! The 34 instruction semantics, the table assembly (standard and legacy
//! shift behavior), and the dispatch of a decoded slot against the machine
//! state.

use vstd::prelude::*;

use crate::decode::DecodeOpCode;
use crate::instruction::InstructionSet;
use crate::instruction::Instruction;
use crate::instruction::OpCode;
use crate::instruction::OpSlot;
use crate::instruction::spec_n;
use crate::instruction::spec_nn;
use crate::instruction::spec_nnn;
use crate::instruction::spec_x;
use crate::instruction::spec_y;
use crate::instruction::OP_00E0;
use crate::instruction::OP_00EE;
use crate::instruction::OP_1NNN;
use crate::instruction::OP_2NNN;
use crate::instruction::OP_3XNN;
use crate::instruction::OP_4XNN;
use crate::instruction::OP_5XY0;
use crate::instruction::OP_6XNN;
use crate::instruction::OP_7XNN;
use crate::instruction::OP_8XY0;
use crate::instruction::OP_8XY1;
use crate::instruction::OP_8XY2;
use crate::instruction::OP_8XY3;
use crate::instruction::OP_8XY4;
use crate::instruction::OP_8XY5;
use crate::instruction::OP_8XY6;
use crate::instruction::OP_8XY7;
use crate::instruction::OP_8XYE;
use crate::instruction::OP_9XY0;
use crate::instruction::OP_ANNN;
use crate::instruction::OP_BNNN;
use crate::instruction::OP_CXNN;
use crate::instruction::OP_DXYN;
use crate::machine::spec_state_wf;
use crate::machine::State;
use crate::machine::StateModel;
use crate::machine::StepError;
use crate::screen::spec_blank_rows;
use crate::screen::spec_draw_collides;
use crate::screen::spec_draw_rows;
use crate::screen::FlipResult;
use crate::screen::ScreenModel;
use crate::Address;
use crate::RegIdent;

verus! {

/// The flag register: register 15, written by arithmetic, shift and draw
/// instructions.
pub open spec fn spec_flag_reg() -> int {
    15
}

/// The program counter advanced past one 2-byte instruction, wrapping as the
/// 16-bit register would.
pub open spec fn spec_pc_plus_2(pc: Address) -> Address {
    Address(((pc.0 + 2) % 0x10000) as u16)
}

/// 00E0: every pixel unset, the framebuffer marked changed.
pub open spec fn spec_clear_screen(s: StateModel) -> StateModel {
    StateModel { screen: ScreenModel { rows: spec_blank_rows(), changed: true }, ..s }
}

/// 00EE: pop the innermost return address into the program counter.
pub open spec fn spec_ret(s: StateModel) -> StateModel
    recommends
        s.stack.len() > 0,
{
    StateModel { pc: s.stack.last(), stack: s.stack.drop_last(), ..s }
}

/// 1NNN: jump.
pub open spec fn spec_jump(s: StateModel, addr: Address) -> StateModel {
    StateModel { pc: addr, ..s }
}

/// 2NNN: push the current program counter, then jump.
pub open spec fn spec_call(s: StateModel, addr: Address) -> StateModel
    recommends
        s.stack.len() < 16,
{
    StateModel { stack: s.stack.push(s.pc), pc: addr, ..s }
}

/// 3XNN: skip the next instruction when register X equals the immediate.
pub open spec fn spec_skip_eq_const(s: StateModel, x: int, nn: u8) -> StateModel
    recommends
        spec_state_wf(s),
        0 <= x < 16,
{
    if s.regs[x] == nn {
        StateModel { pc: spec_pc_plus_2(s.pc), ..s }
    } else {
        s
    }
}

/// 4XNN: skip the next instruction when register X differs from the
/// immediate.
pub open spec fn spec_skip_neq_const(s: StateModel, x: int, nn: u8) -> StateModel
    recommends
        spec_state_wf(s),
        0 <= x < 16,
{
    if s.regs[x] != nn {
        StateModel { pc: spec_pc_plus_2(s.pc), ..s }
    } else {
        s
    }
}

/// 5XY0: skip the next instruction when registers X and Y are equal.
pub open spec fn spec_skip_eq(s: StateModel, x: int, y: int) -> StateModel
    recommends
        spec_state_wf(s),
        0 <= x < 16,
        0 <= y < 16,
{
    if s.regs[x] == s.regs[y] {
        StateModel { pc: spec_pc_plus_2(s.pc), ..s }
    } else {
        s
    }
}

/// 9XY0: skip the next instruction when registers X and Y differ.
pub open spec fn spec_skip_neq(s: StateModel, x: int, y: int) -> StateModel
    recommends
        spec_state_wf(s),
        0 <= x < 16,
        0 <= y < 16,
{
    if s.regs[x] != s.regs[y] {
        StateModel { pc: spec_pc_plus_2(s.pc), ..s }
    } else {
        s
    }
}

/// BNNN: jump to the 12-bit address plus the value of register 0.
pub open spec fn spec_jump_offset(s: StateModel, addr: Address) -> StateModel
    recommends
        spec_state_wf(s),
        addr.0 <= 0xFFF,
{
    StateModel { pc: Address((addr.0 + s.regs[0]) as u16), ..s }
}

/// 6XNN: store the immediate in register X.
pub open spec fn spec_set_const(s: StateModel, x: int, nn: u8) -> StateModel
    recommends
        spec_state_wf(s),
        0 <= x < 16,
{
    StateModel { regs: s.regs.update(x, nn), ..s }
}

/// 7XNN: add the immediate to register X, wrapping, no flag effect.
pub open spec fn spec_add_const(s: StateModel, x: int, nn: u8) -> StateModel
    recommends
        spec_state_wf(s),
        0 <= x < 16,
{
    StateModel { regs: s.regs.update(x, ((s.regs[x] + nn) % 256) as u8), ..s }
}

/// 8XY0: copy register Y into register X.
pub open spec fn spec_assign(s: StateModel, x: int, y: int) -> StateModel
    recommends
        spec_state_wf(s),
        0 <= x < 16,
        0 <= y < 16,
{
    StateModel { regs: s.regs.update(x, s.regs[y]), ..s }
}

/// 8XY1: bitwise OR of X and Y, stored in X.
pub open spec fn spec_bit_or(s: StateModel, x: int, y: int) -> StateModel
    recommends
        spec_state_wf(s),
        0 <= x < 16,
        0 <= y < 16,
{
    StateModel { regs: s.regs.update(x, s.regs[x] | s.regs[y]), ..s }
}

/// 8XY2: bitwise AND of X and Y, stored in X.
pub open spec fn spec_bit_and(s: StateModel, x: int, y: int) -> StateModel
    recommends
        spec_state_wf(s),
        0 <= x < 16,
        0 <= y < 16,
{
    StateModel { regs: s.regs.update(x, s.regs[x] & s.regs[y]), ..s }
}

/// 8XY3: bitwise XOR of X and Y, stored in X.
pub open spec fn spec_bit_xor(s: StateModel, x: int, y: int) -> StateModel
    recommends
        spec_state_wf(s),
        0 <= x < 16,
        0 <= y < 16,
{
    StateModel { regs: s.regs.update(x, s.regs[x] ^ s.regs[y]), ..s }
}

/// 8XY4: X + Y stored in X modulo 256; the flag register becomes 1 exactly
/// when the unsigned sum exceeds 255, else 0. The flag write happens last.
pub open spec fn spec_add(s: StateModel, x: int, y: int) -> StateModel
    recommends
        spec_state_wf(s),
        0 <= x < 16,
        0 <= y < 16,
{
    let sum = s.regs[x] + s.regs[y];
    let flag: u8 = if sum > 255 { 1 } else { 0 };
    StateModel { regs: s.regs.update(x, (sum % 256) as u8).update(spec_flag_reg(), flag), ..s }
}

/// 8XY5: X - Y stored in X modulo 256; the flag register becomes 1 exactly
/// when X >= Y before the subtraction (no borrow), else 0. The flag write
/// happens last.
pub open spec fn spec_sub(s: StateModel, x: int, y: int) -> StateModel
    recommends
        spec_state_wf(s),
        0 <= x < 16,
        0 <= y < 16,
{
    let diff = s.regs[x] - s.regs[y];
    let flag: u8 = if s.regs[x] >= s.regs[y] { 1 } else { 0 };
    StateModel {
        regs: s.regs.update(x, (diff % 256) as u8).update(spec_flag_reg(), flag),
        ..s
    }
}

/// 8XY7: Y - X stored in X modulo 256; the flag register becomes 1 exactly
/// when Y >= X (no borrow), else 0. The flag write happens last.
pub open spec fn spec_sub_n(s: StateModel, x: int, y: int) -> StateModel
    recommends
        spec_state_wf(s),
        0 <= x < 16,
        0 <= y < 16,
{
    let diff = s.regs[y] - s.regs[x];
    let flag: u8 = if s.regs[y] >= s.regs[x] { 1 } else { 0 };
    StateModel {
        regs: s.regs.update(x, (diff % 256) as u8).update(spec_flag_reg(), flag),
        ..s
    }
}

/// The register shifted right by one and the bit shifted out, stored in X
/// and the flag register; `v` is the source register's value.
pub open spec fn spec_shift_right_from(s: StateModel, x: int, v: u8) -> StateModel
    recommends
        spec_state_wf(s),
        0 <= x < 16,
{
    StateModel { regs: s.regs.update(x, v >> 1u8).update(spec_flag_reg(), v & 1), ..s }
}

/// The register shifted left by one and the bit shifted out, stored in X and
/// the flag register; `v` is the source register's value.
pub open spec fn spec_shift_left_from(s: StateModel, x: int, v: u8) -> StateModel
    recommends
        spec_state_wf(s),
        0 <= x < 16,
{
    StateModel {
        regs: s.regs.update(x, ((2 * v) % 256) as u8).update(spec_flag_reg(), v >> 7u8),
        ..s
    }
}

/// 8XY6, standard mode: the shifted operand is register X itself.
pub open spec fn spec_shift_right(s: StateModel, x: int, y: int) -> StateModel
    recommends
        spec_state_wf(s),
        0 <= x < 16,
        0 <= y < 16,
{
    spec_shift_right_from(s, x, s.regs[x])
}

/// 8XY6, legacy mode: the shifted operand is register Y, written into X.
pub open spec fn spec_shift_right_legacy(s: StateModel, x: int, y: int) -> StateModel
    recommends
        spec_state_wf(s),
        0 <= x < 16,
        0 <= y < 16,
{
    spec_shift_right_from(s, x, s.regs[y])
}

/// 8XYE, standard mode: the shifted operand is register X itself.
pub open spec fn spec_shift_left(s: StateModel, x: int, y: int) -> StateModel
    recommends
        spec_state_wf(s),
        0 <= x < 16,
        0 <= y < 16,
{
    spec_shift_left_from(s, x, s.regs[x])
}

/// 8XYE, legacy mode: the shifted operand is register Y, written into X.
pub open spec fn spec_shift_left_legacy(s: StateModel, x: int, y: int) -> StateModel
    recommends
        spec_state_wf(s),
        0 <= x < 16,
        0 <= y < 16,
{
    spec_shift_left_from(s, x, s.regs[y])
}

/// CXNN: the drawn random byte ANDed with the immediate mask, stored in X.
pub open spec fn spec_random(s: StateModel, x: int, random_byte: u8, mask: u8) -> StateModel
    recommends
        spec_state_wf(s),
        0 <= x < 16,
{
    StateModel { regs: s.regs.update(x, random_byte & mask), ..s }
}

/// ANNN: store the 12-bit address in the index register.
pub open spec fn spec_set_index(s: StateModel, addr: Address) -> StateModel {
    StateModel { index: addr, ..s }
}

/// The sprite the index register points at: `height` consecutive bytes.
pub open spec fn spec_sprite(s: StateModel, height: u8) -> Seq<u8>
    recommends
        spec_state_wf(s),
        s.index.0 + height <= 4096,
{
    s.ram.subrange(s.index.0 as int, s.index.0 + height)
}

/// DXYN: XOR-composite the sprite at the index register onto the screen at
/// (register X, register Y), one 8-pixel row per byte; the flag register
/// becomes 1 exactly when any previously set pixel was cleared, else 0.
pub open spec fn spec_draw(s: StateModel, x: int, y: int, height: u8) -> StateModel
    recommends
        spec_state_wf(s),
        0 <= x < 16,
        0 <= y < 16,
        s.index.0 + height <= 4096,
{
    let sprite = spec_sprite(s, height);
    let collided = spec_draw_collides(s.screen.rows, sprite, s.regs[x], s.regs[y]);
    let flag: u8 = if collided { 1 } else { 0 };
    StateModel {
        screen: ScreenModel {
            rows: spec_draw_rows(s.screen.rows, sprite, s.regs[x], s.regs[y]),
            changed: if height > 0 { true } else { s.screen.changed },
        },
        regs: s.regs.update(spec_flag_reg(), flag),
        ..s
    }
}

//=== Display ===//

/// 00E0
///
/// Clear the display.
pub struct ClearScreen;

impl DecodeOpCode for ClearScreen {
    fn decode(opcode: OpCode) -> (r: Self) {
        Self
    }
}

impl ClearScreen {
    pub fn execute(self, state: &mut State)
        requires
            old(state).wf(),
        ensures
            final(state).wf(),
            final(state)@ == spec_clear_screen(old(state)@),
    {
        state.screen.clear();
    }
}

//=== Flow Control ===//

/// 00EE
///
/// Return from a subroutine: pop the innermost return address into the
/// program counter.
pub struct Ret;

impl DecodeOpCode for Ret {
    fn decode(opcode: OpCode) -> (r: Self) {
        Self
    }
}

impl Ret {
    pub fn execute(self, state: &mut State)
        requires
            old(state).wf(),
            old(state)@.stack.len() > 0,
        ensures
            final(state).wf(),
            final(state)@ == spec_ret(old(state)@),
    {
        state.pc = state.stack_pop();
    }
}

/// 1NNN
///
/// Jump: the program counter is set to NNN.
pub struct Jump {
    pub addr: Address,
}

impl DecodeOpCode for Jump {
    fn decode(opcode: OpCode) -> (r: Self)
        ensures
            r.addr.0 == spec_nnn(opcode.spec_inner()),
            r.addr.0 <= 0xFFF,
    {
        Self { addr: opcode.get_nnn() }
    }
}

impl Jump {
    pub fn execute(self, state: &mut State)
        requires
            old(state).wf(),
        ensures
            final(state).wf(),
            final(state)@ == spec_jump(old(state)@, self.addr),
    {
        state.pc = self.addr;
    }
}

/// 2NNN
///
/// Call the subroutine at NNN: push the current program counter onto the
/// call stack, then jump.
pub struct Call {
    pub addr: Address,
}

impl DecodeOpCode for Call {
    fn decode(opcode: OpCode) -> (r: Self)
        ensures
            r.addr.0 == spec_nnn(opcode.spec_inner()),
            r.addr.0 <= 0xFFF,
    {
        Self { addr: opcode.get_nnn() }
    }
}

impl Call {
    pub fn execute(self, state: &mut State)
        requires
            old(state).wf(),
            old(state)@.stack.len() < 16,
        ensures
            final(state).wf(),
            final(state)@ == spec_call(old(state)@, self.addr),
    {
        let here = state.pc;
        state.stack_push(here);
        state.pc = self.addr;
    }
}

/// 3XNN
///
/// Skip the next instruction when register X equals the immediate NN.
pub struct SkipEqConst {
    pub left: RegIdent,
    pub right: u8,
}

impl DecodeOpCode for SkipEqConst {
    fn decode(opcode: OpCode) -> (r: Self)
        ensures
            r.left.wf(),
            r.left.spec_get() == spec_x(opcode.spec_inner()),
            r.right == spec_nn(opcode.spec_inner()),
    {
        Self { left: opcode.get_x(), right: opcode.get_nn() }
    }
}

impl SkipEqConst {
    pub fn execute(self, state: &mut State)
        requires
            old(state).wf(),
            self.left.wf(),
        ensures
            final(state).wf(),
            final(state)@ == spec_skip_eq_const(
                old(state)@,
                self.left.spec_get() as int,
                self.right,
            ),
    {
        let lhs = state.reg_read(self.left);
        let rhs = self.right;

        if lhs == rhs {
            advance_pc(state);
        }
    }
}

/// 4XNN
///
/// Skip the next instruction when register X differs from the immediate NN.
pub struct SkipNeqConst {
    pub left: RegIdent,
    pub right: u8,
}

impl DecodeOpCode for SkipNeqConst {
    fn decode(opcode: OpCode) -> (r: Self)
        ensures
            r.left.wf(),
            r.left.spec_get() == spec_x(opcode.spec_inner()),
            r.right == spec_nn(opcode.spec_inner()),
    {
        Self { left: opcode.get_x(), right: opcode.get_nn() }
    }
}

impl SkipNeqConst {
    pub fn execute(self, state: &mut State)
        requires
            old(state).wf(),
            self.left.wf(),
        ensures
            final(state).wf(),
            final(state)@ == spec_skip_neq_const(
                old(state)@,
                self.left.spec_get() as int,
                self.right,
            ),
    {
        let lhs = state.reg_read(self.left);
        let rhs = self.right;

        if lhs != rhs {
            advance_pc(state);
        }
    }
}

/// 5XY0
///
/// Skip the next instruction when registers X and Y are equal.
pub struct SkipEq {
    pub left: RegIdent,
    pub right: RegIdent,
}

impl DecodeOpCode for SkipEq {
    fn decode(opcode: OpCode) -> (r: Self)
        ensures
            r.left.wf(),
            r.left.spec_get() == spec_x(opcode.spec_inner()),
            r.right.wf(),
            r.right.spec_get() == spec_y(opcode.spec_inner()),
    {
        Self { left: opcode.get_x(), right: opcode.get_y() }
    }
}

impl SkipEq {
    pub fn execute(self, state: &mut State)
        requires
            old(state).wf(),
            self.left.wf(),
            self.right.wf(),
        ensures
            final(state).wf(),
            final(state)@ == spec_skip_eq(
                old(state)@,
                self.left.spec_get() as int,
                self.right.spec_get() as int,
            ),
    {
        let lhs = state.reg_read(self.left);
        let rhs = state.reg_read(self.right);

        if lhs == rhs {
            advance_pc(state);
        }
    }
}

/// 9XY0
///
/// Skip the next instruction when registers X and Y differ.
pub struct SkipNeq {
    pub left: RegIdent,
    pub right: RegIdent,
}

impl DecodeOpCode for SkipNeq {
    fn decode(opcode: OpCode) -> (r: Self)
        ensures
            r.left.wf(),
            r.left.spec_get() == spec_x(opcode.spec_inner()),
            r.right.wf(),
            r.right.spec_get() == spec_y(opcode.spec_inner()),
    {
        Self { left: opcode.get_x(), right: opcode.get_y() }
    }
}

impl SkipNeq {
    pub fn execute(self, state: &mut State)
        requires
            old(state).wf(),
            self.left.wf(),
            self.right.wf(),
        ensures
            final(state).wf(),
            final(state)@ == spec_skip_neq(
                old(state)@,
                self.left.spec_get() as int,
                self.right.spec_get() as int,
            ),
    {
        let lhs = state.reg_read(self.left);
        let rhs = state.reg_read(self.right);

        if lhs != rhs {
            advance_pc(state);
        }
    }
}

/// BNNN
///
/// Jump to NNN plus the value of register 0.
pub struct JumpOffset {
    pub addr: Address,
}

impl DecodeOpCode for JumpOffset {
    fn decode(opcode: OpCode) -> (r: Self)
        ensures
            r.addr.0 == spec_nnn(opcode.spec_inner()),
            r.addr.0 <= 0xFFF,
    {
        Self { addr: opcode.get_nnn() }
    }
}

impl JumpOffset {
    pub fn execute(self, state: &mut State)
        requires
            old(state).wf(),
            self.addr.0 <= 0xFFF,
        ensures
            final(state).wf(),
            final(state)@ == spec_jump_offset(old(state)@, self.addr),
    {
        let offset = state.reg_read(RegIdent::v0());
        state.pc = Address(self.addr.0 + offset as u16);
    }
}

//== Math operations ==//

/// 6XNN
///
/// Store the immediate NN in register X.
pub struct SetConst {
    pub target: RegIdent,
    pub value: u8,
}

impl DecodeOpCode for SetConst {
    fn decode(opcode: OpCode) -> (r: Self)
        ensures
            r.target.wf(),
            r.target.spec_get() == spec_x(opcode.spec_inner()),
            r.value == spec_nn(opcode.spec_inner()),
    {
        Self { target: opcode.get_x(), value: opcode.get_nn() }
    }
}

impl SetConst {
    pub fn execute(self, state: &mut State)
        requires
            old(state).wf(),
            self.target.wf(),
        ensures
            final(state).wf(),
            final(state)@ == spec_set_const(
                old(state)@,
                self.target.spec_get() as int,
                self.value,
            ),
    {
        state.reg_write(self.target, self.value);
    }
}

/// 7XNN
///
/// Add the immediate NN to register X, wrapping on overflow, with no flag
/// register effect.
pub struct AddConst {
    pub target: RegIdent,
    pub value: u8,
}

impl DecodeOpCode for AddConst {
    fn decode(opcode: OpCode) -> (r: Self)
        ensures
            r.target.wf(),
            r.target.spec_get() == spec_x(opcode.spec_inner()),
            r.value == spec_nn(opcode.spec_inner()),
    {
        Self { target: opcode.get_x(), value: opcode.get_nn() }
    }
}

impl AddConst {
    pub fn execute(self, state: &mut State)
        requires
            old(state).wf(),
            self.target.wf(),
        ensures
            final(state).wf(),
            final(state)@ == spec_add_const(
                old(state)@,
                self.target.spec_get() as int,
                self.value,
            ),
    {
        let lhs = state.reg_read(self.target);
        let rhs = self.value;
        let added = lhs.wrapping_add(rhs);
        state.reg_write(self.target, added);
    }
}

/// 8XY0
///
/// Copy register Y into register X.
pub struct Assign {
    pub target: RegIdent,
    pub from: RegIdent,
}

impl DecodeOpCode for Assign {
    fn decode(opcode: OpCode) -> (r: Self)
        ensures
            r.target.wf(),
            r.target.spec_get() == spec_x(opcode.spec_inner()),
            r.from.wf(),
            r.from.spec_get() == spec_y(opcode.spec_inner()),
    {
        Self { target: opcode.get_x(), from: opcode.get_y() }
    }
}

impl Assign {
    pub fn execute(self, state: &mut State)
        requires
            old(state).wf(),
            self.target.wf(),
            self.from.wf(),
        ensures
            final(state).wf(),
            final(state)@ == spec_assign(
                old(state)@,
                self.target.spec_get() as int,
                self.from.spec_get() as int,
            ),
    {
        let new_val = state.reg_read(self.from);
        state.reg_write(self.target, new_val);
    }
}

/// 8XY1
///
/// Bitwise OR of registers X and Y, stored in X.
pub struct BitOr {
    pub left: RegIdent,
    pub right: RegIdent,
}

impl DecodeOpCode for BitOr {
    fn decode(opcode: OpCode) -> (r: Self)
        ensures
            r.left.wf(),
            r.left.spec_get() == spec_x(opcode.spec_inner()),
            r.right.wf(),
            r.right.spec_get() == spec_y(opcode.spec_inner()),
    {
        Self { left: opcode.get_x(), right: opcode.get_y() }
    }
}

impl BitOr {
    pub fn execute(self, state: &mut State)
        requires
            old(state).wf(),
            self.left.wf(),
            self.right.wf(),
        ensures
            final(state).wf(),
            final(state)@ == spec_bit_or(
                old(state)@,
                self.left.spec_get() as int,
                self.right.spec_get() as int,
            ),
    {
        let lhs = state.reg_read(self.left);
        let rhs = state.reg_read(self.right);
        state.reg_write(self.left, lhs | rhs);
    }
}

/// 8XY2
///
/// Bitwise AND of registers X and Y, stored in X.
pub struct BitAnd {
    pub left: RegIdent,
    pub right: RegIdent,
}

impl DecodeOpCode for BitAnd {
    fn decode(opcode: OpCode) -> (r: Self)
        ensures
            r.left.wf(),
            r.left.spec_get() == spec_x(opcode.spec_inner()),
            r.right.wf(),
            r.right.spec_get() == spec_y(opcode.spec_inner()),
    {
        Self { left: opcode.get_x(), right: opcode.get_y() }
    }
}

impl BitAnd {
    pub fn execute(self, state: &mut State)
        requires
            old(state).wf(),
            self.left.wf(),
            self.right.wf(),
        ensures
            final(state).wf(),
            final(state)@ == spec_bit_and(
                old(state)@,
                self.left.spec_get() as int,
                self.right.spec_get() as int,
            ),
    {
        let lhs = state.reg_read(self.left);
        let rhs = state.reg_read(self.right);
        state.reg_write(self.left, lhs & rhs);
    }
}

/// 8XY3
///
/// Bitwise XOR of registers X and Y, stored in X.
pub struct BitXor {
    pub left: RegIdent,
    pub right: RegIdent,
}

impl DecodeOpCode for BitXor {
    fn decode(opcode: OpCode) -> (r: Self)
        ensures
            r.left.wf(),
            r.left.spec_get() == spec_x(opcode.spec_inner()),
            r.right.wf(),
            r.right.spec_get() == spec_y(opcode.spec_inner()),
    {
        Self { left: opcode.get_x(), right: opcode.get_y() }
    }
}

impl BitXor {
    pub fn execute(self, state: &mut State)
        requires
            old(state).wf(),
            self.left.wf(),
            self.right.wf(),
        ensures
            final(state).wf(),
            final(state)@ == spec_bit_xor(
                old(state)@,
                self.left.spec_get() as int,
                self.right.spec_get() as int,
            ),
    {
        let lhs = state.reg_read(self.left);
        let rhs = state.reg_read(self.right);
        state.reg_write(self.left, lhs ^ rhs);
    }
}

/// 8XY4
///
/// X + Y stored in X, wrapping; the flag register becomes 1 exactly when the
/// unsigned sum exceeds 255, else 0.
pub struct Add {
    pub left: RegIdent,
    pub right: RegIdent,
}

impl DecodeOpCode for Add {
    fn decode(opcode: OpCode) -> (r: Self)
        ensures
            r.left.wf(),
            r.left.spec_get() == spec_x(opcode.spec_inner()),
            r.right.wf(),
            r.right.spec_get() == spec_y(opcode.spec_inner()),
    {
        Self { left: opcode.get_x(), right: opcode.get_y() }
    }
}

impl Add {
    pub fn execute(self, state: &mut State)
        requires
            old(state).wf(),
            self.left.wf(),
            self.right.wf(),
        ensures
            final(state).wf(),
            final(state)@ == spec_add(
                old(state)@,
                self.left.spec_get() as int,
                self.right.spec_get() as int,
            ),
    {
        let lhs = state.reg_read(self.left);
        let rhs = state.reg_read(self.right);
        let added = lhs.wrapping_add(rhs);
        let overflowed = (lhs as u16) + (rhs as u16) > 255;

        state.reg_write(self.left, added);
        state.reg_write(RegIdent::vf(), if overflowed { 0x1 } else { 0x0 });
    }
}

/// 8XY5
///
/// X - Y stored in X, wrapping; the flag register becomes 1 exactly when
/// X >= Y before the subtraction (no borrow), else 0.
pub struct Sub {
    pub left: RegIdent,
    pub right: RegIdent,
}

impl DecodeOpCode for Sub {
    fn decode(opcode: OpCode) -> (r: Self)
        ensures
            r.left.wf(),
            r.left.spec_get() == spec_x(opcode.spec_inner()),
            r.right.wf(),
            r.right.spec_get() == spec_y(opcode.spec_inner()),
    {
        Self { left: opcode.get_x(), right: opcode.get_y() }
    }
}

impl Sub {
    pub fn execute(self, state: &mut State)
        requires
            old(state).wf(),
            self.left.wf(),
            self.right.wf(),
        ensures
            final(state).wf(),
            final(state)@ == spec_sub(
                old(state)@,
                self.left.spec_get() as int,
                self.right.spec_get() as int,
            ),
    {
        let lhs = state.reg_read(self.left);
        let rhs = state.reg_read(self.right);
        let subtracted = lhs.wrapping_sub(rhs);

        state.reg_write(self.left, subtracted);
        state.reg_write(RegIdent::vf(), if lhs >= rhs { 0x1 } else { 0x0 });
    }
}

/// 8XY7
///
/// Y - X stored in X, wrapping; the flag register becomes 1 exactly when
/// Y >= X (no borrow), else 0.
pub struct SubN {
    pub left: RegIdent,
    pub right: RegIdent,
}

impl DecodeOpCode for SubN {
    fn decode(opcode: OpCode) -> (r: Self)
        ensures
            r.left.wf(),
            r.left.spec_get() == spec_x(opcode.spec_inner()),
            r.right.wf(),
            r.right.spec_get() == spec_y(opcode.spec_inner()),
    {
        Self { left: opcode.get_x(), right: opcode.get_y() }
    }
}

impl SubN {
    pub fn execute(self, state: &mut State)
        requires
            old(state).wf(),
            self.left.wf(),
            self.right.wf(),
        ensures
            final(state).wf(),
            final(state)@ == spec_sub_n(
                old(state)@,
                self.left.spec_get() as int,
                self.right.spec_get() as int,
            ),
    {
        let lhs = state.reg_read(self.left);
        let rhs = state.reg_read(self.right);
        let subtracted = rhs.wrapping_sub(lhs);

        state.reg_write(self.left, subtracted);
        state.reg_write(RegIdent::vf(), if rhs >= lhs { 0x1 } else { 0x0 });
    }
}

/// 8XY6
///
/// Standard mode: register X shifted right by one, stored in X; the flag
/// register becomes the bit shifted out (bit 0 of the original value).
pub struct ShiftRight {
    pub left: RegIdent,
    pub right: RegIdent,
}

impl DecodeOpCode for ShiftRight {
    fn decode(opcode: OpCode) -> (r: Self)
        ensures
            r.left.wf(),
            r.left.spec_get() == spec_x(opcode.spec_inner()),
            r.right.wf(),
            r.right.spec_get() == spec_y(opcode.spec_inner()),
    {
        Self { left: opcode.get_x(), right: opcode.get_y() }
    }
}

impl ShiftRight {
    pub fn execute(self, state: &mut State)
        requires
            old(state).wf(),
            self.left.wf(),
            self.right.wf(),
        ensures
            final(state).wf(),
            final(state)@ == spec_shift_right(
                old(state)@,
                self.left.spec_get() as int,
                self.right.spec_get() as int,
            ),
    {
        let lhs = state.reg_read(self.left);

        state.reg_write(self.left, lhs >> 1u8);
        state.reg_write(RegIdent::vf(), lhs & 1);
    }
}

/// Legacy 8XY6
///
/// Original hardware behavior: register Y shifted right by one, stored in X;
/// the flag register becomes the bit shifted out of Y.
pub struct ShiftRightLegacy {
    pub left: RegIdent,
    pub right: RegIdent,
}

impl DecodeOpCode for ShiftRightLegacy {
    fn decode(opcode: OpCode) -> (r: Self)
        ensures
            r.left.wf(),
            r.left.spec_get() == spec_x(opcode.spec_inner()),
            r.right.wf(),
            r.right.spec_get() == spec_y(opcode.spec_inner()),
    {
        Self { left: opcode.get_x(), right: opcode.get_y() }
    }
}

impl ShiftRightLegacy {
    pub fn execute(self, state: &mut State)
        requires
            old(state).wf(),
            self.left.wf(),
            self.right.wf(),
        ensures
            final(state).wf(),
            final(state)@ == spec_shift_right_legacy(
                old(state)@,
                self.left.spec_get() as int,
                self.right.spec_get() as int,
            ),
    {
        let rhs = state.reg_read(self.right);

        state.reg_write(self.left, rhs >> 1u8);
        state.reg_write(RegIdent::vf(), rhs & 1);
    }
}

/// 8XYE
///
/// Standard mode: register X shifted left by one, stored in X; the flag
/// register becomes the bit shifted out (bit 7 of the original value).
pub struct ShiftLeft {
    pub left: RegIdent,
    pub right: RegIdent,
}

impl DecodeOpCode for ShiftLeft {
    fn decode(opcode: OpCode) -> (r: Self)
        ensures
            r.left.wf(),
            r.left.spec_get() == spec_x(opcode.spec_inner()),
            r.right.wf(),
            r.right.spec_get() == spec_y(opcode.spec_inner()),
    {
        Self { left: opcode.get_x(), right: opcode.get_y() }
    }
}

impl ShiftLeft {
    pub fn execute(self, state: &mut State)
        requires
            old(state).wf(),
            self.left.wf(),
            self.right.wf(),
        ensures
            final(state).wf(),
            final(state)@ == spec_shift_left(
                old(state)@,
                self.left.spec_get() as int,
                self.right.spec_get() as int,
            ),
    {
        let lhs = state.reg_read(self.left);
        let shifted = lhs.wrapping_mul(2);

        state.reg_write(self.left, shifted);
        state.reg_write(RegIdent::vf(), lhs >> 7u8);
    }
}

/// Legacy 8XYE
///
/// Original hardware behavior: register Y shifted left by one, stored in X;
/// the flag register becomes the bit shifted out of Y.
pub struct ShiftLeftLegacy {
    pub left: RegIdent,
    pub right: RegIdent,
}

impl DecodeOpCode for ShiftLeftLegacy {
    fn decode(opcode: OpCode) -> (r: Self)
        ensures
            r.left.wf(),
            r.left.spec_get() == spec_x(opcode.spec_inner()),
            r.right.wf(),
            r.right.spec_get() == spec_y(opcode.spec_inner()),
    {
        Self { left: opcode.get_x(), right: opcode.get_y() }
    }
}

impl ShiftLeftLegacy {
    pub fn execute(self, state: &mut State)
        requires
            old(state).wf(),
            self.left.wf(),
            self.right.wf(),
        ensures
            final(state).wf(),
            final(state)@ == spec_shift_left_legacy(
                old(state)@,
                self.left.spec_get() as int,
                self.right.spec_get() as int,
            ),
    {
        let rhs = state.reg_read(self.right);
        let shifted = rhs.wrapping_mul(2);

        state.reg_write(self.left, shifted);
        state.reg_write(RegIdent::vf(), rhs >> 7u8);
    }
}

/// CXNN
///
/// Store a random byte ANDed with the immediate mask NN in register X. The
/// byte comes from the host's random source, handed in per step.
pub struct Random {
    pub target: RegIdent,
    pub mask: u8,
}

impl DecodeOpCode for Random {
    fn decode(opcode: OpCode) -> (r: Self)
        ensures
            r.target.wf(),
            r.target.spec_get() == spec_x(opcode.spec_inner()),
            r.mask == spec_nn(opcode.spec_inner()),
    {
        Self { target: opcode.get_x(), mask: opcode.get_nn() }
    }
}

impl Random {
    pub fn execute(self, random_byte: u8, state: &mut State)
        requires
            old(state).wf(),
            self.target.wf(),
        ensures
            final(state).wf(),
            final(state)@ == spec_random(
                old(state)@,
                self.target.spec_get() as int,
                random_byte,
                self.mask,
            ),
    {
        let result = random_byte & self.mask;
        state.reg_write(self.target, result);
    }
}

//=== Memory ===//

/// ANNN
///
/// Store NNN in the index register.
pub struct SetIndex {
    pub addr: Address,
}

impl DecodeOpCode for SetIndex {
    fn decode(opcode: OpCode) -> (r: Self)
        ensures
            r.addr.0 == spec_nnn(opcode.spec_inner()),
            r.addr.0 <= 0xFFF,
    {
        Self { addr: opcode.get_nnn() }
    }
}

impl SetIndex {
    pub fn execute(self, state: &mut State)
        requires
            old(state).wf(),
        ensures
            final(state).wf(),
            final(state)@ == spec_set_index(old(state)@, self.addr),
    {
        state.index = self.addr;
    }
}

/// DXYN
///
/// Display an N-byte sprite starting at the memory location the index
/// register holds, at (register X, register Y): each byte is XORed onto the
/// screen as one 8-pixel row; the flag register becomes 1 exactly when any
/// previously set pixel was cleared. Coordinates alias modulo 64 and 32;
/// sprite bits past column 63 are dropped, not wrapped.
pub struct Draw {
    pub x_reg: RegIdent,
    pub y_reg: RegIdent,
    pub height: u8,
}

impl DecodeOpCode for Draw {
    fn decode(opcode: OpCode) -> (r: Self)
        ensures
            r.x_reg.wf(),
            r.x_reg.spec_get() == spec_x(opcode.spec_inner()),
            r.y_reg.wf(),
            r.y_reg.spec_get() == spec_y(opcode.spec_inner()),
            r.height == spec_n(opcode.spec_inner()),
            r.height <= 0xF,
    {
        Self { x_reg: opcode.get_x(), y_reg: opcode.get_y(), height: opcode.get_n() }
    }
}

impl Draw {
    #[verifier::loop_isolation(false)]
    pub fn execute(self, state: &mut State)
        requires
            old(state).wf(),
            self.x_reg.wf(),
            self.y_reg.wf(),
            old(state)@.index.0 + self.height <= 4096,
        ensures
            final(state).wf(),
            final(state)@ == spec_draw(
                old(state)@,
                self.x_reg.spec_get() as int,
                self.y_reg.spec_get() as int,
                self.height,
            ),
    {
        let x = state.reg_read(self.x_reg);
        let y = state.reg_read(self.y_reg);
        let start = state.index.0 as usize;
        let ghost sprite = spec_sprite(old(state)@, self.height);

        let mut unset_bit = false;
        let mut i: u8 = 0;
        while i < self.height
            invariant
                i <= self.height,
                state.wf(),
                state@.ram == old(state)@.ram,
                state@.pc == old(state)@.pc,
                state@.index == old(state)@.index,
                state@.stack == old(state)@.stack,
                state@.delay_timer == old(state)@.delay_timer,
                state@.sound_timer == old(state)@.sound_timer,
                state@.regs == old(state)@.regs,
                state@.screen.rows == spec_draw_rows(
                    old(state)@.screen.rows,
                    sprite.take(i as int),
                    x,
                    y,
                ),
                state@.screen.changed == (if i == 0 {
                    old(state)@.screen.changed
                } else {
                    true
                }),
                unset_bit == spec_draw_collides(
                    old(state)@.screen.rows,
                    sprite.take(i as int),
                    x,
                    y,
                ),
            decreases self.height - i,
        {
            let sprite_row = state.ram[start + i as usize];
            let yi = y.wrapping_add(i);
            proof {
                assert(sprite.take(i as int + 1) =~= sprite.take(i as int).push(sprite[i as int]));
                assert(sprite[i as int] == old(state)@.ram[start + i]);
                assert(yi == (y + sprite.take(i as int).len()) % 256);
                crate::screen::lemma_draw_rows_push(
                    old(state)@.screen.rows,
                    sprite.take(i as int),
                    sprite_row,
                    x,
                    y,
                    yi,
                );
            }
            match state.screen.flip_vectored(sprite_row, x, yi) {
                FlipResult::UnsetBit => unset_bit = true,
                FlipResult::NoUnsetBit => {},
            }
            i = i + 1;
        }

        if unset_bit {
            state.reg_write(RegIdent::vf(), 0x01);
        } else {
            state.reg_write(RegIdent::vf(), 0x00);
        }
        proof {
            assert(sprite.take(self.height as int) =~= sprite);
        }
    }
}

/// The machine state and outcome after the instruction a table slot holds
/// runs on the word's operands: the instructions that can violate a capacity
/// or range bound (call, return, draw) report it as a distinct error and
/// leave the state untouched; every other slot succeeds.
pub open spec fn spec_exec_slot(slot: OpSlot, op: u16, random_byte: u8, s: StateModel) -> (
    StateModel,
    Result<(), StepError>,
)
    recommends
        spec_state_wf(s),
{
    let x = spec_x(op) as int;
    let y = spec_y(op) as int;
    let n = spec_n(op);
    let nn = spec_nn(op);
    let nnn = Address(spec_nnn(op));
    match slot {
        OpSlot::Nop => (s, Ok(())),
        OpSlot::ClearScreen => (spec_clear_screen(s), Ok(())),
        OpSlot::Ret => if s.stack.len() == 0 {
            (s, Err(StepError::StackUnderflow))
        } else {
            (spec_ret(s), Ok(()))
        },
        OpSlot::Jump => (spec_jump(s, nnn), Ok(())),
        OpSlot::Call => if s.stack.len() >= 16 {
            (s, Err(StepError::StackExhaustion))
        } else {
            (spec_call(s, nnn), Ok(()))
        },
        OpSlot::SkipEqConst => (spec_skip_eq_const(s, x, nn), Ok(())),
        OpSlot::SkipNeqConst => (spec_skip_neq_const(s, x, nn), Ok(())),
        OpSlot::SkipEq => (spec_skip_eq(s, x, y), Ok(())),
        OpSlot::SkipNeq => (spec_skip_neq(s, x, y), Ok(())),
        OpSlot::JumpOffset => (spec_jump_offset(s, nnn), Ok(())),
        OpSlot::SetConst => (spec_set_const(s, x, nn), Ok(())),
        OpSlot::AddConst => (spec_add_const(s, x, nn), Ok(())),
        OpSlot::Assign => (spec_assign(s, x, y), Ok(())),
        OpSlot::BitOr => (spec_bit_or(s, x, y), Ok(())),
        OpSlot::BitAnd => (spec_bit_and(s, x, y), Ok(())),
        OpSlot::BitXor => (spec_bit_xor(s, x, y), Ok(())),
        OpSlot::Add => (spec_add(s, x, y), Ok(())),
        OpSlot::Sub => (spec_sub(s, x, y), Ok(())),
        OpSlot::SubN => (spec_sub_n(s, x, y), Ok(())),
        OpSlot::ShiftRight => (spec_shift_right(s, x, y), Ok(())),
        OpSlot::ShiftRightLegacy => (spec_shift_right_legacy(s, x, y), Ok(())),
        OpSlot::ShiftLeft => (spec_shift_left(s, x, y), Ok(())),
        OpSlot::ShiftLeftLegacy => (spec_shift_left_legacy(s, x, y), Ok(())),
        OpSlot::Random => (spec_random(s, x, random_byte, nn), Ok(())),
        OpSlot::SetIndex => (spec_set_index(s, nnn), Ok(())),
        OpSlot::Draw => if s.index.0 + n > 4096 {
            (s, Err(StepError::MemoryRangeViolation))
        } else {
            (spec_draw(s, x, y, n), Ok(()))
        },
    }
}

impl Instruction for OpSlot {
    fn execute(&self, opcode: OpCode, random_byte: u8, state: &mut State) -> (r: Result<
        (),
        StepError,
    >)
        ensures
            final(state).wf(),
            final(state)@ == spec_exec_slot(
                *self,
                opcode.spec_inner(),
                random_byte,
                old(state)@,
            ).0,
            r == spec_exec_slot(*self, opcode.spec_inner(), random_byte, old(state)@).1,
    {
        match self {
            OpSlot::Nop => Ok(()),
            OpSlot::ClearScreen => {
                ClearScreen::decode(opcode).execute(state);
                Ok(())
            },
            OpSlot::Ret => {
                if state.stack.len() == 0 {
                    Err(StepError::StackUnderflow)
                } else {
                    Ret::decode(opcode).execute(state);
                    Ok(())
                }
            },
            OpSlot::Jump => {
                Jump::decode(opcode).execute(state);
                Ok(())
            },
            OpSlot::Call => {
                if state.stack.len() >= 16 {
                    Err(StepError::StackExhaustion)
                } else {
                    Call::decode(opcode).execute(state);
                    Ok(())
                }
            },
            OpSlot::SkipEqConst => {
                SkipEqConst::decode(opcode).execute(state);
                Ok(())
            },
            OpSlot::SkipNeqConst => {
                SkipNeqConst::decode(opcode).execute(state);
                Ok(())
            },
            OpSlot::SkipEq => {
                SkipEq::decode(opcode).execute(state);
                Ok(())
            },
            OpSlot::SkipNeq => {
                SkipNeq::decode(opcode).execute(state);
                Ok(())
            },
            OpSlot::JumpOffset => {
                JumpOffset::decode(opcode).execute(state);
                Ok(())
            },
            OpSlot::SetConst => {
                SetConst::decode(opcode).execute(state);
                Ok(())
            },
            OpSlot::AddConst => {
                AddConst::decode(opcode).execute(state);
                Ok(())
            },
            OpSlot::Assign => {
                Assign::decode(opcode).execute(state);
                Ok(())
            },
            OpSlot::BitOr => {
                BitOr::decode(opcode).execute(state);
                Ok(())
            },
            OpSlot::BitAnd => {
                BitAnd::decode(opcode).execute(state);
                Ok(())
            },
            OpSlot::BitXor => {
                BitXor::decode(opcode).execute(state);
                Ok(())
            },
            OpSlot::Add => {
                Add::decode(opcode).execute(state);
                Ok(())
            },
            OpSlot::Sub => {
                Sub::decode(opcode).execute(state);
                Ok(())
            },
            OpSlot::SubN => {
                SubN::decode(opcode).execute(state);
                Ok(())
            },
            OpSlot::ShiftRight => {
                ShiftRight::decode(opcode).execute(state);
                Ok(())
            },
            OpSlot::ShiftRightLegacy => {
                ShiftRightLegacy::decode(opcode).execute(state);
                Ok(())
            },
            OpSlot::ShiftLeft => {
                ShiftLeft::decode(opcode).execute(state);
                Ok(())
            },
            OpSlot::ShiftLeftLegacy => {
                ShiftLeftLegacy::decode(opcode).execute(state);
                Ok(())
            },
            OpSlot::Random => {
                Random::decode(opcode).execute(random_byte, state);
                Ok(())
            },
            OpSlot::SetIndex => {
                SetIndex::decode(opcode).execute(state);
                Ok(())
            },
            OpSlot::Draw => {
                let d = Draw::decode(opcode);
                if state.index.0 as usize + d.height as usize > 4096 {
                    Err(StepError::MemoryRangeViolation)
                } else {
                    d.execute(state);
                    Ok(())
                }
            },
        }
    }
}

/// The slots of the standard (modern, SUPER-CHIP-compatible) table, indexed
/// by the `OP_*` constants; the slots the core leaves unassigned hold `Nop`.
pub open spec fn spec_standard_slots() -> Seq<OpSlot> {
    seq![
        OpSlot::ClearScreen,
        OpSlot::Ret,
        OpSlot::Jump,
        OpSlot::Call,
        OpSlot::SkipEqConst,
        OpSlot::SkipNeqConst,
        OpSlot::SkipEq,
        OpSlot::SetConst,
        OpSlot::AddConst,
        OpSlot::Assign,
        OpSlot::BitOr,
        OpSlot::BitAnd,
        OpSlot::BitXor,
        OpSlot::Add,
        OpSlot::Sub,
        OpSlot::ShiftRight,
        OpSlot::SubN,
        OpSlot::ShiftLeft,
        OpSlot::SkipNeq,
        OpSlot::SetIndex,
        OpSlot::JumpOffset,
        OpSlot::Random,
        OpSlot::Draw,
        OpSlot::Nop,
        OpSlot::Nop,
        OpSlot::Nop,
        OpSlot::Nop,
        OpSlot::Nop,
        OpSlot::Nop,
        OpSlot::Nop,
        OpSlot::Nop,
        OpSlot::Nop,
        OpSlot::Nop,
        OpSlot::Nop,
    ]
}

/// The legacy table: the standard table with exactly the two shift slots
/// overridden to source their operand from register Y.
pub open spec fn spec_legacy_slots() -> Seq<OpSlot> {
    spec_standard_slots().update(OP_8XY6 as int, OpSlot::ShiftRightLegacy).update(
        OP_8XYE as int,
        OpSlot::ShiftLeftLegacy,
    )
}

/// A table of 34 no-op slots, the assembly functions' starting point.
fn make_nop_set() -> (set: InstructionSet)
    ensures
        set.wf(),
        forall|i: int| 0 <= i < 34 ==> set@[i] == OpSlot::Nop,
{
    let mut slots: Vec<OpSlot> = Vec::new();
    let mut i: usize = 0;
    while i < 34
        invariant
            i <= 34,
            slots@.len() == i,
            forall|j: int| 0 <= j < i ==> slots@[j] == OpSlot::Nop,
        decreases 34 - i,
    {
        slots.push(OpSlot::Nop);
        i = i + 1;
    }
    InstructionSet { slots }
}

/// Assembles the standard table: every implemented instruction in its slot,
/// shifts in the modern behavior (the shifted operand is register X).
pub fn make_standard_set() -> (set: InstructionSet)
    ensures
        set.wf(),
        set@ == spec_standard_slots(),
{
    let mut set = make_nop_set();

    // 0xxx
    set.slots[OP_00E0] = OpSlot::ClearScreen;
    set.slots[OP_00EE] = OpSlot::Ret;

    // 1xxx
    set.slots[OP_1NNN] = OpSlot::Jump;

    // 2xxx
    set.slots[OP_2NNN] = OpSlot::Call;

    // 3xxx
    set.slots[OP_3XNN] = OpSlot::SkipEqConst;

    // 4xxx
    set.slots[OP_4XNN] = OpSlot::SkipNeqConst;

    // 5xxx
    set.slots[OP_5XY0] = OpSlot::SkipEq;

    // 6xxx
    set.slots[OP_6XNN] = OpSlot::SetConst;

    // 7xxx
    set.slots[OP_7XNN] = OpSlot::AddConst;

    // 8xxx
    set.slots[OP_8XY0] = OpSlot::Assign;
    set.slots[OP_8XY1] = OpSlot::BitOr;
    set.slots[OP_8XY2] = OpSlot::BitAnd;
    set.slots[OP_8XY3] = OpSlot::BitXor;
    set.slots[OP_8XY4] = OpSlot::Add;
    set.slots[OP_8XY5] = OpSlot::Sub;
    set.slots[OP_8XY6] = OpSlot::ShiftRight;
    set.slots[OP_8XY7] = OpSlot::SubN;
    set.slots[OP_8XYE] = OpSlot::ShiftLeft;

    // 9xxx
    set.slots[OP_9XY0] = OpSlot::SkipNeq;

    // Axxx
    set.slots[OP_ANNN] = OpSlot::SetIndex;

    // Bxxx
    set.slots[OP_BNNN] = OpSlot::JumpOffset;

    // Cxxx
    set.slots[OP_CXNN] = OpSlot::Random;

    // Dxxx
    set.slots[OP_DXYN] = OpSlot::Draw;

    proof {
        assert(set@ =~= spec_standard_slots());
    }
    set
}

/// Assembles the legacy table: the standard table with exactly the two
/// shift slots overridden to the original hardware behavior.
pub fn make_legacy_set() -> (set: InstructionSet)
    ensures
        set.wf(),
        set@ == spec_legacy_slots(),
{
    let mut set = make_standard_set();

    set.slots[OP_8XY6] = OpSlot::ShiftRightLegacy;
    set.slots[OP_8XYE] = OpSlot::ShiftLeftLegacy;

    proof {
        assert(set@ =~= spec_legacy_slots());
    }
    set
}

/// Standard and legacy right shift leave identical machine states exactly
/// when the two source registers hold equal values beforehand. Stated for a
/// left operand other than the flag register: when X is the flag register
/// itself, the final flag write masks the stored result, and the two modes
/// can agree even though the shifted values differ.
pub proof fn lemma_shift_right_mode_divergence(s: StateModel, x: int, y: int)
    requires
        spec_state_wf(s),
        0 <= x < 16,
        0 <= y < 16,
        x != spec_flag_reg(),
    ensures
        (spec_shift_right(s, x, y) == spec_shift_right_legacy(s, x, y)) <==> (s.regs[x]
            == s.regs[y]),
{
    let a = s.regs[x];
    let b = s.regs[y];
    let st = spec_shift_right(s, x, y);
    let lg = spec_shift_right_legacy(s, x, y);
    if a == b {
        assert(st =~= lg);
    }
    if st == lg {
        assert(st.regs[x] == lg.regs[x]);
        assert(st.regs[spec_flag_reg()] == lg.regs[spec_flag_reg()]);
        assert((a >> 1u8 == b >> 1u8 && (a & 1) == (b & 1)) ==> a == b) by (bit_vector);
    }
}

/// Standard and legacy left shift leave identical machine states exactly
/// when the two source registers hold equal values beforehand; stated for a
/// left operand other than the flag register, as for the right shift.
pub proof fn lemma_shift_left_mode_divergence(s: StateModel, x: int, y: int)
    requires
        spec_state_wf(s),
        0 <= x < 16,
        0 <= y < 16,
        x != spec_flag_reg(),
    ensures
        (spec_shift_left(s, x, y) == spec_shift_left_legacy(s, x, y)) <==> (s.regs[x]
            == s.regs[y]),
{
    let a = s.regs[x];
    let b = s.regs[y];
    let st = spec_shift_left(s, x, y);
    let lg = spec_shift_left_legacy(s, x, y);
    if a == b {
        assert(st =~= lg);
    }
    if st == lg {
        assert(st.regs[x] == lg.regs[x]);
        assert(st.regs[spec_flag_reg()] == lg.regs[spec_flag_reg()]);
        assert(((2 * a) % 256 == (2 * b) % 256 && a >> 7u8 == b >> 7u8) ==> a == b) by (bit_vector);
    }
}

/// Advances the program counter past one 2-byte instruction, wrapping as the
/// 16-bit register would.
fn advance_pc(state: &mut State)
    requires
        old(state).wf(),
    ensures
        final(state).wf(),
        final(state)@ == (StateModel { pc: spec_pc_plus_2(old(state)@.pc), ..old(state)@ }),
{
    let pc0 = state.pc.0;
    state.pc = Address(pc0.wrapping_add(2));
}

} // verus!

