//! The mutable machine state (memory, registers, call stack, timers, screen)
//! and the engine that steps it: fetch, decode, execute, and timer decay.

use vstd::prelude::*;

use crate::decode::decode_instruction;
use crate::decode::spec_decode;
use crate::font;
use crate::instruction::Instruction;
use crate::instruction::InstructionSet;
use crate::instruction::OpCode;
use crate::instruction::OpSlot;
use crate::ops::spec_exec_slot;
use crate::screen::Screen;
use crate::screen::ScreenModel;
use crate::screen::spec_blank_rows;
use crate::Address;
use crate::RegIdent;

verus! {

/// Bytes of machine memory.
pub const RAM_LEN: usize = 4096;

/// Where the glyph table is loaded.
pub const FONT_BASE: usize = 0x50;

/// Where a program image is loaded, and where execution starts.
pub const PROGRAM_BASE: usize = 0x200;

/// Capacity of the call stack.
pub const STACK_CAP: usize = 16;

/// A distinct, reported outcome of a step that could not complete. The
/// emulated program's next instruction cannot proceed after any of these.
#[derive(Clone, Copy, Debug, PartialEq, Eq, Structural)]
pub enum StepError {
    /// The decoder found no slot for the fetched word.
    UnknownInstruction,
    /// A call arrived while the stack already held 16 return addresses.
    StackExhaustion,
    /// A return arrived with an empty stack.
    StackUnderflow,
    /// An instruction fetch or a sprite read would pass address 4095.
    MemoryRangeViolation,
}

/// The mathematical value of a machine state.
#[verifier::ext_equal]
pub struct StateModel {
    pub ram: Seq<u8>,
    pub pc: Address,
    pub index: Address,
    pub stack: Seq<Address>,
    pub delay_timer: u8,
    pub sound_timer: u8,
    pub regs: Seq<u8>,
    pub screen: ScreenModel,
}

/// The shape every reachable machine state keeps: 4096 bytes of memory,
/// 16 registers, at most 16 stacked return addresses, 32 screen rows.
pub open spec fn spec_state_wf(s: StateModel) -> bool {
    &&& s.ram.len() == RAM_LEN
    &&& s.regs.len() == 16
    &&& s.stack.len() <= STACK_CAP
    &&& s.screen.rows.len() == 32
}

/// Memory contents right after construction: the glyph table at 0x50, the
/// program image at 0x200, zero everywhere else.
pub open spec fn spec_initial_ram(code: Seq<u8>) -> Seq<u8>
    recommends
        code.len() <= RAM_LEN - PROGRAM_BASE,
{
    Seq::new(RAM_LEN as nat, |i: int|
        if FONT_BASE <= i < FONT_BASE + font::FONT_LEN {
            font::spec_font()[i - FONT_BASE]
        } else if PROGRAM_BASE <= i < PROGRAM_BASE + code.len() {
            code[i - PROGRAM_BASE]
        } else {
            0u8
        })
}

/// The machine state right after construction.
pub open spec fn spec_initial_state(code: Seq<u8>) -> StateModel
    recommends
        code.len() <= RAM_LEN - PROGRAM_BASE,
{
    StateModel {
        ram: spec_initial_ram(code),
        pc: Address(0x200),
        index: Address(0),
        stack: Seq::empty(),
        delay_timer: 0,
        sound_timer: 0,
        regs: Seq::new(16, |i: int| 0u8),
        screen: ScreenModel { rows: spec_blank_rows(), changed: false },
    }
}

/// The mutable register file, memory, call stack, timers, index register,
/// program counter, and screen.
pub struct State {
    /// Memory: 4 KiB of RAM.
    pub ram: Vec<u8>,
    /// Program counter, points at the current instruction in memory.
    pub pc: Address,
    /// Index register, points at the location of a sprite when drawing.
    pub index: Address,
    /// Return addresses of the calls in flight, innermost last.
    pub stack: Vec<Address>,
    /// Delay timer register, decays toward 0 at roughly 60 Hz.
    pub delay_timer: u8,
    /// Sound timer register; a tone is owed until it reaches 0.
    pub sound_timer: u8,
    /// The sixteen general-purpose registers.
    pub registers: Vec<u8>,
    /// The framebuffer.
    pub screen: Screen,
}

impl View for State {
    type V = StateModel;

    open spec fn view(&self) -> StateModel {
        StateModel {
            ram: self.ram@,
            pc: self.pc,
            index: self.index,
            stack: self.stack@,
            delay_timer: self.delay_timer,
            sound_timer: self.sound_timer,
            regs: self.registers@,
            screen: self.screen@,
        }
    }
}

impl State {
    pub open spec fn wf(&self) -> bool {
        spec_state_wf(self@)
    }

    /// A fresh state: font and program copied into memory, registers, timers
    /// and stack zeroed, program counter at 0x200.
    pub fn new(game_code: &[u8]) -> (s: State)
        requires
            game_code@.len() <= RAM_LEN - PROGRAM_BASE,
        ensures
            s.wf(),
            s@ == spec_initial_state(game_code@),
    {
        let mut ram: Vec<u8> = Vec::new();
        let mut i: usize = 0;
        while i < 4096
            invariant
                i <= 4096,
                ram@.len() == i,
                forall|j: int| 0 <= j < i ==> ram@[j] == 0u8,
            decreases 4096 - i,
        {
            ram.push(0);
            i = i + 1;
        }

        let glyphs = font::standard_font();
        let mut i: usize = 0;
        while i < 80
            invariant
                i <= 80,
                ram@.len() == 4096,
                glyphs@ =~= font::spec_font(),
                forall|j: int| 0 <= j < 0x50 ==> ram@[j] == 0u8,
                forall|j: int| 0x50 <= j < 0x50 + i ==> ram@[j] == font::spec_font()[j - 0x50],
                forall|j: int| 0x50 + i <= j < 4096 ==> ram@[j] == 0u8,
            decreases 80 - i,
        {
            ram[0x50 + i] = glyphs[i];
            i = i + 1;
        }

        let mut i: usize = 0;
        while i < game_code.len()
            invariant
                i <= game_code@.len(),
                game_code@.len() <= 4096 - 0x200,
                ram@.len() == 4096,
                forall|j: int| 0 <= j < 0x50 ==> ram@[j] == 0u8,
                forall|j: int| 0x50 <= j < 0x50 + 80 ==> ram@[j] == font::spec_font()[j - 0x50],
                forall|j: int| 0x50 + 80 <= j < 0x200 ==> ram@[j] == 0u8,
                forall|j: int| 0x200 <= j < 0x200 + i ==> ram@[j] == game_code@[j - 0x200],
                forall|j: int| 0x200 + i <= j < 4096 ==> ram@[j] == 0u8,
            decreases game_code@.len() - i,
        {
            ram[0x200 + i] = game_code[i];
            i = i + 1;
        }

        let mut registers: Vec<u8> = Vec::new();
        let mut i: usize = 0;
        while i < 16
            invariant
                i <= 16,
                registers@.len() == i,
                forall|j: int| 0 <= j < i ==> registers@[j] == 0u8,
            decreases 16 - i,
        {
            registers.push(0);
            i = i + 1;
        }

        let s = State {
            ram,
            pc: Address(0x200),
            index: Address(0),
            stack: Vec::new(),
            delay_timer: 0,
            sound_timer: 0,
            registers,
            screen: Screen::new(),
        };
        proof {
            assert(s@.ram =~= spec_initial_ram(game_code@));
            assert(s@.regs =~= spec_initial_state(game_code@).regs);
            assert(s@.stack =~= Seq::<Address>::empty());
        }
        s
    }

    /// Pushes a return address; the stack holds at most 16.
    pub fn stack_push(&mut self, value: Address)
        requires
            old(self).wf(),
            old(self)@.stack.len() < 16,
        ensures
            final(self).wf(),
            final(self)@ == (StateModel { stack: old(self)@.stack.push(value), ..old(self)@ }),
    {
        self.stack.push(value);
    }

    /// Pops the innermost return address; the stack must be nonempty.
    pub fn stack_pop(&mut self) -> (r: Address)
        requires
            old(self).wf(),
            old(self)@.stack.len() > 0,
        ensures
            final(self).wf(),
            r == old(self)@.stack.last(),
            final(self)@ == (StateModel { stack: old(self)@.stack.drop_last(), ..old(self)@ }),
    {
        let r = self.stack.pop().unwrap();
        proof {
            assert(self.stack@ =~= old(self)@.stack.drop_last());
        }
        r
    }

    /// Writes one general-purpose register.
    pub fn reg_write(&mut self, reg: RegIdent, value: u8)
        requires
            old(self).wf(),
            reg.wf(),
        ensures
            final(self).wf(),
            final(self)@ == (StateModel {
                regs: old(self)@.regs.update(reg.spec_get() as int, value),
                ..old(self)@
            }),
    {
        let i = reg.get();
        self.registers[i as usize] = value;
    }

    /// Reads one general-purpose register.
    pub fn reg_read(&mut self, reg: RegIdent) -> (r: u8)
        requires
            old(self).wf(),
            reg.wf(),
        ensures
            *final(self) == *old(self),
            r == old(self)@.regs[reg.spec_get() as int],
    {
        let i = reg.get();
        self.registers[i as usize]
    }
}

/// The mathematical value of a whole engine.
#[verifier::ext_equal]
pub struct MachineModel {
    pub state: StateModel,
    pub slots: Seq<OpSlot>,
    pub frequency_hz: usize,
    pub counter: usize,
}

/// One timer step: decrement, saturating at 0.
pub open spec fn spec_tick_timer(t: u8) -> u8 {
    if t > 0 {
        (t - 1) as u8
    } else {
        0
    }
}

/// A timer after `n` steps.
pub open spec fn spec_timer_after(t: u8, n: nat) -> u8
    decreases n,
{
    if n == 0 {
        t
    } else {
        spec_tick_timer(spec_timer_after(t, (n - 1) as nat))
    }
}

/// Timers saturate: after `n` steps a timer holds its start value less `n`,
/// floored at 0 — it never goes below 0, however many steps are taken after
/// it reaches 0.
pub proof fn lemma_timer_saturates(t: u8, n: nat)
    ensures
        spec_timer_after(t, n) == if n >= t {
            0u8
        } else {
            (t - n) as u8
        },
    decreases n,
{
    if n > 0 {
        lemma_timer_saturates(t, (n - 1) as nat);
    }
}

/// How many cycles pass between timer decrements: the configured clock
/// frequency divided by the 60 Hz timer rate, floored at 1. An approximation:
/// the decay drifts from true 60 Hz whenever the frequency is not an exact
/// multiple of 60.
pub open spec fn spec_modulus(freq: usize) -> int {
    if freq / 60 >= 1 {
        (freq / 60) as int
    } else {
        1
    }
}

/// The engine after the cycle counter advances: the counter is one higher,
/// and on every `spec_modulus`-th cycle both timers decay one step.
pub open spec fn spec_update_counter(m: MachineModel) -> MachineModel
    recommends
        m.counter < usize::MAX,
{
    let c = (m.counter + 1) as usize;
    if c as int % spec_modulus(m.frequency_hz) == 0 {
        MachineModel {
            counter: c,
            state: StateModel {
                delay_timer: spec_tick_timer(m.state.delay_timer),
                sound_timer: spec_tick_timer(m.state.sound_timer),
                ..m.state
            },
            ..m
        }
    } else {
        MachineModel { counter: c, ..m }
    }
}

/// The big-endian 16-bit word at the program counter.
pub open spec fn spec_fetch_word(s: StateModel) -> u16
    recommends
        spec_state_wf(s),
        s.pc.0 + 1 < 4096,
{
    (s.ram[s.pc.0 as int] * 256 + s.ram[s.pc.0 as int + 1]) as u16
}

/// One whole engine step: the counter and timers advance, the screen's dirty
/// flag is cleared, then the word at the program counter is fetched (a fetch
/// past address 4095 is a reported range violation), the program counter
/// moves past it, and the decoded slot runs — or an unknown instruction is
/// reported. Returns the machine after the step and the step's outcome.
pub open spec fn spec_cycle(m: MachineModel, random_byte: u8) -> (MachineModel, Result<
    (),
    StepError,
>)
    recommends
        spec_state_wf(m.state),
        m.slots.len() == 34,
        m.counter < usize::MAX,
{
    let m1 = spec_update_counter(m);
    let s1 = StateModel {
        screen: ScreenModel { changed: false, ..m1.state.screen },
        ..m1.state
    };
    if s1.pc.0 + 1 >= 4096 {
        (MachineModel { state: s1, ..m1 }, Err(StepError::MemoryRangeViolation))
    } else {
        let word = spec_fetch_word(s1);
        let s2 = StateModel { pc: Address((s1.pc.0 + 2) as u16), ..s1 };
        match spec_decode(word) {
            Some(i) => {
                let (s3, r) = spec_exec_slot(m1.slots[i as int], word, random_byte, s2);
                (MachineModel { state: s3, ..m1 }, r)
            },
            None => (MachineModel { state: s2, ..m1 }, Err(StepError::UnknownInstruction)),
        }
    }
}

/// The engine: machine state, the instruction table chosen at construction,
/// the target clock frequency in Hz, and the cycle counter driving timer
/// decay.
pub struct Machine {
    pub state: State,
    pub instruction_set: InstructionSet,
    pub frequency_hz: usize,
    pub counter: usize,
}

impl View for Machine {
    type V = MachineModel;

    open spec fn view(&self) -> MachineModel {
        MachineModel {
            state: self.state@,
            slots: self.instruction_set@,
            frequency_hz: self.frequency_hz,
            counter: self.counter,
        }
    }
}

impl Machine {
    pub open spec fn wf(&self) -> bool {
        self.state.wf() && self.instruction_set.wf()
    }

    /// An engine over a fresh machine state loaded with the program image,
    /// stepping the given instruction table at the given clock frequency.
    pub fn new(game_code: &[u8], instruction_set: InstructionSet, frequency_hz: usize) -> (m:
        Machine)
        requires
            game_code@.len() <= RAM_LEN - PROGRAM_BASE,
            instruction_set.wf(),
        ensures
            m.wf(),
            m@ == (MachineModel {
                state: spec_initial_state(game_code@),
                slots: instruction_set@,
                frequency_hz: frequency_hz,
                counter: 0,
            }),
    {
        Machine { state: State::new(game_code), instruction_set, frequency_hz, counter: 0 }
    }

    /// Whether a tone is owed: true while the sound timer is nonzero.
    pub fn is_beeping(&self) -> (r: bool)
        ensures
            r == (self@.state.sound_timer > 0),
    {
        self.state.sound_timer > 0
    }

    /// A read-only view of the current framebuffer.
    pub fn screen(&self) -> (r: &Screen)
        ensures
            *r == self.state.screen,
    {
        &self.state.screen
    }

    /// Runs one machine cycle: timers, fetch, decode, execute. The random
    /// byte is drawn by the host from its random source; only the `Random`
    /// instruction reads it. Decode-time and capacity errors surface as
    /// distinct outcomes so the host can halt, log, or skip.
    pub fn cycle(&mut self, random_byte: u8) -> (r: Result<(), StepError>)
        requires
            old(self).wf(),
            old(self).counter < usize::MAX,
        ensures
            final(self).wf(),
            final(self)@ == spec_cycle(old(self)@, random_byte).0,
            r == spec_cycle(old(self)@, random_byte).1,
    {
        self.update_counter();
        self.state.screen.reset_changed_flag();

        if self.state.pc.0 >= 4095 {
            return Err(StepError::MemoryRangeViolation);
        }
        let opcode = self.fetch_opcode();
        let instruction = match decode_instruction(&self.instruction_set, opcode) {
            Ok(slot) => slot,
            Err(_) => {
                return Err(StepError::UnknownInstruction);
            },
        };
        instruction.execute(opcode, random_byte, &mut self.state)
    }

    /// Advances the cycle counter and decays both timers one step,
    /// saturating at 0, on every `spec_modulus`-th cycle.
    pub fn update_counter(&mut self)
        requires
            old(self).wf(),
            old(self).counter < usize::MAX,
        ensures
            final(self).wf(),
            final(self)@ == spec_update_counter(old(self)@),
    {
        self.counter = self.counter + 1;

        let modulus = if self.frequency_hz / 60 >= 1 {
            self.frequency_hz / 60
        } else {
            1
        };

        if self.counter % modulus == 0 {
            self.state.delay_timer = if self.state.delay_timer > 0 {
                self.state.delay_timer - 1
            } else {
                0
            };
            self.state.sound_timer = if self.state.sound_timer > 0 {
                self.state.sound_timer - 1
            } else {
                0
            };
        }
    }

    /// Reads the big-endian word at the program counter and moves the
    /// program counter past it.
    fn fetch_opcode(&mut self) -> (r: OpCode)
        requires
            old(self).wf(),
            old(self)@.state.pc.0 + 1 < 4096,
        ensures
            final(self).wf(),
            r.spec_inner() == spec_fetch_word(old(self)@.state),
            final(self)@ == (MachineModel {
                state: StateModel {
                    pc: Address((old(self)@.state.pc.0 + 2) as u16),
                    ..old(self)@.state
                },
                ..old(self)@
            }),
    {
        let pc = self.state.pc.0 as usize;
        let first = self.state.ram[pc];
        let second = self.state.ram[pc + 1];
        proof {
            assert(((first as u16) << 8u16) | (second as u16) == first as u16 * 256
                + second as u16) by (bit_vector);
        }
        let op = ((first as u16) << 8u16) | (second as u16);
        self.state.pc = Address(self.state.pc.0 + 2);
        OpCode::new(op)
    }
}

} // verus!
