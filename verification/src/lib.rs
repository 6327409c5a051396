//! Core of an interpreter for a classic 8-bit virtual machine: a register
//! file of sixteen 8-bit registers, 4 KiB of memory, a 64x32 monochrome
//! bit-packed display, two saturating timers, and a two-byte big-endian
//! instruction encoding dispatched through a 34-slot instruction table.

use vstd::prelude::*;

pub mod decode;
pub mod font;
pub mod instruction;
pub mod machine;
pub mod ops;
pub mod screen;

verus! {

/// A memory location. The machine addresses 4096 bytes, so only the low 12
/// bits select a cell, but the stored value may exceed that range transiently
/// (a jump-with-offset may land past 0xFFF; the fetch then reports the range
/// violation instead of wrapping).
#[derive(Clone, Copy, Debug, PartialEq, Eq, Structural)]
pub struct Address(pub u16);

/// A validated selector for one of the sixteen general-purpose registers.
/// Register 15 is conventionally the flag register.
#[derive(Clone, Copy, Debug, PartialEq, Eq, Structural)]
pub struct RegIdent(u8);

impl RegIdent {
    /// The register number, in [0, 15] for every value built by `try_from`.
    pub closed spec fn spec_get(self) -> u8 {
        self.0
    }

    /// A selector is meaningful only when it names one of the 16 registers.
    pub open spec fn wf(self) -> bool {
        self.spec_get() <= 0xF
    }

    pub fn get(self) -> (r: u8)
        ensures
            r == self.spec_get(),
    {
        self.0
    }

    /// Register 0, the offset operand of jump-with-offset.
    pub fn v0() -> (r: RegIdent)
        ensures
            r.wf(),
            r.spec_get() == 0,
    {
        RegIdent(0x0)
    }

    /// Register 15, the conventional flag register.
    pub fn vf() -> (r: RegIdent)
        ensures
            r.wf(),
            r.spec_get() == 0xF,
    {
        RegIdent(0xF)
    }

    /// Builds a selector from a raw byte; bytes above 15 name no register.
    pub fn try_from(value: u8) -> (r: Result<RegIdent, ()>)
        ensures
            value <= 0xF ==> (r matches Ok(id) && id.wf() && id.spec_get() == value),
            value > 0xF ==> r == Err::<RegIdent, ()>(()),
    {
        if value <= 0xF {
            Ok(RegIdent(value))
        } else {
            Err(())
        }
    }
}

} // verus!
