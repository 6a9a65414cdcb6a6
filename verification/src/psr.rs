//! Program status registers: execution state, processor mode and the
//! condition flags, together with the decoding of a raw 32-bit status image.

use vstd::prelude::*;

verus! {

/// Execution state of the processor: 32-bit ARM or 16-bit THUMB.
#[allow(non_camel_case_types)]
#[derive(Clone, Copy, Debug, PartialEq, Eq, Structural)]
pub enum CpuState {
    ARM,
    THUMB,
}

/// Processor mode (privilege level).  The five modes from `Fiq` to
/// `Undefined` own a banked saved status register; `User` and `System`
/// do not.
#[derive(Clone, Copy, Debug, PartialEq, Eq, Structural)]
pub enum CpuMode {
    User,
    Fiq,
    Irq,
    Supervisor,
    Abort,
    Undefined,
    System,
}

/// A program status register: condition flags, execution state and mode.
#[derive(Clone, Copy, Debug, PartialEq, Eq, Structural)]
pub struct RegPSR {
    /// Negative flag (bit 31 of the raw image).
    pub n: bool,
    /// Zero flag (bit 30).
    pub z: bool,
    /// Carry flag (bit 29).
    pub c: bool,
    /// Overflow flag (bit 28).
    pub v: bool,
    /// Execution state (bit 5: set means THUMB).
    pub state: CpuState,
    /// Processor mode (bits 0 to 4).
    pub mode: CpuMode,
}

/// The architectural encoding of each processor mode in bits 0 to 4 of a
/// status register.
pub open spec fn spec_mode_bits(m: CpuMode) -> u32 {
    match m {
        CpuMode::User => 0x10,
        CpuMode::Fiq => 0x11,
        CpuMode::Irq => 0x12,
        CpuMode::Supervisor => 0x13,
        CpuMode::Abort => 0x17,
        CpuMode::Undefined => 0x1B,
        CpuMode::System => 0x1F,
    }
}

/// Decoding of mode bits: the inverse of `spec_mode_bits`, `None` on any
/// bit pattern that names no architectural mode.
pub open spec fn spec_decode_mode(bits: u32) -> Option<CpuMode> {
    if bits == 0x10 {
        Some(CpuMode::User)
    } else if bits == 0x11 {
        Some(CpuMode::Fiq)
    } else if bits == 0x12 {
        Some(CpuMode::Irq)
    } else if bits == 0x13 {
        Some(CpuMode::Supervisor)
    } else if bits == 0x17 {
        Some(CpuMode::Abort)
    } else if bits == 0x1B {
        Some(CpuMode::Undefined)
    } else if bits == 0x1F {
        Some(CpuMode::System)
    } else {
        None
    }
}

/// Index of a mode's saved status register slot, `None` for the modes
/// without one.
pub open spec fn spec_spsr_index(m: CpuMode) -> Option<int> {
    match m {
        CpuMode::Fiq => Some(0int),
        CpuMode::Irq => Some(1int),
        CpuMode::Supervisor => Some(2int),
        CpuMode::Abort => Some(3int),
        CpuMode::Undefined => Some(4int),
        CpuMode::User => None,
        CpuMode::System => None,
    }
}

/// Index of a mode's bank of registers 13 and 14.  `User` and `System`
/// share one bank; every other mode has its own.
pub open spec fn spec_bank_index(m: CpuMode) -> int {
    match m {
        CpuMode::Fiq => 0int,
        CpuMode::Irq => 1int,
        CpuMode::Supervisor => 2int,
        CpuMode::Abort => 3int,
        CpuMode::Undefined => 4int,
        CpuMode::User => 5int,
        CpuMode::System => 5int,
    }
}

/// The status-register value described by a raw 32-bit image, `None` when
/// the image's mode field names no architectural mode.
pub open spec fn spec_psr_decode(raw: u32) -> Option<RegPSR> {
    match spec_decode_mode(raw & 0x1F) {
        None => None,
        Some(m) => Some(
            RegPSR {
                n: raw & 0x8000_0000 != 0,
                z: raw & 0x4000_0000 != 0,
                c: raw & 0x2000_0000 != 0,
                v: raw & 0x1000_0000 != 0,
                state: if raw & 0x20 != 0 {
                    CpuState::THUMB
                } else {
                    CpuState::ARM
                },
                mode: m,
            },
        ),
    }
}

impl CpuMode {
    /// Index of this mode's saved status register slot, `None` for the
    /// modes without a banked slot.
    pub fn spsr_index(self) -> (r: Option<usize>)
        ensures
            r matches Some(i) ==> spec_spsr_index(self) == Some(i as int),
            r is None ==> spec_spsr_index(self) is None,
            r matches Some(i) ==> i < 5,
    {
        match self {
            CpuMode::Fiq => Some(0),
            CpuMode::Irq => Some(1),
            CpuMode::Supervisor => Some(2),
            CpuMode::Abort => Some(3),
            CpuMode::Undefined => Some(4),
            CpuMode::User => None,
            CpuMode::System => None,
        }
    }

    /// Index of this mode's bank of registers 13 and 14.
    pub fn bank_index(self) -> (r: usize)
        ensures
            r == spec_bank_index(self),
            r < 6,
    {
        match self {
            CpuMode::Fiq => 0,
            CpuMode::Irq => 1,
            CpuMode::Supervisor => 2,
            CpuMode::Abort => 3,
            CpuMode::Undefined => 4,
            CpuMode::User => 5,
            CpuMode::System => 5,
        }
    }
}

impl RegPSR {
    /// Interpretation of a raw 32-bit value as a full status-register
    /// image; fails exactly when the mode field is not architectural.
    pub fn new(raw: u32) -> (r: Option<RegPSR>)
        ensures
            r == spec_psr_decode(raw),
    {
        let mode = match raw & 0x1F {
            0x10 => Some(CpuMode::User),
            0x11 => Some(CpuMode::Fiq),
            0x12 => Some(CpuMode::Irq),
            0x13 => Some(CpuMode::Supervisor),
            0x17 => Some(CpuMode::Abort),
            0x1B => Some(CpuMode::Undefined),
            0x1F => Some(CpuMode::System),
            _ => None,
        };
        match mode {
            None => None,
            Some(m) => Some(
                RegPSR {
                    n: raw & 0x8000_0000 != 0,
                    z: raw & 0x4000_0000 != 0,
                    c: raw & 0x2000_0000 != 0,
                    v: raw & 0x1000_0000 != 0,
                    state: if raw & 0x20 != 0 {
                        CpuState::THUMB
                    } else {
                        CpuState::ARM
                    },
                    mode: m,
                },
            ),
        }
    }
}

} // verus!
