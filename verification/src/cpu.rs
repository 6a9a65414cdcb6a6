//! The CPU core: register file, program counter, current and saved status
//! registers, the banked register sets that swap with the processor mode,
//! condition evaluation, mode changes and exception entry.

use crate::arm::{spec_cond_pass, ArmCond, DecodedInstruction};
use crate::psr::{spec_bank_index, spec_spsr_index, CpuMode, CpuState, RegPSR};
use crate::{w32, w64, Addr, REG_PC};
use vstd::prelude::*;

verus! {

/// What the pipeline driver does after an instruction: keep prefetching
/// sequentially, or discard the prefetch queue and refetch from the new
/// program counter.
#[derive(Clone, Copy, Debug, PartialEq, Eq, Structural)]
pub enum CpuPipelineAction {
    IncPC,
    Flush,
}

/// The structured execution errors.  The first two come from §-level
/// instruction semantics; the remaining variants are architectural
/// misuses that must fail loudly rather than silently degrade.
#[derive(Clone, Debug)]
pub enum CpuError {
    /// Decode succeeded but no handler exists for the class; carries the
    /// instruction address, the raw encoding and the decoded form.
    UnimplementedCpuInstruction(Addr, u32, DecodedInstruction),
    /// A structurally disallowed combination, such as writeback with the
    /// destination equal to the base in a single transfer.
    IllegalInstruction,
    /// A status-register image whose mode field names no architectural
    /// mode; carries the raw image.
    InvalidStatusRegisterValue(u32),
    /// Writing the saved status register from a mode without a banked
    /// slot; carries the offending mode.
    SpsrAccessInNonBankedMode(CpuMode),
    /// A halfword-class store with a transfer kind other than the
    /// unsigned halfword, the only store form of that class.
    UnsupportedHalfwordStore,
    /// The PSR-and-force-user block-transfer variant, which this core
    /// leaves unimplemented by contract.
    UnsupportedBlockPsrTransfer,
}

/// Result of an operation that can fail with a structured error.
pub type CpuResult<T> = Result<T, CpuError>;

/// Result of executing one instruction: a pipeline action or an error.
pub type CpuExecResult = CpuResult<CpuPipelineAction>;

/// The exception classes the core can trigger at this layer.
#[derive(Clone, Copy, Debug, PartialEq, Eq, Structural)]
pub enum Exception {
    SoftwareInterrupt,
}

/// The CPU core.  Register slot 15 is the program counter and lives in
/// the dedicated `pc` field; the array slot of index 15 is never used.
pub struct Core {
    /// General-purpose registers 0 to 14 (slot 15 unused, see `pc`).
    pub gpr: [u32; 16],
    /// The program counter, the fetch stage's pointer.  While an
    /// instruction executes it sits two instruction widths past that
    /// instruction's address, which models the pipeline's fetch-ahead.
    pub pc: u32,
    /// The current status register.
    pub cpsr: RegPSR,
    /// The saved status registers, one per banked mode.
    pub spsr: [RegPSR; 5],
    /// Banked copies of register 13, one per register bank.
    pub banked_r13: [u32; 6],
    /// Banked copies of register 14, one per register bank.
    pub banked_r14: [u32; 6],
    /// Internal cycle counter, pure bookkeeping for timing consumers.
    pub cycles: u64,
}

/// The value an instruction reads from a register: the program counter
/// for register 15, the register file otherwise.
pub open spec fn spec_get_reg(c: Core, r: int) -> u32 {
    if r == 15 {
        c.pc
    } else {
        c.gpr@[r]
    }
}

/// One instruction width in the current execution state: four bytes in
/// ARM state, two in THUMB state.
pub open spec fn spec_word_size(s: CpuState) -> u32 {
    if s == CpuState::THUMB {
        2
    } else {
        4
    }
}

/// The register file and program counter after a write through
/// `set_reg`: writing register 15 moves the program counter and leaves
/// the array alone.
pub open spec fn spec_set_reg_gpr(c: Core, r: int, v: u32) -> Seq<u32> {
    if r == 15 {
        c.gpr@
    } else {
        c.gpr@.update(r, v)
    }
}

/// The program counter after a write through `set_reg`.
pub open spec fn spec_set_reg_pc(c: Core, r: int, v: u32) -> u32 {
    if r == 15 {
        v
    } else {
        c.pc
    }
}

/// The register-bank effect of leaving one mode for another: the
/// outgoing mode's bank receives registers 13 and 14, and the incoming
/// mode's bank is loaded in their place.
pub open spec fn spec_bank_swap(pre: Core, post: Core, new_mode: CpuMode) -> bool {
    let ob = spec_bank_index(pre.cpsr.mode);
    let nb = spec_bank_index(new_mode);
    let saved13 = pre.banked_r13@.update(ob, pre.gpr@[13]);
    let saved14 = pre.banked_r14@.update(ob, pre.gpr@[14]);
    &&& post.banked_r13@ == saved13
    &&& post.banked_r14@ == saved14
    &&& post.gpr@ == pre.gpr@.update(13, saved13[nb]).update(14, saved14[nb])
}

/// The banked-register and status state a mode change produces: the
/// register banks swap and the mode field moves with them.  Everything
/// else is untouched.
pub open spec fn spec_change_mode(pre: Core, post: Core, new_mode: CpuMode) -> bool {
    &&& spec_bank_swap(pre, post, new_mode)
    &&& post.cpsr == (RegPSR { mode: new_mode, ..pre.cpsr })
    &&& post.pc == pre.pc
    &&& post.spsr@ == pre.spsr@
    &&& post.cycles == pre.cycles
}

/// Two cores in the same state, field for field.
pub open spec fn spec_core_unchanged(pre: Core, post: Core) -> bool {
    &&& post.gpr@ == pre.gpr@
    &&& post.pc == pre.pc
    &&& post.cpsr == pre.cpsr
    &&& post.spsr@ == pre.spsr@
    &&& post.banked_r13@ == pre.banked_r13@
    &&& post.banked_r14@ == pre.banked_r14@
    &&& post.cycles == pre.cycles
}

/// Exception entry for the software interrupt: the supervisor-mode saved
/// status register receives the pre-exception status, the register banks
/// swap to supervisor mode, the new register 14 holds the return address,
/// the status register switches to supervisor mode in ARM state with the
/// flags kept, and the program counter lands on the software-interrupt
/// vector.
pub open spec fn spec_swi_entry(pre: Core, post: Core) -> bool {
    let ob = spec_bank_index(pre.cpsr.mode);
    let saved13 = pre.banked_r13@.update(ob, pre.gpr@[13]);
    let saved14 = pre.banked_r14@.update(ob, pre.gpr@[14]);
    let svc = spec_bank_index(CpuMode::Supervisor);
    &&& post.banked_r13@ == saved13
    &&& post.banked_r14@ == saved14
    &&& post.gpr@ == pre.gpr@.update(13, saved13[svc]).update(14, w32(pre.pc - 4))
    &&& post.cpsr == (RegPSR { mode: CpuMode::Supervisor, state: CpuState::ARM, ..pre.cpsr })
    &&& post.spsr@ == pre.spsr@.update(2, pre.cpsr)
    &&& post.pc == 0x08
    &&& post.cycles == pre.cycles
}

impl Core {
    /// A core in the reset state: cleared registers and counters,
    /// supervisor mode, ARM state, all flags clear.
    pub fn new() -> (r: Core)
        ensures
            r.gpr@ == Seq::new(16, |i: int| 0u32),
            r.pc == 0,
            r.cpsr == (RegPSR {
                n: false,
                z: false,
                c: false,
                v: false,
                state: CpuState::ARM,
                mode: CpuMode::Supervisor,
            }),
            r.spsr@ =~= Seq::new(5, |i: int| r.cpsr),
            r.banked_r13@ == Seq::new(6, |i: int| 0u32),
            r.banked_r14@ == Seq::new(6, |i: int| 0u32),
            r.cycles == 0,
    {
        let psr = RegPSR {
            n: false,
            z: false,
            c: false,
            v: false,
            state: CpuState::ARM,
            mode: CpuMode::Supervisor,
        };
        let r = Core {
            gpr: [0; 16],
            pc: 0,
            cpsr: psr,
            spsr: [psr; 5],
            banked_r13: [0; 6],
            banked_r14: [0; 6],
            cycles: 0,
        };
        proof {
            assert(r.gpr@ =~= Seq::new(16, |i: int| 0u32));
            assert(r.banked_r13@ =~= Seq::new(6, |i: int| 0u32));
            assert(r.banked_r14@ =~= Seq::new(6, |i: int| 0u32));
        }
        r
    }

    /// Read a register as an instruction operand; register 15 yields the
    /// program counter.
    pub fn get_reg(&self, r: usize) -> (v: u32)
        requires
            r < 16,
        ensures
            v == spec_get_reg(*self, r as int),
    {
        if r == REG_PC {
            self.pc
        } else {
            self.gpr[r]
        }
    }

    /// Write a register; register 15 moves the program counter.
    pub fn set_reg(&mut self, r: usize, v: u32)
        requires
            r < 16,
        ensures
            final(self).gpr@ == spec_set_reg_gpr(*old(self), r as int, v),
            final(self).pc == spec_set_reg_pc(*old(self), r as int, v),
            final(self).cpsr == old(self).cpsr,
            final(self).spsr@ == old(self).spsr@,
            final(self).banked_r13@ == old(self).banked_r13@,
            final(self).banked_r14@ == old(self).banked_r14@,
            final(self).cycles == old(self).cycles,
    {
        if r == REG_PC {
            self.pc = v;
        } else {
            self.gpr[r] = v;
        }
    }

    /// One instruction width in the current execution state.
    pub fn word_size(&self) -> (r: u32)
        ensures
            r == spec_word_size(self.cpsr.state),
    {
        match self.cpsr.state {
            CpuState::THUMB => 2,
            CpuState::ARM => 4,
        }
    }

    /// Charge one internal cycle (bookkeeping only, wrapping).
    pub fn add_cycle(&mut self)
        ensures
            final(self).cycles == w64(old(self).cycles + 1),
            final(self).gpr@ == old(self).gpr@,
            final(self).pc == old(self).pc,
            final(self).cpsr == old(self).cpsr,
            final(self).spsr@ == old(self).spsr@,
            final(self).banked_r13@ == old(self).banked_r13@,
            final(self).banked_r14@ == old(self).banked_r14@,
    {
        proof {
            crate::lemma_w64_wrap(old(self).cycles + 1);
        }
        self.cycles = self.cycles.wrapping_add(1);
    }

    /// Evaluate a condition code against the current flags.
    pub fn check_arm_cond(&self, cond: ArmCond) -> (r: bool)
        ensures
            r == spec_cond_pass(cond, self.cpsr),
    {
        match cond {
            ArmCond::EQ => self.cpsr.z,
            ArmCond::NE => !self.cpsr.z,
            ArmCond::CS => self.cpsr.c,
            ArmCond::CC => !self.cpsr.c,
            ArmCond::MI => self.cpsr.n,
            ArmCond::PL => !self.cpsr.n,
            ArmCond::VS => self.cpsr.v,
            ArmCond::VC => !self.cpsr.v,
            ArmCond::HI => self.cpsr.c && !self.cpsr.z,
            ArmCond::LS => !self.cpsr.c || self.cpsr.z,
            ArmCond::GE => self.cpsr.n == self.cpsr.v,
            ArmCond::LT => self.cpsr.n != self.cpsr.v,
            ArmCond::GT => !self.cpsr.z && self.cpsr.n == self.cpsr.v,
            ArmCond::LE => self.cpsr.z || self.cpsr.n != self.cpsr.v,
            ArmCond::AL => true,
            ArmCond::NV => false,
        }
    }

    /// Switch to another processor mode, swapping the banked copies of
    /// registers 13 and 14 atomically with the mode field.
    pub fn change_mode(&mut self, new_mode: CpuMode)
        ensures
            spec_change_mode(*old(self), *final(self), new_mode),
    {
        let ob = self.cpsr.mode.bank_index();
        let nb = new_mode.bank_index();
        self.banked_r13[ob] = self.gpr[13];
        self.banked_r14[ob] = self.gpr[14];
        self.gpr[13] = self.banked_r13[nb];
        self.gpr[14] = self.banked_r14[nb];
        self.cpsr.mode = new_mode;
    }

    /// Trigger exception entry.  After the call the program counter
    /// points at the exception vector, the status register reflects the
    /// new mode and state, and the target mode's saved status register
    /// holds the pre-exception status.
    pub fn exception(&mut self, e: Exception)
        ensures
            spec_swi_entry(*old(self), *final(self)),
    {
        let prev = self.cpsr;
        self.change_mode(CpuMode::Supervisor);
        self.spsr[2] = prev;
        proof {
            crate::lemma_w32_wrap(old(self).pc - 4);
        }
        let ret = self.pc.wrapping_sub(4);
        self.gpr[14] = ret;
        self.cpsr.state = CpuState::ARM;
        self.pc = 0x08;
        proof {
            assert(final(self).gpr@ =~= old(self).gpr@.update(
                13,
                old(self).banked_r13@.update(
                    spec_bank_index(old(self).cpsr.mode),
                    old(self).gpr@[13],
                )[spec_bank_index(CpuMode::Supervisor)],
            ).update(14, w32(old(self).pc - 4)));
        }
    }
}

} // verus!
