//! Execution of decoded ARM instructions: the dispatcher with condition
//! evaluation, and one handler per implemented instruction class.  Each
//! handler's contract states the resulting core state, memory contents
//! and pipeline action exactly, over the specs of the collaborating
//! units.

use crate::alu::{
    spec_alu_flags, spec_alu_value, spec_register_shift_ok, spec_register_shift_val, spec_ror,
    BarrelShifterValue, ShiftRegisterBy,
};
use crate::arm::{
    spec_cond_pass, spec_offset_wf, ArmHalfwordTransferType, ArmInstruction, ArmInstructionKind,
    DecodedInstruction,
};
use crate::bus::{
    spec_read16, spec_read32, spec_read8, spec_write16, spec_write32, spec_write8, Bus,
};
use crate::cpu::{
    spec_bank_swap, spec_core_unchanged, spec_get_reg, spec_swi_entry, spec_word_size, Core,
    CpuError, CpuExecResult, CpuPipelineAction, Exception,
};
use crate::psr::{spec_psr_decode, spec_spsr_index, CpuState, RegPSR};
use crate::{w32, w64, REG_PC};
use vstd::prelude::*;

verus! {

/// A register file and program counter after writing `v` to register
/// `r`: the pair `(registers, pc)`.
pub open spec fn spec_reg_write(g: Seq<u32>, pc: u32, r: int, v: u32) -> (Seq<u32>, u32) {
    if r == 15 {
        (g, v)
    } else {
        (g.update(r, v), pc)
    }
}

/// What a branch instruction leaves behind: the link register holds the
/// return address with bit 0 cleared when the link bit is set, the
/// program counter moves by the sign-extended offset with bit 0 cleared,
/// and the pipeline always flushes.
pub open spec fn spec_b_bl_post(
    pre: Core,
    post: Core,
    insn: ArmInstruction,
    r: CpuExecResult,
) -> bool {
    insn.kind matches ArmInstructionKind::BranchLink { link, offset } ==> {
        &&& post.pc == w32(pre.pc + offset) & 0xFFFF_FFFEu32
        &&& (link ==> post.gpr@ == pre.gpr@.update(
            14,
            w32(insn.pc + spec_word_size(pre.cpsr.state)) & 0xFFFF_FFFEu32,
        ))
        &&& (!link ==> post.gpr@ == pre.gpr@)
        &&& post.cpsr == pre.cpsr
        &&& post.spsr@ == pre.spsr@
        &&& post.banked_r13@ == pre.banked_r13@
        &&& post.banked_r14@ == pre.banked_r14@
        &&& post.cycles == pre.cycles
        &&& r == Ok::<CpuPipelineAction, CpuError>(CpuPipelineAction::Flush)
    }
}

/// What a branch-exchange leaves behind: the execution state is THUMB
/// exactly when bit 0 of the target register's value is set, the program
/// counter is that value with bit 0 cleared, and the pipeline always
/// flushes.
pub open spec fn spec_bx_post(
    pre: Core,
    post: Core,
    insn: ArmInstruction,
    r: CpuExecResult,
) -> bool {
    insn.kind matches ArmInstructionKind::BranchExchange { rn } ==> {
        let target = spec_get_reg(pre, rn as int);
        &&& post.cpsr == (RegPSR {
            state: if target & 1 == 1 {
                CpuState::THUMB
            } else {
                CpuState::ARM
            },
            ..pre.cpsr
        })
        &&& post.pc == target & 0xFFFF_FFFEu32
        &&& post.gpr@ == pre.gpr@
        &&& post.spsr@ == pre.spsr@
        &&& post.banked_r13@ == pre.banked_r13@
        &&& post.banked_r14@ == pre.banked_r14@
        &&& post.cycles == pre.cycles
        &&& r == Ok::<CpuPipelineAction, CpuError>(CpuPipelineAction::Flush)
    }
}

/// What a software interrupt leaves behind: full exception entry into
/// supervisor mode and a pipeline flush.
pub open spec fn spec_swi_post(
    pre: Core,
    post: Core,
    insn: ArmInstruction,
    r: CpuExecResult,
) -> bool {
    &&& spec_swi_entry(pre, post)
    &&& r == Ok::<CpuPipelineAction, CpuError>(CpuPipelineAction::Flush)
}

/// What a register-operand MSR leaves behind.  The source register's raw
/// value is interpreted as a full status image; an image whose mode field
/// names no mode is a loud error.  Targeting the saved status register
/// stores the image in the current mode's slot and is a loud error in a
/// mode without one.  Targeting the current status register installs the
/// image, swapping register banks first when the image's mode differs
/// from the current one.  The pipeline always advances.
pub open spec fn spec_msr_reg_post(
    pre: Core,
    post: Core,
    insn: ArmInstruction,
    r: CpuExecResult,
) -> bool {
    insn.kind matches ArmInstructionKind::StatusTransfer { spsr, rm } ==> {
        let raw = spec_get_reg(pre, rm as int);
        match spec_psr_decode(raw) {
            None => {
                &&& r == Err::<CpuPipelineAction, CpuError>(
                    CpuError::InvalidStatusRegisterValue(raw),
                )
                &&& spec_core_unchanged(pre, post)
            },
            Some(p) => {
                if spsr {
                    match spec_spsr_index(pre.cpsr.mode) {
                        Some(i) => {
                            &&& post.spsr@ == pre.spsr@.update(i, p)
                            &&& post.gpr@ == pre.gpr@
                            &&& post.pc == pre.pc
                            &&& post.cpsr == pre.cpsr
                            &&& post.banked_r13@ == pre.banked_r13@
                            &&& post.banked_r14@ == pre.banked_r14@
                            &&& post.cycles == pre.cycles
                            &&& r == Ok::<CpuPipelineAction, CpuError>(CpuPipelineAction::IncPC)
                        },
                        None => {
                            &&& r == Err::<CpuPipelineAction, CpuError>(
                                CpuError::SpsrAccessInNonBankedMode(pre.cpsr.mode),
                            )
                            &&& spec_core_unchanged(pre, post)
                        },
                    }
                } else {
                    &&& post.cpsr == p
                    &&& (p.mode == pre.cpsr.mode ==> post.gpr@ == pre.gpr@ && post.banked_r13@
                        == pre.banked_r13@ && post.banked_r14@ == pre.banked_r14@)
                    &&& (p.mode != pre.cpsr.mode ==> spec_bank_swap(pre, post, p.mode))
                    &&& post.pc == pre.pc
                    &&& post.spsr@ == pre.spsr@
                    &&& post.cycles == pre.cycles
                    &&& r == Ok::<CpuPipelineAction, CpuError>(CpuPipelineAction::IncPC)
                }
            },
        }
    }
}

/// Whether a data-processing operand charges the extra internal cycle:
/// only a shift whose amount is sourced from a register does.
pub open spec fn spec_dp_charges_cycle(op2: BarrelShifterValue) -> bool {
    op2 matches BarrelShifterValue::ShiftedRegister { shift, .. } && shift.by is ByRegister
}

/// Whether a data-processing operand is rejected by the shifter (shift
/// amount sourced from the program counter).
pub open spec fn spec_dp_shift_err(op2: BarrelShifterValue) -> bool {
    op2 matches BarrelShifterValue::ShiftedRegister { shift, .. } && !spec_register_shift_ok(shift)
}

/// The second operand's value: a rotated 8-bit immediate (rotation
/// applied circularly over 32 bits), a register passed through the
/// barrel shifter, or a plain immediate.
pub open spec fn spec_dp_op2_val(c: Core, op2: BarrelShifterValue) -> u32 {
    match op2 {
        BarrelShifterValue::RotatedImmediate { immediate, rotate } => spec_ror(immediate, rotate),
        BarrelShifterValue::ShiftedRegister { shift, added } => spec_register_shift_val(c, shift),
        BarrelShifterValue::ImmediateValue { value, added } => value,
    }
}

/// What a data-processing instruction leaves behind.  Operand 1 is the
/// named register, and naming register 15 yields the raw program counter
/// field.  The opcode's value goes to the destination register unless the
/// opcode is a comparison form; writing register 15 flushes the
/// pipeline, everything else advances it.  Flags are set when the opcode
/// is inherently flag-setting or the instruction asks for it.
pub open spec fn spec_dp_post(
    pre: Core,
    post: Core,
    insn: ArmInstruction,
    r: CpuExecResult,
) -> bool {
    insn.kind matches ArmInstructionKind::DataProcessing { opcode, set_cond, rn, rd, op2 } ==> {
        &&& post.cycles == (if spec_dp_charges_cycle(op2) {
            w64(pre.cycles + 1)
        } else {
            pre.cycles
        })
        &&& post.spsr@ == pre.spsr@
        &&& post.banked_r13@ == pre.banked_r13@
        &&& post.banked_r14@ == pre.banked_r14@
        &&& if spec_dp_shift_err(op2) {
            &&& r == Err::<CpuPipelineAction, CpuError>(CpuError::IllegalInstruction)
            &&& post.gpr@ == pre.gpr@
            &&& post.pc == pre.pc
            &&& post.cpsr == pre.cpsr
        } else {
            let op1 = spec_get_reg(pre, rn as int);
            let op2v = spec_dp_op2_val(pre, op2);
            let set_flags = opcode.spec_is_setting_flags() || set_cond;
            let value = spec_alu_value(opcode, op1, op2v, pre.cpsr.c);
            &&& post.cpsr == (if set_flags {
                spec_alu_flags(opcode, op1, op2v, pre.cpsr)
            } else {
                pre.cpsr
            })
            &&& if opcode.spec_writes_result() {
                &&& post.gpr@ == spec_reg_write(pre.gpr@, pre.pc, rd as int, value).0
                &&& post.pc == spec_reg_write(pre.gpr@, pre.pc, rd as int, value).1
                &&& r == Ok::<CpuPipelineAction, CpuError>(
                    if rd == 15 {
                        CpuPipelineAction::Flush
                    } else {
                        CpuPipelineAction::IncPC
                    },
                )
            } else {
                &&& post.gpr@ == pre.gpr@
                &&& post.pc == pre.pc
                &&& r == Ok::<CpuPipelineAction, CpuError>(CpuPipelineAction::IncPC)
            }
        }
    }
}

/// Whether an addressing-mode offset is added to (rather than
/// subtracted from) the base.
pub open spec fn spec_offset_added(off: BarrelShifterValue) -> bool {
    match off {
        BarrelShifterValue::RotatedImmediate { immediate, rotate } => true,
        BarrelShifterValue::ShiftedRegister { shift, added } => added,
        BarrelShifterValue::ImmediateValue { value, added } => added,
    }
}

/// The base address of a single transfer: the base register's value,
/// except that register 15 yields the instruction's address plus two
/// instruction widths (the prefetch model).
pub open spec fn spec_transfer_base(pre: Core, insn_pc: u32, rn: int) -> u32 {
    if rn == 15 {
        w32(insn_pc + 8)
    } else {
        pre.gpr@[rn]
    }
}

/// The effective address of a single transfer: base plus or minus the
/// offset magnitude, mod 2^32.
pub open spec fn spec_effective_addr(pre: Core, insn_pc: u32, rn: int, off: BarrelShifterValue) -> u32 {
    let base = spec_transfer_base(pre, insn_pc, rn);
    let mag = spec_dp_op2_val(pre, off);
    if spec_offset_added(off) {
        w32(base + mag)
    } else {
        w32(base - mag)
    }
}

/// A byte sign-extended to 32 bits.
pub open spec fn spec_sign_extend8(b: u8) -> u32 {
    if b >= 0x80 {
        (b as u32) | 0xFFFF_FF00u32
    } else {
        b as u32
    }
}

/// A halfword sign-extended to 32 bits.
pub open spec fn spec_sign_extend16(h: u16) -> u32 {
    if h >= 0x8000 {
        (h as u32) | 0xFFFF_0000u32
    } else {
        h as u32
    }
}

/// What a word/byte single transfer leaves behind.  Requesting writeback
/// with the destination equal to the base is the illegal-instruction
/// error and changes nothing; otherwise the access goes to the effective
/// address when pre-indexing and to the plain base when post-indexing, a
/// load writes the destination register (flushing when it is register
/// 15) and charges one internal cycle, a store writes memory (register
/// 15 storing the instruction address plus three widths), and writeback,
/// when requested, leaves the effective address in the base register.
pub open spec fn spec_ldr_str_post(
    pre: Core,
    post: Core,
    mpre: Seq<u8>,
    mpost: Seq<u8>,
    insn: ArmInstruction,
    r: CpuExecResult,
) -> bool {
    insn.kind matches ArmInstructionKind::SingleTransfer {
        load,
        byte,
        pre_index,
        write_back,
        rn,
        rd,
        offset,
    } ==> {
        if write_back && rd == rn {
            &&& r == Err::<CpuPipelineAction, CpuError>(CpuError::IllegalInstruction)
            &&& spec_core_unchanged(pre, post)
            &&& mpost == mpre
        } else {
            let base = spec_transfer_base(pre, insn.pc, rn as int);
            let eff = spec_effective_addr(pre, insn.pc, rn as int, offset);
            let addr = if pre_index {
                eff
            } else {
                base
            };
            &&& post.cpsr == pre.cpsr
            &&& post.spsr@ == pre.spsr@
            &&& post.banked_r13@ == pre.banked_r13@
            &&& post.banked_r14@ == pre.banked_r14@
            &&& if load {
                let data = if byte {
                    spec_read8(mpre, addr) as u32
                } else {
                    spec_read32(mpre, addr)
                };
                let w1 = spec_reg_write(pre.gpr@, pre.pc, rd as int, data);
                let w2 = if write_back {
                    spec_reg_write(w1.0, w1.1, rn as int, eff)
                } else {
                    w1
                };
                &&& post.gpr@ == w2.0
                &&& post.pc == w2.1
                &&& post.cycles == w64(pre.cycles + 1)
                &&& mpost == mpre
                &&& r == Ok::<CpuPipelineAction, CpuError>(
                    if rd == 15 {
                        CpuPipelineAction::Flush
                    } else {
                        CpuPipelineAction::IncPC
                    },
                )
            } else {
                let value = if rd == 15 {
                    w32(insn.pc + 12)
                } else {
                    pre.gpr@[rd as int]
                };
                let w2 = if write_back {
                    spec_reg_write(pre.gpr@, pre.pc, rn as int, eff)
                } else {
                    (pre.gpr@, pre.pc)
                };
                &&& mpost == (if byte {
                    spec_write8(mpre, addr, (value % 0x100) as u8)
                } else {
                    spec_write32(mpre, addr, value)
                })
                &&& post.gpr@ == w2.0
                &&& post.pc == w2.1
                &&& post.cycles == pre.cycles
                &&& r == Ok::<CpuPipelineAction, CpuError>(CpuPipelineAction::IncPC)
            }
        }
    }
}

/// What a halfword/signed transfer leaves behind.  Like the word/byte
/// transfer, with the loaded value read and extended per the transfer
/// kind; the unsigned halfword is the only store form, and any other
/// kind on the store side is a loud error that changes nothing.
pub open spec fn spec_ldr_str_hs_post(
    pre: Core,
    post: Core,
    mpre: Seq<u8>,
    mpost: Seq<u8>,
    insn: ArmInstruction,
    r: CpuExecResult,
) -> bool {
    insn.kind matches ArmInstructionKind::HalfwordTransfer {
        load,
        transfer,
        pre_index,
        write_back,
        rn,
        rd,
        offset,
    } ==> {
        if write_back && rd == rn {
            &&& r == Err::<CpuPipelineAction, CpuError>(CpuError::IllegalInstruction)
            &&& spec_core_unchanged(pre, post)
            &&& mpost == mpre
        } else {
            let base = spec_transfer_base(pre, insn.pc, rn as int);
            let eff = spec_effective_addr(pre, insn.pc, rn as int, offset);
            let addr = if pre_index {
                eff
            } else {
                base
            };
            if load {
                let data = match transfer {
                    ArmHalfwordTransferType::SignedByte => spec_sign_extend8(spec_read8(mpre, addr)),
                    ArmHalfwordTransferType::SignedHalfwords => spec_sign_extend16(
                        spec_read16(mpre, addr),
                    ),
                    ArmHalfwordTransferType::UnsignedHalfwords => spec_read16(mpre, addr) as u32,
                };
                let w1 = spec_reg_write(pre.gpr@, pre.pc, rd as int, data);
                let w2 = if write_back {
                    spec_reg_write(w1.0, w1.1, rn as int, eff)
                } else {
                    w1
                };
                &&& post.gpr@ == w2.0
                &&& post.pc == w2.1
                &&& post.cpsr == pre.cpsr
                &&& post.spsr@ == pre.spsr@
                &&& post.banked_r13@ == pre.banked_r13@
                &&& post.banked_r14@ == pre.banked_r14@
                &&& post.cycles == w64(pre.cycles + 1)
                &&& mpost == mpre
                &&& r == Ok::<CpuPipelineAction, CpuError>(
                    if rd == 15 {
                        CpuPipelineAction::Flush
                    } else {
                        CpuPipelineAction::IncPC
                    },
                )
            } else {
                if transfer is UnsignedHalfwords {
                    let value = if rd == REG_PC {
                        w32(insn.pc + 12)
                    } else {
                        pre.gpr@[rd as int]
                    };
                    let w2 = if write_back {
                        spec_reg_write(pre.gpr@, pre.pc, rn as int, eff)
                    } else {
                        (pre.gpr@, pre.pc)
                    };
                    &&& mpost == spec_write16(mpre, addr, (value % 0x1_0000) as u16)
                    &&& post.gpr@ == w2.0
                    &&& post.pc == w2.1
                    &&& post.cpsr == pre.cpsr
                    &&& post.spsr@ == pre.spsr@
                    &&& post.banked_r13@ == pre.banked_r13@
                    &&& post.banked_r14@ == pre.banked_r14@
                    &&& post.cycles == pre.cycles
                    &&& r == Ok::<CpuPipelineAction, CpuError>(CpuPipelineAction::IncPC)
                } else {
                    &&& r == Err::<CpuPipelineAction, CpuError>(CpuError::UnsupportedHalfwordStore)
                    &&& spec_core_unchanged(pre, post)
                    &&& mpost == mpre
                }
            }
        }
    }
}

/// The address used by the transfer at traversal position `i` of a
/// block transfer: the base stepped by 4 per register, before the access
/// when `full` (pre-indexing) and after it otherwise, upward when
/// ascending and downward when descending.
pub open spec fn spec_block_addr(base: u32, ascending: bool, full: bool, i: int) -> u32 {
    if ascending {
        if full {
            w32(base + 4 * i + 4)
        } else {
            w32(base + 4 * i)
        }
    } else {
        if full {
            w32(base - 4 * i - 4)
        } else {
            w32(base - 4 * i)
        }
    }
}

/// The final stepped address of a block transfer over `len` registers,
/// the value writeback leaves in the base register.
pub open spec fn spec_block_end(base: u32, ascending: bool, len: int) -> u32 {
    if ascending {
        w32(base + 4 * len)
    } else {
        w32(base - 4 * len)
    }
}

/// The traversal order of a block transfer's register list: as given
/// when ascending, reversed when descending, so that the lowest-numbered
/// register always meets the lowest address.
pub open spec fn spec_trav(rlist: Seq<usize>, ascending: bool) -> Seq<usize> {
    if ascending {
        rlist
    } else {
        rlist.reverse()
    }
}

/// Whether register `r` occurs among the first `upto` entries of a list.
pub open spec fn spec_in_list(l: Seq<usize>, upto: int, r: int) -> bool {
    exists|j: int| 0 <= j < upto && l[j] == r
}

/// The value a block store writes for register `r`: the instruction
/// address plus three instruction widths for register 15, the register's
/// value otherwise.
pub open spec fn spec_stm_value(pre: Core, insn_pc: u32, r: int) -> u32 {
    if r == 15 {
        w32(insn_pc + 12)
    } else {
        pre.gpr@[r]
    }
}

/// The memory a block store leaves behind, folding the word writes for
/// traversal positions `j` up to (excluding) `upto` over `m`.
pub open spec fn spec_block_store_range(
    m: Seq<u8>,
    pre: Core,
    insn_pc: u32,
    base: u32,
    ascending: bool,
    full: bool,
    trav: Seq<usize>,
    j: int,
    upto: int,
) -> Seq<u8>
    decreases upto - j,
{
    if j < 0 || j >= upto || upto > trav.len() {
        m
    } else {
        spec_block_store_range(
            spec_write32(
                m,
                spec_block_addr(base, ascending, full, j),
                spec_stm_value(pre, insn_pc, trav[j] as int),
            ),
            pre,
            insn_pc,
            base,
            ascending,
            full,
            trav,
            j + 1,
            upto,
        )
    }
}

/// Extending a block-store fold by one position appends that position's
/// word write at the end.
pub proof fn lemma_block_store_snoc(
    m: Seq<u8>,
    pre: Core,
    insn_pc: u32,
    base: u32,
    ascending: bool,
    full: bool,
    trav: Seq<usize>,
    j: int,
    upto: int,
)
    requires
        0 <= j <= upto,
        upto < trav.len(),
    ensures
        spec_block_store_range(m, pre, insn_pc, base, ascending, full, trav, j, upto + 1)
            == spec_write32(
            spec_block_store_range(m, pre, insn_pc, base, ascending, full, trav, j, upto),
            spec_block_addr(base, ascending, full, upto),
            spec_stm_value(pre, insn_pc, trav[upto] as int),
        ),
    decreases upto - j,
{
    if j == upto {
        let m1 = spec_write32(
            m,
            spec_block_addr(base, ascending, full, j),
            spec_stm_value(pre, insn_pc, trav[j] as int),
        );
        assert(spec_block_store_range(m1, pre, insn_pc, base, ascending, full, trav, j + 1, upto + 1)
            == m1);
    } else {
        lemma_block_store_snoc(
            spec_write32(
                m,
                spec_block_addr(base, ascending, full, j),
                spec_stm_value(pre, insn_pc, trav[j] as int),
            ),
            pre,
            insn_pc,
            base,
            ascending,
            full,
            trav,
            j + 1,
            upto,
        );
    }
}

/// Membership in a list and in its reverse agree.
pub proof fn lemma_in_list_reverse(s: Seq<usize>, r: int)
    ensures
        spec_in_list(s.reverse(), s.len() as int, r) <==> spec_in_list(s, s.len() as int, r),
{
    if spec_in_list(s, s.len() as int, r) {
        let j = choose|j: int| 0 <= j < s.len() && s[j] == r;
        assert(s.reverse()[s.len() - 1 - j] == r);
    }
    if spec_in_list(s.reverse(), s.len() as int, r) {
        let j = choose|j: int| 0 <= j < s.reverse().len() && s.reverse()[j] == r;
        assert(s[s.len() - 1 - j] == r);
    }
}

/// What a block transfer leaves behind.  The PSR-and-force-user variant
/// is a loud error that changes nothing.  Otherwise the registers of the
/// list are transferred in traversal order, the address stepping by 4
/// per register.  A load writes each listed register from memory
/// (flushing when the list holds register 15) and charges one internal
/// cycle per transfer; writeback is suppressed when the base register is
/// itself in the load list.  A store writes each listed register's value
/// to memory.  Writeback, when it survives, leaves the final stepped
/// address in the base register.
pub open spec fn spec_ldm_stm_post(
    pre: Core,
    post: Core,
    mpre: Seq<u8>,
    mpost: Seq<u8>,
    insn: ArmInstruction,
    r: CpuExecResult,
) -> bool {
    insn.kind matches ArmInstructionKind::BlockTransfer {
        load,
        pre_index,
        ascending,
        psr_user,
        write_back,
        rn,
        rlist,
    } ==> {
        if psr_user {
            &&& r == Err::<CpuPipelineAction, CpuError>(CpuError::UnsupportedBlockPsrTransfer)
            &&& spec_core_unchanged(pre, post)
            &&& mpost == mpre
        } else {
            let base = spec_get_reg(pre, rn as int);
            let n = rlist@.len() as int;
            let trav = spec_trav(rlist@, ascending);
            let endaddr = spec_block_end(base, ascending, n);
            let full = pre_index;
            &&& post.cpsr == pre.cpsr
            &&& post.spsr@ == pre.spsr@
            &&& post.banked_r13@ == pre.banked_r13@
            &&& post.banked_r14@ == pre.banked_r14@
            &&& if load {
                let wb_eff = write_back && !spec_in_list(trav, n, rn as int);
                &&& post.cycles == w64(pre.cycles + n)
                &&& mpost == mpre
                &&& (forall|j: int|
                    0 <= j < n && (#[trigger] trav[j]) != 15 ==> post.gpr@[trav[j] as int]
                        == spec_read32(mpre, spec_block_addr(base, ascending, full, j)))
                &&& (forall|rr: int|
                    0 <= rr < 15 && !spec_in_list(trav, n, rr) && !(wb_eff && rr == rn as int)
                        ==> post.gpr@[rr] == pre.gpr@[rr])
                &&& (wb_eff && rn != 15 ==> post.gpr@[rn as int] == endaddr)
                &&& (forall|j: int|
                    0 <= j < n && (#[trigger] trav[j]) == 15 ==> post.pc == spec_read32(
                        mpre,
                        spec_block_addr(base, ascending, full, j),
                    ))
                &&& (!spec_in_list(trav, n, 15) && !(wb_eff && rn == 15) ==> post.pc == pre.pc)
                &&& (!spec_in_list(trav, n, 15) && wb_eff && rn == 15 ==> post.pc == endaddr)
                &&& r == Ok::<CpuPipelineAction, CpuError>(
                    if spec_in_list(trav, n, 15) {
                        CpuPipelineAction::Flush
                    } else {
                        CpuPipelineAction::IncPC
                    },
                )
            } else {
                let w2 = if write_back {
                    spec_reg_write(pre.gpr@, pre.pc, rn as int, endaddr)
                } else {
                    (pre.gpr@, pre.pc)
                };
                &&& post.gpr@ == w2.0
                &&& post.pc == w2.1
                &&& post.cycles == pre.cycles
                &&& mpost == spec_block_store_range(
                    mpre,
                    pre,
                    insn.pc,
                    base,
                    ascending,
                    full,
                    trav,
                    0,
                    n,
                )
                &&& r == Ok::<CpuPipelineAction, CpuError>(CpuPipelineAction::IncPC)
            }
        }
    }
}

/// In a descending block transfer over a strictly ascending register
/// list, the registers meet the addresses in list order: the transfer
/// address of the register at list position `a` is below that of the
/// register at any later position `b`, so the lowest-numbered register
/// ends up at the lowest address.  (The register at list position `k` is
/// transferred at traversal position `len - 1 - k`.)  The bound on
/// `base` keeps the descending address range from wrapping below zero.
pub proof fn lemma_descending_store_order(
    rlist: Seq<usize>,
    base: u32,
    full: bool,
    a: int,
    b: int,
)
    requires
        0 <= a < b < rlist.len(),
        4 * rlist.len() <= base,
    ensures
        spec_block_addr(base, false, full, rlist.len() - 1 - a) < spec_block_addr(
            base,
            false,
            full,
            rlist.len() - 1 - b,
        ),
{
    let n = rlist.len() as int;
    if full {
        crate::lemma_w32_wrap(base - 4 * (n - 1 - a) - 4);
        crate::lemma_w32_wrap(base - 4 * (n - 1 - b) - 4);
    } else {
        crate::lemma_w32_wrap(base - 4 * (n - 1 - a));
        crate::lemma_w32_wrap(base - 4 * (n - 1 - b));
    }
}

/// A descending block transfer touches exactly the addresses of the
/// ascending transfer of the same list whose base sits `4 * len` lower,
/// with the opposite indexing flavor, register for register: storing
/// descending and loading ascending over that base are address-compatible.
pub proof fn lemma_descending_matches_ascending(base: u32, full: bool, n: int, k: int)
    requires
        0 <= k < n,
    ensures
        spec_block_addr(base, false, full, n - 1 - k) == spec_block_addr(
            w32(base - 4 * n),
            true,
            !full,
            k,
        ),
{
    if full {
        crate::lemma_w32_step(base - 4 * n, 4 * k);
        assert(base - 4 * (n - 1 - k) - 4 == base - 4 * n + 4 * k);
    } else {
        crate::lemma_w32_step(base - 4 * n, 4 * k + 4);
        assert(base - 4 * (n - 1 - k) == base - 4 * n + 4 * k + 4);
    }
}

/// What one full instruction execution leaves behind.  An instruction
/// whose condition fails against the current flags has no side effect at
/// all and advances the pipeline.  One whose condition passes is handled
/// by its class's handler; a class without a handler is the structured
/// unimplemented-class error, carrying the address, the raw encoding and
/// the decoded form, with nothing changed.
pub open spec fn spec_exec_arm_post(
    pre: Core,
    post: Core,
    mpre: Seq<u8>,
    mpost: Seq<u8>,
    insn: ArmInstruction,
    r: CpuExecResult,
) -> bool {
    if !spec_cond_pass(insn.cond, pre.cpsr) {
        &&& spec_core_unchanged(pre, post)
        &&& mpost == mpre
        &&& r == Ok::<CpuPipelineAction, CpuError>(CpuPipelineAction::IncPC)
    } else {
        match insn.kind {
            ArmInstructionKind::BranchExchange { .. } => spec_bx_post(pre, post, insn, r) && mpost
                == mpre,
            ArmInstructionKind::BranchLink { .. } => spec_b_bl_post(pre, post, insn, r) && mpost
                == mpre,
            ArmInstructionKind::DataProcessing { .. } => spec_dp_post(pre, post, insn, r) && mpost
                == mpre,
            ArmInstructionKind::SoftwareInterrupt => spec_swi_post(pre, post, insn, r) && mpost
                == mpre,
            ArmInstructionKind::SingleTransfer { .. } => spec_ldr_str_post(
                pre,
                post,
                mpre,
                mpost,
                insn,
                r,
            ),
            ArmInstructionKind::HalfwordTransfer { .. } => spec_ldr_str_hs_post(
                pre,
                post,
                mpre,
                mpost,
                insn,
                r,
            ),
            ArmInstructionKind::BlockTransfer { .. } => spec_ldm_stm_post(
                pre,
                post,
                mpre,
                mpost,
                insn,
                r,
            ),
            ArmInstructionKind::StatusTransfer { .. } => spec_msr_reg_post(pre, post, insn, r)
                && mpost == mpre,
            ArmInstructionKind::Multiply | ArmInstructionKind::Coprocessor => {
                &&& r == Err::<CpuPipelineAction, CpuError>(
                    CpuError::UnimplementedCpuInstruction(
                        insn.pc,
                        insn.raw,
                        DecodedInstruction::Arm(insn),
                    ),
                )
                &&& spec_core_unchanged(pre, post)
                &&& mpost == mpre
            },
        }
    }
}

/// Whether a register occurs in a list (linear scan).
pub fn rlist_contains(rlist: &Vec<usize>, r: usize) -> (b: bool)
    ensures
        b == spec_in_list(rlist@, rlist@.len() as int, r as int),
{
    let mut found = false;
    let mut i: usize = 0;
    while i < rlist.len()
        invariant
            i <= rlist@.len(),
            found == spec_in_list(rlist@, i as int, r as int),
        decreases rlist@.len() - i,
    {
        if rlist[i] == r {
            found = true;
        }
        i = i + 1;
    }
    found
}

impl Core {
    /// The magnitude an addressing-mode offset contributes, before the
    /// add/subtract direction is applied.
    pub fn offset_magnitude(&self, off: BarrelShifterValue) -> (r: u32)
        requires
            spec_offset_wf(off),
        ensures
            r == spec_dp_op2_val(*self, off),
    {
        match off {
            BarrelShifterValue::RotatedImmediate { immediate, rotate } => crate::alu::ror(
                immediate,
                rotate,
            ),
            BarrelShifterValue::ShiftedRegister { shift, added } => {
                match shift.by {
                    ShiftRegisterBy::ByAmount(a) => crate::alu::shift_imm(
                        self.get_reg(shift.reg),
                        shift.kind,
                        a,
                        self.cpsr.c,
                    ),
                    ShiftRegisterBy::ByRegister(_) => {
                        proof {
                            assert(false);
                        }
                        0
                    },
                }
            },
            BarrelShifterValue::ImmediateValue { value, added } => value,
        }
    }

    /// Memory load or store of a word or byte.
    pub fn exec_ldr_str(&mut self, bus: &mut Bus, insn: &ArmInstruction) -> (r: CpuExecResult)
        requires
            insn.wf(),
            insn.kind is SingleTransfer,
        ensures
            spec_ldr_str_post(*old(self), *final(self), old(bus)@, final(bus)@, *insn, r),
    {
        match insn.kind {
            ArmInstructionKind::SingleTransfer {
                load,
                byte,
                pre_index,
                write_back,
                rn,
                rd,
                offset,
            } => {
                if write_back && rd == rn {
                    return Err(CpuError::IllegalInstruction);
                }
                let base = if rn == REG_PC {
                    proof {
                        crate::lemma_w32_wrap(insn.pc + 8);
                    }
                    insn.pc.wrapping_add(8)
                } else {
                    self.get_reg(rn)
                };
                let mag = self.offset_magnitude(offset);
                let added = match offset {
                    BarrelShifterValue::RotatedImmediate { .. } => true,
                    BarrelShifterValue::ShiftedRegister { shift: _, added } => added,
                    BarrelShifterValue::ImmediateValue { value: _, added } => added,
                };
                proof {
                    crate::lemma_w32_wrap(base + mag);
                    crate::lemma_w32_wrap(base - mag);
                }
                let eff = if added {
                    base.wrapping_add(mag)
                } else {
                    base.wrapping_sub(mag)
                };
                let addr = if pre_index {
                    eff
                } else {
                    base
                };
                let mut action = CpuPipelineAction::IncPC;
                if load {
                    let data = if byte {
                        bus.read_byte(addr) as u32
                    } else {
                        bus.read_word(addr)
                    };
                    self.set_reg(rd, data);
                    self.add_cycle();
                    if rd == REG_PC {
                        action = CpuPipelineAction::Flush;
                    }
                } else {
                    let value = if rd == REG_PC {
                        proof {
                            crate::lemma_w32_wrap(insn.pc + 12);
                        }
                        insn.pc.wrapping_add(12)
                    } else {
                        self.get_reg(rd)
                    };
                    if byte {
                        bus.write_byte(addr, (value % 0x100) as u8);
                    } else {
                        bus.write_word(addr, value);
                    }
                }
                if write_back {
                    self.set_reg(rn, eff);
                }
                Ok(action)
            },
            _ => {
                proof {
                    assert(false);
                }
                Err(CpuError::IllegalInstruction)
            },
        }
    }

    /// Memory load or store of a halfword or sign-extended quantity.
    pub fn exec_ldr_str_hs(&mut self, bus: &mut Bus, insn: &ArmInstruction) -> (r: CpuExecResult)
        requires
            insn.wf(),
            insn.kind is HalfwordTransfer,
        ensures
            spec_ldr_str_hs_post(*old(self), *final(self), old(bus)@, final(bus)@, *insn, r),
    {
        match insn.kind {
            ArmInstructionKind::HalfwordTransfer {
                load,
                transfer,
                pre_index,
                write_back,
                rn,
                rd,
                offset,
            } => {
                if write_back && rd == rn {
                    return Err(CpuError::IllegalInstruction);
                }
                let base = if rn == REG_PC {
                    proof {
                        crate::lemma_w32_wrap(insn.pc + 8);
                    }
                    insn.pc.wrapping_add(8)
                } else {
                    self.get_reg(rn)
                };
                let mag = self.offset_magnitude(offset);
                let added = match offset {
                    BarrelShifterValue::RotatedImmediate { .. } => true,
                    BarrelShifterValue::ShiftedRegister { shift: _, added } => added,
                    BarrelShifterValue::ImmediateValue { value: _, added } => added,
                };
                proof {
                    crate::lemma_w32_wrap(base + mag);
                    crate::lemma_w32_wrap(base - mag);
                }
                let eff = if added {
                    base.wrapping_add(mag)
                } else {
                    base.wrapping_sub(mag)
                };
                let addr = if pre_index {
                    eff
                } else {
                    base
                };
                let mut action = CpuPipelineAction::IncPC;
                if load {
                    let data = match transfer {
                        ArmHalfwordTransferType::SignedByte => {
                            let b = bus.read_byte(addr);
                            if b >= 0x80 {
                                (b as u32) | 0xFFFF_FF00
                            } else {
                                b as u32
                            }
                        },
                        ArmHalfwordTransferType::SignedHalfwords => {
                            let h = bus.read_halfword(addr);
                            if h >= 0x8000 {
                                (h as u32) | 0xFFFF_0000
                            } else {
                                h as u32
                            }
                        },
                        ArmHalfwordTransferType::UnsignedHalfwords => bus.read_halfword(addr)
                            as u32,
                    };
                    self.set_reg(rd, data);
                    self.add_cycle();
                    if rd == REG_PC {
                        action = CpuPipelineAction::Flush;
                    }
                } else {
                    let value = if rd == REG_PC {
                        proof {
                            crate::lemma_w32_wrap(insn.pc + 12);
                        }
                        insn.pc.wrapping_add(12)
                    } else {
                        self.get_reg(rd)
                    };
                    match transfer {
                        ArmHalfwordTransferType::UnsignedHalfwords => {
                            bus.write_halfword(addr, (value % 0x1_0000) as u16);
                        },
                        _ => {
                            return Err(CpuError::UnsupportedHalfwordStore);
                        },
                    }
                }
                if write_back {
                    self.set_reg(rn, eff);
                }
                Ok(action)
            },
            _ => {
                proof {
                    assert(false);
                }
                Err(CpuError::IllegalInstruction)
            },
        }
    }

    /// Execute one decoded ARM instruction: evaluate its condition, then
    /// dispatch by instruction class.
    pub fn exec_arm(&mut self, bus: &mut Bus, insn: ArmInstruction) -> (r: CpuExecResult)
        requires
            insn.wf(),
        ensures
            spec_exec_arm_post(*old(self), *final(self), old(bus)@, final(bus)@, insn, r),
    {
        if !self.check_arm_cond(insn.cond) {
            return Ok(CpuPipelineAction::IncPC);
        }
        match insn.kind {
            ArmInstructionKind::BranchExchange { .. } => self.exec_bx(bus, &insn),
            ArmInstructionKind::BranchLink { .. } => self.exec_b_bl(bus, &insn),
            ArmInstructionKind::DataProcessing { .. } => self.exec_data_processing(bus, &insn),
            ArmInstructionKind::SoftwareInterrupt => self.exec_swi(bus, &insn),
            ArmInstructionKind::SingleTransfer { .. } => self.exec_ldr_str(bus, &insn),
            ArmInstructionKind::HalfwordTransfer { .. } => self.exec_ldr_str_hs(bus, &insn),
            ArmInstructionKind::BlockTransfer { .. } => self.exec_ldm_stm(bus, &insn),
            ArmInstructionKind::StatusTransfer { .. } => self.exec_msr_reg(bus, &insn),
            ArmInstructionKind::Multiply | ArmInstructionKind::Coprocessor => Err(
                CpuError::UnimplementedCpuInstruction(
                    insn.pc,
                    insn.raw,
                    DecodedInstruction::Arm(insn),
                ),
            ),
        }
    }

    /// Block data transfer: load or store an ordered register list.
    pub fn exec_ldm_stm(&mut self, bus: &mut Bus, insn: &ArmInstruction) -> (r: CpuExecResult)
        requires
            insn.wf(),
            insn.kind is BlockTransfer,
        ensures
            spec_ldm_stm_post(*old(self), *final(self), old(bus)@, final(bus)@, *insn, r),
    {
        match &insn.kind {
            ArmInstructionKind::BlockTransfer {
                load,
                pre_index,
                ascending,
                psr_user,
                write_back,
                rn,
                rlist,
            } => {
                let load = *load;
                let full = *pre_index;
                let ascending = *ascending;
                let psr_user = *psr_user;
                let rn = *rn;
                let mut writeback = *write_back;
                if psr_user {
                    return Err(CpuError::UnsupportedBlockPsrTransfer);
                }
                let n = rlist.len();
                let base = self.get_reg(rn);
                let ghost core0 = *self;
                let ghost m0 = bus@;
                let ghost trav = spec_trav(rlist@, ascending);
                proof {
                    crate::lemma_w32_small(base as int);
                    if !ascending {
                        lemma_in_list_reverse(rlist@, rn as int);
                    }
                    assert forall|i: int, j: int| 0 <= i < j < n implies #[trigger] trav[i]
                        != #[trigger] trav[j] by {
                        if ascending {
                            assert(rlist@[i] < rlist@[j]);
                        } else {
                            assert(trav[i] == rlist@[n - 1 - i]);
                            assert(trav[j] == rlist@[n - 1 - j]);
                            assert(rlist@[n - 1 - j] < rlist@[n - 1 - i]);
                        }
                    }
                }
                let mut addr = base;
                let mut action = CpuPipelineAction::IncPC;
                if load {
                    if rlist_contains(rlist, rn) {
                        writeback = false;
                    }
                    let mut i: usize = 0;
                    while i < n
                        invariant
                            i <= n,
                            n == rlist@.len(),
                            trav == spec_trav(rlist@, ascending),
                            forall|a: int, b: int|
                                0 <= a < b < n ==> #[trigger] trav[a] != #[trigger] trav[b],
                            forall|j: int| 0 <= j < n ==> (#[trigger] trav[j]) < 16,
                            base == spec_get_reg(core0, rn as int),
                            addr == (if ascending {
                                w32(base + 4 * i)
                            } else {
                                w32(base - 4 * i)
                            }),
                            self.cycles == w64(core0.cycles + i),
                            self.cpsr == core0.cpsr,
                            self.spsr@ == core0.spsr@,
                            self.banked_r13@ == core0.banked_r13@,
                            self.banked_r14@ == core0.banked_r14@,
                            bus@ == m0,
                            forall|j: int|
                                0 <= j < i && (#[trigger] trav[j]) != 15 ==> self.gpr@[trav[j] as int]
                                    == spec_read32(m0, spec_block_addr(base, ascending, full, j)),
                            forall|rr: int|
                                0 <= rr < 15 && !spec_in_list(trav, i as int, rr) ==> self.gpr@[rr]
                                    == core0.gpr@[rr],
                            forall|j: int|
                                0 <= j < i && (#[trigger] trav[j]) == 15 ==> self.pc == spec_read32(
                                    m0,
                                    spec_block_addr(base, ascending, full, j),
                                ),
                            !spec_in_list(trav, i as int, 15) ==> self.pc == core0.pc,
                            action == (if spec_in_list(trav, i as int, 15) {
                                CpuPipelineAction::Flush
                            } else {
                                CpuPipelineAction::IncPC
                            }),
                        decreases n - i,
                    {
                        let r = if ascending {
                            rlist[i]
                        } else {
                            rlist[n - 1 - i]
                        };
                        proof {
                            assert(trav[i as int] == r);
                            if ascending {
                                crate::lemma_w32_step(base + 4 * i, 4);
                            } else {
                                crate::lemma_w32_step(base - 4 * i, -4);
                            }
                            crate::lemma_w32_wrap(addr + 4);
                            crate::lemma_w32_wrap(addr - 4);
                            crate::lemma_w64_step(core0.cycles + i, 1);
                            crate::lemma_w64_wrap(w64(core0.cycles + i) + 1);
                        }
                        if full {
                            addr = if ascending {
                                addr.wrapping_add(4)
                            } else {
                                addr.wrapping_sub(4)
                            };
                        }
                        self.add_cycle();
                        let val = bus.read_word(addr);
                        self.set_reg(r, val);
                        if r == REG_PC {
                            action = CpuPipelineAction::Flush;
                        }
                        if !full {
                            addr = if ascending {
                                addr.wrapping_add(4)
                            } else {
                                addr.wrapping_sub(4)
                            };
                        }
                        i = i + 1;
                        proof {
                            assert(spec_in_list(trav, i as int, r as int));
                            assert forall|rr: int|
                                0 <= rr < 15 && !spec_in_list(trav, i as int, rr) implies self.gpr@[rr]
                                == core0.gpr@[rr] by {
                                assert(!spec_in_list(trav, i as int - 1, rr));
                            }
                        }
                    }
                } else {
                    let mut i: usize = 0;
                    while i < n
                        invariant
                            i <= n,
                            n == rlist@.len(),
                            trav == spec_trav(rlist@, ascending),
                            forall|j: int| 0 <= j < n ==> (#[trigger] trav[j]) < 16,
                            base == spec_get_reg(core0, rn as int),
                            addr == (if ascending {
                                w32(base + 4 * i)
                            } else {
                                w32(base - 4 * i)
                            }),
                            *self == core0,
                            bus@ == spec_block_store_range(
                                m0,
                                core0,
                                insn.pc,
                                base,
                                ascending,
                                full,
                                trav,
                                0,
                                i as int,
                            ),
                        decreases n - i,
                    {
                        let r = if ascending {
                            rlist[i]
                        } else {
                            rlist[n - 1 - i]
                        };
                        proof {
                            assert(trav[i as int] == r);
                            if ascending {
                                crate::lemma_w32_step(base + 4 * i, 4);
                            } else {
                                crate::lemma_w32_step(base - 4 * i, -4);
                            }
                            crate::lemma_w32_wrap(addr + 4);
                            crate::lemma_w32_wrap(addr - 4);
                            crate::lemma_w32_wrap(insn.pc + 12);
                            lemma_block_store_snoc(
                                m0,
                                core0,
                                insn.pc,
                                base,
                                ascending,
                                full,
                                trav,
                                0,
                                i as int,
                            );
                        }
                        if full {
                            addr = if ascending {
                                addr.wrapping_add(4)
                            } else {
                                addr.wrapping_sub(4)
                            };
                        }
                        let val = if r == REG_PC {
                            insn.pc.wrapping_add(12)
                        } else {
                            self.get_reg(r)
                        };
                        bus.write_word(addr, val);
                        if !full {
                            addr = if ascending {
                                addr.wrapping_add(4)
                            } else {
                                addr.wrapping_sub(4)
                            };
                        }
                        i = i + 1;
                    }
                }
                if writeback {
                    self.set_reg(rn, addr);
                }
                Ok(action)
            },
            _ => {
                proof {
                    assert(false);
                }
                Err(CpuError::IllegalInstruction)
            },
        }
    }

    /// Branch, optionally with link (2S+1N cycles).
    pub fn exec_b_bl(&mut self, bus: &mut Bus, insn: &ArmInstruction) -> (r: CpuExecResult)
        requires
            insn.kind is BranchLink,
        ensures
            spec_b_bl_post(*old(self), *final(self), *insn, r),
            final(bus)@ == old(bus)@,
    {
        match insn.kind {
            ArmInstructionKind::BranchLink { link, offset } => {
                if link {
                    let ws = self.word_size();
                    proof {
                        crate::lemma_w32_wrap(insn.pc + spec_word_size(old(self).cpsr.state));
                    }
                    let ret = insn.pc.wrapping_add(ws) & 0xFFFF_FFFE;
                    self.set_reg(14, ret);
                }
                proof {
                    crate::lemma_w32_wrap(old(self).pc + offset);
                }
                self.pc = self.pc.wrapping_add_signed(offset) & 0xFFFF_FFFE;
                Ok(CpuPipelineAction::Flush)
            },
            _ => {
                proof {
                    assert(false);
                }
                Err(CpuError::IllegalInstruction)
            },
        }
    }

    /// Branch and exchange execution state (2S+1N cycles).
    pub fn exec_bx(&mut self, bus: &mut Bus, insn: &ArmInstruction) -> (r: CpuExecResult)
        requires
            insn.wf(),
            insn.kind is BranchExchange,
        ensures
            spec_bx_post(*old(self), *final(self), *insn, r),
            final(bus)@ == old(bus)@,
    {
        match insn.kind {
            ArmInstructionKind::BranchExchange { rn } => {
                let target = self.get_reg(rn);
                if target & 1 == 1 {
                    self.cpsr.state = CpuState::THUMB;
                } else {
                    self.cpsr.state = CpuState::ARM;
                }
                self.pc = target & 0xFFFF_FFFE;
                Ok(CpuPipelineAction::Flush)
            },
            _ => {
                proof {
                    assert(false);
                }
                Err(CpuError::IllegalInstruction)
            },
        }
    }

    /// Software interrupt: delegate to exception entry and flush.
    pub fn exec_swi(&mut self, bus: &mut Bus, insn: &ArmInstruction) -> (r: CpuExecResult)
        ensures
            spec_swi_post(*old(self), *final(self), *insn, r),
            final(bus)@ == old(bus)@,
    {
        self.exception(Exception::SoftwareInterrupt);
        Ok(CpuPipelineAction::Flush)
    }

    /// Logical and arithmetic ALU operations (1S, plus one internal
    /// cycle when the shift amount comes from a register).
    pub fn exec_data_processing(&mut self, bus: &mut Bus, insn: &ArmInstruction) -> (r:
        CpuExecResult)
        requires
            insn.wf(),
            insn.kind is DataProcessing,
        ensures
            spec_dp_post(*old(self), *final(self), *insn, r),
            final(bus)@ == old(bus)@,
    {
        match insn.kind {
            ArmInstructionKind::DataProcessing { opcode, set_cond, rn, rd, op2 } => {
                let op1 = self.get_reg(rn);
                let op2v: u32 = match op2 {
                    BarrelShifterValue::RotatedImmediate { immediate, rotate } => crate::alu::ror(
                        immediate,
                        rotate,
                    ),
                    BarrelShifterValue::ShiftedRegister { shift, added } => {
                        match shift.by {
                            ShiftRegisterBy::ByRegister(_) => self.add_cycle(),
                            ShiftRegisterBy::ByAmount(_) => (),
                        }
                        match self.register_shift(shift) {
                            Ok(v) => v,
                            Err(e) => {
                                return Err(e);
                            },
                        }
                    },
                    BarrelShifterValue::ImmediateValue { .. } => {
                        proof {
                            assert(false);
                        }
                        0
                    },
                };
                let set_flags = opcode.is_setting_flags() || set_cond;
                match self.alu(opcode, op1, op2v, set_flags) {
                    Some(result) => {
                        self.set_reg(rd, result);
                        if rd == REG_PC {
                            Ok(CpuPipelineAction::Flush)
                        } else {
                            Ok(CpuPipelineAction::IncPC)
                        }
                    },
                    None => Ok(CpuPipelineAction::IncPC),
                }
            },
            _ => {
                proof {
                    assert(false);
                }
                Err(CpuError::IllegalInstruction)
            },
        }
    }

    /// Status register transfer from a register.
    pub fn exec_msr_reg(&mut self, bus: &mut Bus, insn: &ArmInstruction) -> (r: CpuExecResult)
        requires
            insn.wf(),
            insn.kind is StatusTransfer,
        ensures
            spec_msr_reg_post(*old(self), *final(self), *insn, r),
            final(bus)@ == old(bus)@,
    {
        match insn.kind {
            ArmInstructionKind::StatusTransfer { spsr, rm } => {
                let raw = self.get_reg(rm);
                match RegPSR::new(raw) {
                    None => Err(CpuError::InvalidStatusRegisterValue(raw)),
                    Some(new_psr) => {
                        if spsr {
                            let old_mode = self.cpsr.mode;
                            match old_mode.spsr_index() {
                                Some(index) => {
                                    self.spsr[index] = new_psr;
                                    Ok(CpuPipelineAction::IncPC)
                                },
                                None => Err(CpuError::SpsrAccessInNonBankedMode(old_mode)),
                            }
                        } else {
                            if self.cpsr.mode != new_psr.mode {
                                self.change_mode(new_psr.mode);
                            }
                            self.cpsr = new_psr;
                            Ok(CpuPipelineAction::IncPC)
                        }
                    },
                }
            },
            _ => {
                proof {
                    assert(false);
                }
                Err(CpuError::IllegalInstruction)
            },
        }
    }
}

} // verus!
