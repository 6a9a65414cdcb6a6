//! Tests of the block transfer, status register transfer and software
//! interrupt, including the descending-store ordering and the mode
//! banking behavior.

use arm7tdmi::arm::{ArmCond, ArmInstruction, ArmInstructionKind};
use arm7tdmi::bus::Bus;
use arm7tdmi::cpu::{Core, CpuError, CpuPipelineAction};
use arm7tdmi::psr::{CpuMode, CpuState, RegPSR};

fn insn(cond: ArmCond, pc: u32, kind: ArmInstructionKind) -> ArmInstruction {
    ArmInstruction { cond, raw: 0, pc, kind }
}

fn block(
    load: bool,
    pre_index: bool,
    ascending: bool,
    write_back: bool,
    rn: usize,
    rlist: Vec<usize>,
) -> ArmInstructionKind {
    ArmInstructionKind::BlockTransfer {
        load,
        pre_index,
        ascending,
        psr_user: false,
        write_back,
        rn,
        rlist,
    }
}

#[test]
fn block_store_ascending_places_low_registers_low() {
    let mut core = Core::new();
    core.gpr[0] = 0xAAAA_0000;
    core.gpr[1] = 0xBBBB_1111;
    core.gpr[2] = 0xCCCC_2222;
    core.gpr[4] = 0x40;
    let mut bus = Bus::new(0x100);
    // Ascending, post-increment (empty ascending): base, base+4, base+8.
    let i = insn(ArmCond::AL, 0, block(false, false, true, true, 4, vec![0, 1, 2]));
    let r = core.exec_arm(&mut bus, i);
    assert_eq!(r.unwrap(), CpuPipelineAction::IncPC);
    assert_eq!(bus.read_word(0x40), 0xAAAA_0000);
    assert_eq!(bus.read_word(0x44), 0xBBBB_1111);
    assert_eq!(bus.read_word(0x48), 0xCCCC_2222);
    assert_eq!(core.gpr[4], 0x4C);
}

#[test]
fn block_store_descending_places_low_registers_low() {
    let mut core = Core::new();
    core.gpr[0] = 0xAAAA_0000;
    core.gpr[1] = 0xBBBB_1111;
    core.gpr[2] = 0xCCCC_2222;
    core.gpr[4] = 0x4C;
    let mut bus = Bus::new(0x100);
    // Descending, pre-decrement (full descending): register 2 goes first
    // to base-4, register 0 last to base-12, so register 0 sits at the
    // lowest address and register 2 at the highest.
    let i = insn(ArmCond::AL, 0, block(false, true, false, true, 4, vec![0, 1, 2]));
    core.exec_arm(&mut bus, i).unwrap();
    assert_eq!(bus.read_word(0x40), 0xAAAA_0000);
    assert_eq!(bus.read_word(0x44), 0xBBBB_1111);
    assert_eq!(bus.read_word(0x48), 0xCCCC_2222);
    assert_eq!(core.gpr[4], 0x40);
}

#[test]
fn block_descending_store_then_ascending_load_round_trips() {
    let mut core = Core::new();
    core.gpr[0] = 0x1111_1111;
    core.gpr[1] = 0x2222_2222;
    core.gpr[2] = 0x3333_3333;
    core.gpr[13] = 0x80;
    let mut bus = Bus::new(0x100);
    // Push descending (pre-decrement) from 0x80.
    let i = insn(ArmCond::AL, 0, block(false, true, false, true, 13, vec![0, 1, 2]));
    core.exec_arm(&mut bus, i).unwrap();
    assert_eq!(core.gpr[13], 0x74);
    core.gpr[0] = 0;
    core.gpr[1] = 0;
    core.gpr[2] = 0;
    // Pop ascending (post-increment) from the new stack pointer.
    let i = insn(ArmCond::AL, 0, block(true, false, true, true, 13, vec![0, 1, 2]));
    core.exec_arm(&mut bus, i).unwrap();
    assert_eq!(core.gpr[0], 0x1111_1111);
    assert_eq!(core.gpr[1], 0x2222_2222);
    assert_eq!(core.gpr[2], 0x3333_3333);
    assert_eq!(core.gpr[13], 0x80);
}

#[test]
fn block_load_with_base_in_list_suppresses_writeback() {
    for &(pre_index, ascending) in
        &[(false, true), (true, true), (false, false), (true, false)]
    {
        let mut core = Core::new();
        core.gpr[1] = 0x40;
        let mut bus = Bus::new(0x100);
        for a in 0..0x40 {
            bus.write_word(a * 4, 0x9000 + a);
        }
        let i = insn(
            ArmCond::AL,
            0,
            block(true, pre_index, ascending, true, 1, vec![0, 1, 2]),
        );
        core.exec_arm(&mut bus, i).unwrap();
        // The loaded value for the base register wins over writeback.
        // Register 1 sits at traversal position 1 of [0, 1, 2] in both
        // directions; compute the address that position was given.
        let step0: u32 = if ascending {
            if pre_index { 0x44 } else { 0x40 }
        } else {
            if pre_index { 0x3C } else { 0x40 }
        };
        let addr_of_r1 = if ascending { step0 + 4 } else { step0 - 4 };
        assert_eq!(core.gpr[1], bus.read_word(addr_of_r1));
        // And it is a loaded word, not the stepped address.
        assert_eq!(core.gpr[1] & 0xFFFF_F000, 0x9000 & 0xFFFF_F000);
    }
}

#[test]
fn block_load_including_pc_flushes() {
    let mut core = Core::new();
    core.gpr[1] = 0x40;
    let mut bus = Bus::new(0x100);
    bus.write_word(0x40, 0x1234_5678);
    bus.write_word(0x44, 0x0000_9000);
    let i = insn(ArmCond::AL, 0, block(true, false, true, false, 1, vec![0, 15]));
    let r = core.exec_arm(&mut bus, i);
    assert_eq!(r.unwrap(), CpuPipelineAction::Flush);
    assert_eq!(core.gpr[0], 0x1234_5678);
    assert_eq!(core.pc, 0x0000_9000);
}

#[test]
fn block_psr_force_user_variant_is_a_loud_error() {
    let mut core = Core::new();
    core.gpr[1] = 0x40;
    let mut bus = Bus::new(0x100);
    let i = insn(
        ArmCond::AL,
        0,
        ArmInstructionKind::BlockTransfer {
            load: true,
            pre_index: false,
            ascending: true,
            psr_user: true,
            write_back: true,
            rn: 1,
            rlist: vec![0, 2],
        },
    );
    let r = core.exec_arm(&mut bus, i);
    assert!(matches!(r, Err(CpuError::UnsupportedBlockPsrTransfer)));
    assert_eq!(core.gpr[1], 0x40);
}

#[test]
fn block_transfer_of_empty_list_only_writes_back() {
    let mut core = Core::new();
    core.gpr[1] = 0x40;
    let mut bus = Bus::new(0x100);
    bus.write_word(0x40, 0x1234_5678);
    let i = insn(ArmCond::AL, 0, block(false, false, true, true, 1, vec![]));
    let r = core.exec_arm(&mut bus, i);
    assert_eq!(r.unwrap(), CpuPipelineAction::IncPC);
    assert_eq!(bus.read_word(0x40), 0x1234_5678);
    assert_eq!(core.gpr[1], 0x40);
}

#[test]
fn block_load_of_all_sixteen_registers() {
    let mut core = Core::new();
    core.gpr[1] = 0x00;
    let mut bus = Bus::new(0x100);
    for a in 0..16u32 {
        bus.write_word(a * 4, 0x100 + a);
    }
    let all: Vec<usize> = (0..16).collect();
    let i = insn(ArmCond::AL, 0, block(true, false, true, true, 1, all));
    let r = core.exec_arm(&mut bus, i);
    // Register 15 is in the list: the pipeline flushes.
    assert_eq!(r.unwrap(), CpuPipelineAction::Flush);
    for r in 0..15usize {
        assert_eq!(core.gpr[r], 0x100 + r as u32);
    }
    assert_eq!(core.pc, 0x10F);
    // The base register was in the list, so its loaded value stayed.
    assert_eq!(core.gpr[1], 0x101);
}

fn psr_raw(n: bool, z: bool, c: bool, v: bool, thumb: bool, mode_bits: u32) -> u32 {
    (if n { 0x8000_0000 } else { 0 })
        | (if z { 0x4000_0000 } else { 0 })
        | (if c { 0x2000_0000 } else { 0 })
        | (if v { 0x1000_0000 } else { 0 })
        | (if thumb { 0x20 } else { 0 })
        | mode_bits
}

#[test]
fn msr_cpsr_with_new_mode_swaps_banks_once() {
    let mut core = Core::new();
    core.cpsr.mode = CpuMode::Supervisor;
    core.gpr[13] = 0x5000;
    core.gpr[14] = 0x5004;
    core.banked_r13[1] = 0x7000;
    core.banked_r14[1] = 0x7004;
    // Write an IRQ-mode image into r2 and MSR it into CPSR.
    core.gpr[2] = psr_raw(true, false, false, false, false, 0x12);
    let mut bus = Bus::new(16);
    let i = insn(
        ArmCond::AL,
        0,
        ArmInstructionKind::StatusTransfer { spsr: false, rm: 2 },
    );
    let r = core.exec_arm(&mut bus, i);
    assert_eq!(r.unwrap(), CpuPipelineAction::IncPC);
    assert_eq!(core.cpsr.mode, CpuMode::Irq);
    assert!(core.cpsr.n);
    assert_eq!(core.cpsr.state, CpuState::ARM);
    // Supervisor's registers went to its bank; IRQ's bank came in.
    assert_eq!(core.banked_r13[2], 0x5000);
    assert_eq!(core.banked_r14[2], 0x5004);
    assert_eq!(core.gpr[13], 0x7000);
    assert_eq!(core.gpr[14], 0x7004);
}

#[test]
fn msr_cpsr_same_mode_changes_flags_only() {
    let mut core = Core::new();
    core.cpsr.mode = CpuMode::Supervisor;
    core.gpr[13] = 0x5000;
    core.gpr[2] = psr_raw(false, true, true, false, false, 0x13);
    let mut bus = Bus::new(16);
    let i = insn(
        ArmCond::AL,
        0,
        ArmInstructionKind::StatusTransfer { spsr: false, rm: 2 },
    );
    core.exec_arm(&mut bus, i).unwrap();
    assert!(core.cpsr.z);
    assert!(core.cpsr.c);
    assert_eq!(core.cpsr.mode, CpuMode::Supervisor);
    assert_eq!(core.gpr[13], 0x5000);
}

#[test]
fn msr_spsr_in_banked_mode_writes_the_slot() {
    let mut core = Core::new();
    core.cpsr.mode = CpuMode::Irq;
    core.gpr[2] = psr_raw(false, false, true, true, false, 0x10);
    let mut bus = Bus::new(16);
    let i = insn(
        ArmCond::AL,
        0,
        ArmInstructionKind::StatusTransfer { spsr: true, rm: 2 },
    );
    core.exec_arm(&mut bus, i).unwrap();
    let slot = core.spsr[1];
    assert!(slot.c && slot.v && !slot.n && !slot.z);
    assert_eq!(slot.mode, CpuMode::User);
    // CPSR itself is untouched.
    assert_eq!(core.cpsr.mode, CpuMode::Irq);
}

#[test]
fn msr_spsr_without_banked_slot_is_fatal() {
    for mode in [CpuMode::User, CpuMode::System] {
        let mut core = Core::new();
        core.cpsr.mode = mode;
        core.gpr[2] = psr_raw(false, false, false, false, false, 0x13);
        let mut bus = Bus::new(16);
        let i = insn(
            ArmCond::AL,
            0,
            ArmInstructionKind::StatusTransfer { spsr: true, rm: 2 },
        );
        let r = core.exec_arm(&mut bus, i);
        assert!(matches!(r, Err(CpuError::SpsrAccessInNonBankedMode(_))));
    }
}

#[test]
fn msr_with_invalid_mode_bits_is_fatal() {
    let mut core = Core::new();
    core.gpr[2] = psr_raw(false, false, false, false, false, 0x00);
    let mut bus = Bus::new(16);
    let i = insn(
        ArmCond::AL,
        0,
        ArmInstructionKind::StatusTransfer { spsr: false, rm: 2 },
    );
    let r = core.exec_arm(&mut bus, i);
    assert!(matches!(r, Err(CpuError::InvalidStatusRegisterValue(_))));
}

#[test]
fn swi_from_user_mode_enters_supervisor() {
    let mut core = Core::new();
    core.cpsr.mode = CpuMode::User;
    core.cpsr.n = true;
    core.pc = 0x108;
    core.gpr[13] = 0x3000;
    core.banked_r13[2] = 0x8000;
    let old_cpsr = core.cpsr;
    let mut bus = Bus::new(16);
    let i = insn(ArmCond::AL, 0x100, ArmInstructionKind::SoftwareInterrupt);
    let r = core.exec_arm(&mut bus, i);
    assert_eq!(r.unwrap(), CpuPipelineAction::Flush);
    assert_eq!(core.cpsr.mode, CpuMode::Supervisor);
    assert_eq!(core.cpsr.state, CpuState::ARM);
    // The supervisor-mode saved status register holds the pre-call CPSR.
    assert_eq!(core.spsr[2], old_cpsr);
    // PC sits on the software-interrupt vector.
    assert_eq!(core.pc, 0x08);
    // The supervisor bank came in, and its r14 holds the return address.
    assert_eq!(core.gpr[13], 0x8000);
    assert_eq!(core.gpr[14], 0x104);
    // User r13 went to the shared user bank.
    assert_eq!(core.banked_r13[5], 0x3000);
}

#[test]
fn swi_with_failing_condition_does_nothing() {
    let mut core = Core::new();
    core.cpsr.mode = CpuMode::User;
    core.pc = 0x108;
    let mut bus = Bus::new(16);
    let i = insn(ArmCond::EQ, 0x100, ArmInstructionKind::SoftwareInterrupt);
    let r = core.exec_arm(&mut bus, i);
    assert_eq!(r.unwrap(), CpuPipelineAction::IncPC);
    assert_eq!(core.cpsr.mode, CpuMode::User);
    assert_eq!(core.pc, 0x108);
}

#[test]
fn unimplemented_class_reports_address_and_encoding() {
    let mut core = Core::new();
    let mut bus = Bus::new(16);
    let i = ArmInstruction {
        cond: ArmCond::AL,
        raw: 0xE000_0090,
        pc: 0x200,
        kind: ArmInstructionKind::Multiply,
    };
    let r = core.exec_arm(&mut bus, i);
    match r {
        Err(CpuError::UnimplementedCpuInstruction(addr, raw, _decoded)) => {
            assert_eq!(addr, 0x200);
            assert_eq!(raw, 0xE000_0090);
        }
        other => panic!("expected the unimplemented-class error, got {:?}", other),
    }
}

#[test]
fn conditions_follow_the_flags() {
    let mut bus = Bus::new(16);
    let cases = [
        (ArmCond::EQ, RegPSR { z: true, ..zero_psr() }, true),
        (ArmCond::NE, RegPSR { z: true, ..zero_psr() }, false),
        (ArmCond::CS, RegPSR { c: true, ..zero_psr() }, true),
        (ArmCond::CC, RegPSR { c: true, ..zero_psr() }, false),
        (ArmCond::MI, RegPSR { n: true, ..zero_psr() }, true),
        (ArmCond::PL, RegPSR { n: true, ..zero_psr() }, false),
        (ArmCond::VS, RegPSR { v: true, ..zero_psr() }, true),
        (ArmCond::VC, RegPSR { v: true, ..zero_psr() }, false),
        (ArmCond::HI, RegPSR { c: true, ..zero_psr() }, true),
        (ArmCond::LS, RegPSR { c: true, ..zero_psr() }, false),
        (ArmCond::GE, RegPSR { n: true, v: true, ..zero_psr() }, true),
        (ArmCond::LT, RegPSR { n: true, ..zero_psr() }, true),
        (ArmCond::GT, zero_psr(), true),
        (ArmCond::LE, RegPSR { z: true, ..zero_psr() }, true),
        (ArmCond::AL, zero_psr(), true),
        (ArmCond::NV, zero_psr(), false),
    ];
    for (cond, psr, expect_exec) in cases {
        let mut core = Core::new();
        core.cpsr = psr;
        let i = insn(cond, 0x100, ArmInstructionKind::BranchLink { link: false, offset: 8 });
        let r = core.exec_arm(&mut bus, i).unwrap();
        if expect_exec {
            assert_eq!(r, CpuPipelineAction::Flush, "condition {:?} should pass", cond);
        } else {
            assert_eq!(r, CpuPipelineAction::IncPC, "condition {:?} should fail", cond);
        }
    }
}

fn zero_psr() -> RegPSR {
    RegPSR {
        n: false,
        z: false,
        c: false,
        v: false,
        state: CpuState::ARM,
        mode: CpuMode::Supervisor,
    }
}
