//! Exact-value tests over the ALU opcode family and the barrel shifter's
//! register-sourced amounts.

use arm7tdmi::alu::{AluOpCode, BarrelShiftOpCode, BarrelShifterValue, RegisterShift, ShiftRegisterBy};
use arm7tdmi::arm::{ArmCond, ArmInstruction, ArmInstructionKind};
use arm7tdmi::bus::Bus;
use arm7tdmi::cpu::{Core, CpuPipelineAction};

fn run_dp(
    core: &mut Core,
    opcode: AluOpCode,
    set_cond: bool,
    rn: usize,
    rd: usize,
    op2: BarrelShifterValue,
) -> CpuPipelineAction {
    let mut bus = Bus::new(16);
    let i = ArmInstruction {
        cond: ArmCond::AL,
        raw: 0,
        pc: 0,
        kind: ArmInstructionKind::DataProcessing { opcode, set_cond, rn, rd, op2 },
    };
    core.exec_arm(&mut bus, i).unwrap()
}

fn imm(value: u32) -> BarrelShifterValue {
    BarrelShifterValue::RotatedImmediate { immediate: value, rotate: 0 }
}

#[test]
fn alu_logical_opcodes_compute_exact_values() {
    let cases: [(AluOpCode, u32, u32, u32); 5] = [
        (AluOpCode::AND, 0xF0F0_1234, 0xFF, 0x34),
        (AluOpCode::EOR, 0xFF00_FF00, 0xF0, 0xFF00_FFF0),
        (AluOpCode::ORR, 0x0F00_0000, 0x0F, 0x0F00_000F),
        (AluOpCode::BIC, 0xFF, 0x0F, 0xF0),
        (AluOpCode::MVN, 0, 0xFF, 0xFFFF_FF00),
    ];
    for (op, a, b, expect) in cases {
        let mut core = Core::new();
        core.gpr[1] = a;
        run_dp(&mut core, op, false, 1, 0, imm(b));
        assert_eq!(core.gpr[0], expect, "{:?}", op);
    }
}

#[test]
fn alu_arithmetic_opcodes_compute_exact_values() {
    // (opcode, op1, op2, carry in, expected result)
    let cases: [(AluOpCode, u32, u32, bool, u32); 6] = [
        (AluOpCode::ADD, 0xFFFF_FFFF, 1, false, 0),
        (AluOpCode::ADC, 10, 20, true, 31),
        (AluOpCode::SUB, 5, 7, false, 0xFFFF_FFFE),
        (AluOpCode::SBC, 10, 3, false, 6),
        (AluOpCode::RSB, 3, 10, false, 7),
        (AluOpCode::RSC, 3, 10, true, 7),
    ];
    for (op, a, b, cin, expect) in cases {
        let mut core = Core::new();
        core.cpsr.c = cin;
        core.gpr[1] = a;
        run_dp(&mut core, op, false, 1, 0, imm(b));
        assert_eq!(core.gpr[0], expect, "{:?}", op);
    }
}

#[test]
fn alu_test_opcodes_set_flags_only() {
    let mut core = Core::new();
    core.gpr[1] = 0x8000_0000;
    core.gpr[0] = 77;
    // TST r1, #0x80000000 rotated 0: nonzero and negative.
    run_dp(
        &mut core,
        AluOpCode::TST,
        false,
        1,
        0,
        BarrelShifterValue::RotatedImmediate { immediate: 2, rotate: 2 },
    );
    assert_eq!(core.gpr[0], 77);
    assert!(core.cpsr.n);
    assert!(!core.cpsr.z);

    // TEQ of equal values: zero.
    let mut core = Core::new();
    core.gpr[1] = 0x55;
    run_dp(&mut core, AluOpCode::TEQ, false, 1, 0, imm(0x55));
    assert!(core.cpsr.z);

    // CMN that carries out: carry set, result zero.
    let mut core = Core::new();
    core.gpr[1] = 0xFFFF_FFFF;
    run_dp(&mut core, AluOpCode::CMN, false, 1, 0, imm(1));
    assert!(core.cpsr.z);
    assert!(core.cpsr.c);
}

#[test]
fn alu_subtraction_borrow_clears_carry() {
    let mut core = Core::new();
    core.gpr[1] = 4;
    run_dp(&mut core, AluOpCode::CMP, false, 1, 0, imm(5));
    assert!(!core.cpsr.c, "a borrow must clear the carry flag");
    assert!(core.cpsr.n);
}

#[test]
fn shift_amount_from_register_uses_bottom_byte() {
    let mut core = Core::new();
    core.gpr[1] = 1;
    // Amount register holds 0x104: only the bottom byte counts (4).
    core.gpr[2] = 0x104;
    let shift = RegisterShift {
        reg: 1,
        kind: BarrelShiftOpCode::LSL,
        by: ShiftRegisterBy::ByRegister(2),
    };
    run_dp(
        &mut core,
        AluOpCode::MOV,
        false,
        0,
        0,
        BarrelShifterValue::ShiftedRegister { shift, added: true },
    );
    assert_eq!(core.gpr[0], 0x10);
}

#[test]
fn shift_by_register_amount_zero_passes_value_through() {
    let mut core = Core::new();
    core.gpr[1] = 0x8000_0001;
    core.gpr[2] = 0;
    // Unlike the immediate form, a register amount of zero changes nothing.
    let shift = RegisterShift {
        reg: 1,
        kind: BarrelShiftOpCode::LSR,
        by: ShiftRegisterBy::ByRegister(2),
    };
    run_dp(
        &mut core,
        AluOpCode::MOV,
        false,
        0,
        0,
        BarrelShifterValue::ShiftedRegister { shift, added: true },
    );
    assert_eq!(core.gpr[0], 0x8000_0001);
}

#[test]
fn shift_by_register_amount_over_32_saturates() {
    let mut core = Core::new();
    core.gpr[1] = 0x8000_0000;
    core.gpr[2] = 40;
    let shift = RegisterShift {
        reg: 1,
        kind: BarrelShiftOpCode::ASR,
        by: ShiftRegisterBy::ByRegister(2),
    };
    run_dp(
        &mut core,
        AluOpCode::MOV,
        false,
        0,
        0,
        BarrelShifterValue::ShiftedRegister { shift, added: true },
    );
    assert_eq!(core.gpr[0], 0xFFFF_FFFF);
}

#[test]
fn load_into_register_15_flushes() {
    let mut core = Core::new();
    core.gpr[1] = 0x10;
    let mut bus = Bus::new(64);
    bus.write_word(0x10, 0x0000_4000);
    let i = ArmInstruction {
        cond: ArmCond::AL,
        raw: 0,
        pc: 0,
        kind: ArmInstructionKind::SingleTransfer {
            load: true,
            byte: false,
            pre_index: true,
            write_back: false,
            rn: 1,
            rd: 15,
            offset: BarrelShifterValue::ImmediateValue { value: 0, added: true },
        },
    };
    let r = core.exec_arm(&mut bus, i);
    assert_eq!(r.unwrap(), CpuPipelineAction::Flush);
    assert_eq!(core.pc, 0x4000);
}

#[test]
fn bus_word_round_trip_is_little_endian() {
    let mut bus = Bus::new(8);
    bus.write_word(0, 0x0A0B_0C0D);
    assert_eq!(bus.read_byte(0), 0x0D);
    assert_eq!(bus.read_byte(1), 0x0C);
    assert_eq!(bus.read_byte(2), 0x0B);
    assert_eq!(bus.read_byte(3), 0x0A);
    assert_eq!(bus.read_halfword(0), 0x0C0D);
    assert_eq!(bus.read_word(0), 0x0A0B_0C0D);
}

#[test]
fn bus_out_of_range_reads_zero_and_writes_are_dropped() {
    let mut bus = Bus::new(4);
    bus.write_word(0, 0x1122_3344);
    bus.write_byte(100, 0xFF);
    assert_eq!(bus.read_byte(100), 0);
    assert_eq!(bus.read_word(0), 0x1122_3344);
}
