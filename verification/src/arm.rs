//! The decoded ARM instruction: condition field, class tag with its
//! class-specific payload, raw encoding and originating address, together
//! with the well-formedness the decoder guarantees and the evaluation of
//! condition codes against the flags.

use crate::alu::{AluOpCode, BarrelShifterValue, RegisterShift, ShiftRegisterBy};
use crate::psr::RegPSR;
use vstd::prelude::*;

verus! {

/// The standard ARM condition codes.
#[allow(non_camel_case_types)]
#[derive(Clone, Copy, Debug, PartialEq, Eq, Structural)]
pub enum ArmCond {
    EQ,
    NE,
    CS,
    CC,
    MI,
    PL,
    VS,
    VC,
    HI,
    LS,
    GE,
    LT,
    GT,
    LE,
    AL,
    NV,
}

/// Whether a condition passes against the given flags.  `AL` always
/// passes and `NV` never does.
pub open spec fn spec_cond_pass(cond: ArmCond, psr: RegPSR) -> bool {
    match cond {
        ArmCond::EQ => psr.z,
        ArmCond::NE => !psr.z,
        ArmCond::CS => psr.c,
        ArmCond::CC => !psr.c,
        ArmCond::MI => psr.n,
        ArmCond::PL => !psr.n,
        ArmCond::VS => psr.v,
        ArmCond::VC => !psr.v,
        ArmCond::HI => psr.c && !psr.z,
        ArmCond::LS => !psr.c || psr.z,
        ArmCond::GE => psr.n == psr.v,
        ArmCond::LT => psr.n != psr.v,
        ArmCond::GT => !psr.z && psr.n == psr.v,
        ArmCond::LE => psr.z || psr.n != psr.v,
        ArmCond::AL => true,
        ArmCond::NV => false,
    }
}

/// The three transfer kinds of the halfword/signed transfer class.  Only
/// the unsigned halfword exists on the store side.
#[derive(Clone, Copy, Debug, PartialEq, Eq, Structural)]
pub enum ArmHalfwordTransferType {
    SignedByte,
    SignedHalfwords,
    UnsignedHalfwords,
}

/// The instruction-class payloads.  Classes the core does not implement
/// (multiplies and coprocessor operations) are carried as bare tags and
/// reported through the structured unimplemented-class error.
#[derive(Clone, Debug)]
pub enum ArmInstructionKind {
    BranchExchange { rn: usize },
    BranchLink { link: bool, offset: i32 },
    DataProcessing { opcode: AluOpCode, set_cond: bool, rn: usize, rd: usize, op2: BarrelShifterValue },
    SingleTransfer { load: bool, byte: bool, pre_index: bool, write_back: bool, rn: usize, rd: usize, offset: BarrelShifterValue },
    HalfwordTransfer { load: bool, transfer: ArmHalfwordTransferType, pre_index: bool, write_back: bool, rn: usize, rd: usize, offset: BarrelShifterValue },
    BlockTransfer { load: bool, pre_index: bool, ascending: bool, psr_user: bool, write_back: bool, rn: usize, rlist: Vec<usize> },
    StatusTransfer { spsr: bool, rm: usize },
    SoftwareInterrupt,
    Multiply,
    Coprocessor,
}

/// A decoded instruction: produced externally by the decoder, consumed
/// once by exactly one handler.
#[derive(Clone, Debug)]
pub struct ArmInstruction {
    /// The 4-bit condition field, decoded.
    pub cond: ArmCond,
    /// The raw 32-bit encoding, carried for diagnostics.
    pub raw: u32,
    /// The address the instruction was fetched from.
    pub pc: u32,
    /// The class tag and its payload.
    pub kind: ArmInstructionKind,
}

/// A decoded instruction of any execution state.  Only ARM-state
/// instructions exist at this layer.
#[derive(Clone, Debug)]
pub enum DecodedInstruction {
    Arm(ArmInstruction),
}

/// Well-formedness of a shifter operand descriptor: register indices in
/// range, and a rotated immediate's rotation below 32.
pub open spec fn spec_operand_wf(op: BarrelShifterValue) -> bool {
    match op {
        BarrelShifterValue::RotatedImmediate { immediate, rotate } => rotate < 32,
        BarrelShifterValue::ShiftedRegister { shift, added } => shift.reg < 16 && (match shift.by {
            ShiftRegisterBy::ByAmount(a) => a < 32,
            ShiftRegisterBy::ByRegister(rs) => rs < 16,
        }),
        BarrelShifterValue::ImmediateValue { value, added } => true,
    }
}

/// Well-formedness of an addressing-mode offset: as an operand, with the
/// shift amount always an immediate (the register-specified amount does
/// not exist in the addressing modes).
pub open spec fn spec_offset_wf(op: BarrelShifterValue) -> bool {
    spec_operand_wf(op) && (op matches BarrelShifterValue::ShiftedRegister { shift, .. }
        ==> shift.by is ByAmount)
}

/// Well-formedness of a block-transfer register list: strictly ascending
/// register numbers below 16.
pub open spec fn spec_rlist_wf(rlist: Seq<usize>) -> bool {
    &&& forall|i: int| 0 <= i < rlist.len() ==> (#[trigger] rlist[i]) < 16
    &&& forall|i: int, j: int| 0 <= i < j < rlist.len() ==> #[trigger] rlist[i] < #[trigger] rlist[j]
}

impl ArmInstruction {
    /// What the decoder guarantees of every instruction it hands over:
    /// register indices below 16 and offset descriptors of the shape the
    /// addressing modes allow.
    pub open spec fn wf(self) -> bool {
        match self.kind {
            ArmInstructionKind::BranchExchange { rn } => rn < 16,
            ArmInstructionKind::BranchLink { link, offset } => true,
            ArmInstructionKind::DataProcessing { opcode, set_cond, rn, rd, op2 } => {
                &&& rn < 16
                &&& rd < 16
                &&& spec_operand_wf(op2)
                &&& (op2 is RotatedImmediate || op2 is ShiftedRegister)
            },
            ArmInstructionKind::SingleTransfer { load, byte, pre_index, write_back, rn, rd, offset } => {
                &&& rn < 16
                &&& rd < 16
                &&& spec_offset_wf(offset)
            },
            ArmInstructionKind::HalfwordTransfer {
                load,
                transfer,
                pre_index,
                write_back,
                rn,
                rd,
                offset,
            } => {
                &&& rn < 16
                &&& rd < 16
                &&& spec_offset_wf(offset)
            },
            ArmInstructionKind::BlockTransfer {
                load,
                pre_index,
                ascending,
                psr_user,
                write_back,
                rn,
                rlist,
            } => {
                &&& rn < 16
                &&& spec_rlist_wf(rlist@)
            },
            ArmInstructionKind::StatusTransfer { spsr, rm } => rm < 16,
            ArmInstructionKind::SoftwareInterrupt => true,
            ArmInstructionKind::Multiply => true,
            ArmInstructionKind::Coprocessor => true,
        }
    }
}

} // verus!
