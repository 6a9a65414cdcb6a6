//! The barrel shifter and the ALU: shift and rotate semantics including
//! ARM's zero-shift-amount special cases, the sixteen data-processing
//! opcodes, and the condition-flag formulas for logical and arithmetic
//! results.  All values are 32-bit words; arithmetic wraps mod 2^32.

use crate::cpu::{spec_get_reg, Core, CpuError, CpuResult};
use crate::psr::RegPSR;
use crate::w32;
use vstd::prelude::*;

verus! {

/// The four shift kinds of the barrel shifter.
#[allow(non_camel_case_types)]
#[derive(Clone, Copy, Debug, PartialEq, Eq, Structural)]
pub enum BarrelShiftOpCode {
    LSL,
    LSR,
    ASR,
    ROR,
}

/// Where a shift amount comes from: an immediate field of the encoding,
/// or the bottom byte of a register.
#[derive(Clone, Copy, Debug, PartialEq, Eq, Structural)]
pub enum ShiftRegisterBy {
    ByAmount(u32),
    ByRegister(usize),
}

/// A register operand passed through the barrel shifter.
#[derive(Clone, Copy, Debug, PartialEq, Eq, Structural)]
pub struct RegisterShift {
    /// The register holding the value to shift.
    pub reg: usize,
    /// The shift kind.
    pub kind: BarrelShiftOpCode,
    /// The source of the shift amount.
    pub by: ShiftRegisterBy,
}

/// A shifter operand descriptor as the decoder hands it over: a rotated
/// 8-bit immediate (`rotate` is the final rotation, the encoding's 4-bit
/// field already doubled by the decoder), a shifted register, or a plain
/// immediate offset.  `added` tells an addressing-mode consumer whether
/// the value is added to or subtracted from the base.
#[derive(Clone, Copy, Debug, PartialEq, Eq, Structural)]
pub enum BarrelShifterValue {
    RotatedImmediate { immediate: u32, rotate: u32 },
    ShiftedRegister { shift: RegisterShift, added: bool },
    ImmediateValue { value: u32, added: bool },
}

/// The sign bit of a 32-bit word.
pub open spec fn spec_neg(x: u32) -> bool {
    x >= 0x8000_0000
}

/// The signed (two's-complement) reading of a 32-bit word.
pub open spec fn spec_signed(x: u32) -> int {
    if x >= 0x8000_0000 {
        x - 0x1_0000_0000
    } else {
        x as int
    }
}

/// Rotation of a 32-bit value right by `r` places (`r` taken mod 32).
pub open spec fn spec_ror(x: u32, r: u32) -> u32 {
    if r % 32 == 0 {
        x
    } else {
        (x >> (r % 32)) | (x << (32 - r % 32))
    }
}

/// Arithmetic shift right by an amount between 1 and 31: the vacated
/// high bits are filled with the sign bit.
pub open spec fn spec_asr(x: u32, amount: u32) -> u32
    recommends
        0 < amount < 32,
{
    (x >> amount) | (if spec_neg(x) {
        0xFFFF_FFFFu32 << (32 - amount)
    } else {
        0
    })
}

/// The word with every bit equal to the argument's sign bit.
pub open spec fn spec_sign_fill(x: u32) -> u32 {
    if spec_neg(x) {
        0xFFFF_FFFFu32
    } else {
        0
    }
}

/// The shifted value for an immediate shift amount below 32, honoring the
/// ARM special cases for a zero amount: `LSL #0` passes the value through,
/// `LSR #0` and `ASR #0` mean a shift by 32, and `ROR #0` is a rotate
/// right with extend through the carry flag.
pub open spec fn spec_shift_imm(value: u32, kind: BarrelShiftOpCode, amount: u32, carry: bool) -> u32
    recommends
        amount < 32,
{
    match kind {
        BarrelShiftOpCode::LSL => value << amount,
        BarrelShiftOpCode::LSR => if amount == 0 {
            0
        } else {
            value >> amount
        },
        BarrelShiftOpCode::ASR => if amount == 0 {
            spec_sign_fill(value)
        } else {
            spec_asr(value, amount)
        },
        BarrelShiftOpCode::ROR => if amount == 0 {
            (value >> 1) | (if carry {
                0x8000_0000u32
            } else {
                0
            })
        } else {
            spec_ror(value, amount)
        },
    }
}

/// The shifted value for a register-sourced shift amount (0 to 255): a
/// zero amount passes the value through unchanged, amounts of 32 and more
/// saturate as the architecture defines.
pub open spec fn spec_shift_reg(value: u32, kind: BarrelShiftOpCode, amount: u32) -> u32 {
    if amount == 0 {
        value
    } else {
        match kind {
            BarrelShiftOpCode::LSL => if amount >= 32 {
                0
            } else {
                value << amount
            },
            BarrelShiftOpCode::LSR => if amount >= 32 {
                0
            } else {
                value >> amount
            },
            BarrelShiftOpCode::ASR => if amount >= 32 {
                spec_sign_fill(value)
            } else {
                spec_asr(value, amount)
            },
            BarrelShiftOpCode::ROR => spec_ror(value, amount),
        }
    }
}

/// Rotate a 32-bit value right, any amount (taken mod 32).
pub fn ror(x: u32, r: u32) -> (res: u32)
    ensures
        res == spec_ror(x, r),
{
    let s = r % 32;
    if s == 0 {
        x
    } else {
        (x >> s) | (x << (32 - s))
    }
}

/// Arithmetic shift right by an amount between 1 and 31.
pub fn asr(x: u32, amount: u32) -> (res: u32)
    requires
        0 < amount < 32,
    ensures
        res == spec_asr(x, amount),
{
    (x >> amount) | (if x >= 0x8000_0000 {
        0xFFFF_FFFFu32 << (32 - amount)
    } else {
        0
    })
}

/// The barrel shifter for an immediate shift amount, with the zero-amount
/// special cases.
pub fn shift_imm(value: u32, kind: BarrelShiftOpCode, amount: u32, carry: bool) -> (res: u32)
    requires
        amount < 32,
    ensures
        res == spec_shift_imm(value, kind, amount, carry),
{
    match kind {
        BarrelShiftOpCode::LSL => value << amount,
        BarrelShiftOpCode::LSR => if amount == 0 {
            0
        } else {
            value >> amount
        },
        BarrelShiftOpCode::ASR => if amount == 0 {
            if value >= 0x8000_0000 {
                0xFFFF_FFFF
            } else {
                0
            }
        } else {
            asr(value, amount)
        },
        BarrelShiftOpCode::ROR => if amount == 0 {
            (value >> 1) | (if carry {
                0x8000_0000
            } else {
                0
            })
        } else {
            ror(value, amount)
        },
    }
}

/// The barrel shifter for a register-sourced shift amount.
pub fn shift_reg_amount(value: u32, kind: BarrelShiftOpCode, amount: u32) -> (res: u32)
    ensures
        res == spec_shift_reg(value, kind, amount),
{
    if amount == 0 {
        value
    } else {
        match kind {
            BarrelShiftOpCode::LSL => if amount >= 32 {
                0
            } else {
                value << amount
            },
            BarrelShiftOpCode::LSR => if amount >= 32 {
                0
            } else {
                value >> amount
            },
            BarrelShiftOpCode::ASR => if amount >= 32 {
                if value >= 0x8000_0000 {
                    0xFFFF_FFFF
                } else {
                    0
                }
            } else {
                asr(value, amount)
            },
            BarrelShiftOpCode::ROR => ror(value, amount),
        }
    }
}

/// The sixteen data-processing opcodes.
#[allow(non_camel_case_types)]
#[derive(Clone, Copy, Debug, PartialEq, Eq, Structural)]
pub enum AluOpCode {
    AND,
    EOR,
    SUB,
    RSB,
    ADD,
    ADC,
    SBC,
    RSC,
    TST,
    TEQ,
    CMP,
    CMN,
    ORR,
    MOV,
    BIC,
    MVN,
}

impl AluOpCode {
    /// Whether the opcode is a comparison form that exists only to set
    /// flags (and therefore always sets them and writes no register).
    pub open spec fn spec_is_setting_flags(self) -> bool {
        self == AluOpCode::TST || self == AluOpCode::TEQ || self == AluOpCode::CMP || self
            == AluOpCode::CMN
    }

    /// Exec twin of `spec_is_setting_flags`.
    pub fn is_setting_flags(self) -> (r: bool)
        ensures
            r == self.spec_is_setting_flags(),
    {
        match self {
            AluOpCode::TST | AluOpCode::TEQ | AluOpCode::CMP | AluOpCode::CMN => true,
            _ => false,
        }
    }

    /// Whether the opcode produces a writable result (the comparison
    /// forms do not).
    pub open spec fn spec_writes_result(self) -> bool {
        !self.spec_is_setting_flags()
    }

    /// Whether the opcode belongs to the arithmetic family, whose flag
    /// updates include carry and overflow.
    pub open spec fn spec_is_arithmetic(self) -> bool {
        match self {
            AluOpCode::SUB | AluOpCode::RSB | AluOpCode::ADD | AluOpCode::ADC | AluOpCode::SBC
                | AluOpCode::RSC | AluOpCode::CMP | AluOpCode::CMN => true,
            _ => false,
        }
    }
}

/// The value the ALU computes for an opcode, including the comparison
/// forms (whose value feeds the flags only).  `carry` is the carry flag
/// going in, consumed by the extended arithmetic opcodes.
pub open spec fn spec_alu_value(op: AluOpCode, a: u32, b: u32, carry: bool) -> u32 {
    let c: int = if carry {
        1
    } else {
        0
    };
    match op {
        AluOpCode::AND => a & b,
        AluOpCode::EOR => a ^ b,
        AluOpCode::SUB => w32(a - b),
        AluOpCode::RSB => w32(b - a),
        AluOpCode::ADD => w32(a + b),
        AluOpCode::ADC => w32(a + b + c),
        AluOpCode::SBC => w32(a - b + c - 1),
        AluOpCode::RSC => w32(b - a + c - 1),
        AluOpCode::TST => a & b,
        AluOpCode::TEQ => a ^ b,
        AluOpCode::CMP => w32(a - b),
        AluOpCode::CMN => w32(a + b),
        AluOpCode::ORR => a | b,
        AluOpCode::MOV => b,
        AluOpCode::BIC => a & !b,
        AluOpCode::MVN => !b,
    }
}

/// The carry flag an arithmetic opcode produces: the unsigned carry out
/// of an addition, or the absence of a borrow from a subtraction.  The
/// logical opcodes leave the carry flag alone.
pub open spec fn spec_alu_carry(op: AluOpCode, a: u32, b: u32, carry: bool) -> bool {
    let c: int = if carry {
        1
    } else {
        0
    };
    match op {
        AluOpCode::ADD | AluOpCode::CMN => a + b > 0xFFFF_FFFF,
        AluOpCode::ADC => a + b + c > 0xFFFF_FFFF,
        AluOpCode::SUB | AluOpCode::CMP => a >= b,
        AluOpCode::SBC => a + c >= b + 1,
        AluOpCode::RSB => b >= a,
        AluOpCode::RSC => b + c >= a + 1,
        _ => carry,
    }
}

/// The overflow flag an arithmetic opcode produces: whether the exact
/// signed result falls outside the 32-bit signed range.  The logical
/// opcodes leave the overflow flag alone.
pub open spec fn spec_alu_overflow(op: AluOpCode, a: u32, b: u32, carry: bool) -> bool {
    let c: int = if carry {
        1
    } else {
        0
    };
    let s: int = match op {
        AluOpCode::ADD | AluOpCode::CMN => spec_signed(a) + spec_signed(b),
        AluOpCode::ADC => spec_signed(a) + spec_signed(b) + c,
        AluOpCode::SUB | AluOpCode::CMP => spec_signed(a) - spec_signed(b),
        AluOpCode::SBC => spec_signed(a) - spec_signed(b) + c - 1,
        AluOpCode::RSB => spec_signed(b) - spec_signed(a),
        AluOpCode::RSC => spec_signed(b) - spec_signed(a) + c - 1,
        _ => 0,
    };
    s > 0x7FFF_FFFF || s < -0x8000_0000
}

/// The status register after a flag-setting ALU operation: negative and
/// zero always follow the result; carry and overflow are updated by the
/// arithmetic family and left unchanged by the logical one.
pub open spec fn spec_alu_flags(op: AluOpCode, a: u32, b: u32, psr: RegPSR) -> RegPSR {
    let result = spec_alu_value(op, a, b, psr.c);
    if op.spec_is_arithmetic() {
        RegPSR {
            n: spec_neg(result),
            z: result == 0,
            c: spec_alu_carry(op, a, b, psr.c),
            v: spec_alu_overflow(op, a, b, psr.c),
            ..psr
        }
    } else {
        RegPSR { n: spec_neg(result), z: result == 0, ..psr }
    }
}

/// The value a shifted-register operand contributes: the named register,
/// passed through the barrel shifter with either the immediate amount
/// (zero-amount special cases apply) or the bottom byte of the amount
/// register.
pub open spec fn spec_register_shift_val(c: Core, shift: RegisterShift) -> u32 {
    let value = spec_get_reg(c, shift.reg as int);
    match shift.by {
        ShiftRegisterBy::ByAmount(a) => spec_shift_imm(value, shift.kind, a, c.cpsr.c),
        ShiftRegisterBy::ByRegister(rs) => spec_shift_reg(
            value,
            shift.kind,
            spec_get_reg(c, rs as int) & 0xFF,
        ),
    }
}

/// Whether a shifted-register operand is legal: the shift amount may not
/// be sourced from the program counter.
pub open spec fn spec_register_shift_ok(shift: RegisterShift) -> bool {
    shift.by matches ShiftRegisterBy::ByRegister(rs) ==> rs != 15
}

impl Core {
    /// Pass a register operand through the barrel shifter.  Fails with
    /// the illegal-instruction error exactly when the shift amount is
    /// sourced from the program counter.
    pub fn register_shift(&self, shift: RegisterShift) -> (r: CpuResult<u32>)
        requires
            shift.reg < 16,
            shift.by matches ShiftRegisterBy::ByAmount(a) ==> a < 32,
            shift.by matches ShiftRegisterBy::ByRegister(rs) ==> rs < 16,
        ensures
            spec_register_shift_ok(shift) ==> r == Ok::<u32, CpuError>(
                spec_register_shift_val(*self, shift),
            ),
            !spec_register_shift_ok(shift) ==> r == Err::<u32, CpuError>(
                CpuError::IllegalInstruction,
            ),
    {
        let value = self.get_reg(shift.reg);
        match shift.by {
            ShiftRegisterBy::ByAmount(a) => Ok(shift_imm(value, shift.kind, a, self.cpsr.c)),
            ShiftRegisterBy::ByRegister(rs) => {
                if rs == crate::REG_PC {
                    Err(CpuError::IllegalInstruction)
                } else {
                    let amount = self.get_reg(rs) & 0xFF;
                    Ok(shift_reg_amount(value, shift.kind, amount))
                }
            },
        }
    }

    /// The ALU: computes the opcode's value and, when asked, installs
    /// the resulting flags.  Returns `None` for the comparison forms,
    /// which write no register.
    #[verifier::rlimit(100)]
    pub fn alu(&mut self, opcode: AluOpCode, op1: u32, op2: u32, set_flags: bool) -> (r: Option<
        u32,
    >)
        ensures
            r == (if opcode.spec_writes_result() {
                Some(spec_alu_value(opcode, op1, op2, old(self).cpsr.c))
            } else {
                None::<u32>
            }),
            final(self).cpsr == (if set_flags {
                spec_alu_flags(opcode, op1, op2, old(self).cpsr)
            } else {
                old(self).cpsr
            }),
            final(self).gpr@ == old(self).gpr@,
            final(self).pc == old(self).pc,
            final(self).spsr@ == old(self).spsr@,
            final(self).banked_r13@ == old(self).banked_r13@,
            final(self).banked_r14@ == old(self).banked_r14@,
            final(self).cycles == old(self).cycles,
    {
        let carry_in = self.cpsr.c;
        let cbit: u32 = if carry_in {
            1
        } else {
            0
        };
        proof {
            let ci: int = if carry_in { 1int } else { 0int };
            crate::lemma_w32_wrap(op1 + op2);
            crate::lemma_w32_wrap(op1 - op2);
            crate::lemma_w32_wrap(op2 - op1);
            crate::lemma_w32_wrap(w32(op1 + op2) + ci);
            crate::lemma_w32_step(op1 + op2, ci);
            crate::lemma_w32_wrap(w32(op1 - op2) + ci);
            crate::lemma_w32_step(op1 - op2, ci);
            crate::lemma_w32_wrap(w32(op1 - op2 + ci) - 1);
            crate::lemma_w32_step(op1 - op2 + ci, -1);
            crate::lemma_w32_wrap(w32(op2 - op1) + ci);
            crate::lemma_w32_step(op2 - op1, ci);
            crate::lemma_w32_wrap(w32(op2 - op1 + ci) - 1);
            crate::lemma_w32_step(op2 - op1 + ci, -1);
        }
        let value: u32 = match opcode {
            AluOpCode::AND | AluOpCode::TST => op1 & op2,
            AluOpCode::EOR | AluOpCode::TEQ => op1 ^ op2,
            AluOpCode::SUB | AluOpCode::CMP => op1.wrapping_sub(op2),
            AluOpCode::RSB => op2.wrapping_sub(op1),
            AluOpCode::ADD | AluOpCode::CMN => op1.wrapping_add(op2),
            AluOpCode::ADC => op1.wrapping_add(op2).wrapping_add(cbit),
            AluOpCode::SBC => op1.wrapping_sub(op2).wrapping_add(cbit).wrapping_sub(1),
            AluOpCode::RSC => op2.wrapping_sub(op1).wrapping_add(cbit).wrapping_sub(1),
            AluOpCode::ORR => op1 | op2,
            AluOpCode::MOV => op2,
            AluOpCode::BIC => op1 & !op2,
            AluOpCode::MVN => !op2,
        };
        if set_flags {
            let n = value >= 0x8000_0000;
            let z = value == 0;
            let arithmetic = match opcode {
                AluOpCode::SUB | AluOpCode::RSB | AluOpCode::ADD | AluOpCode::ADC | AluOpCode::SBC
                    | AluOpCode::RSC | AluOpCode::CMP | AluOpCode::CMN => true,
                _ => false,
            };
            if arithmetic {
                let a_s: i64 = if op1 >= 0x8000_0000 {
                    op1 as i64 - 0x1_0000_0000i64
                } else {
                    op1 as i64
                };
                let b_s: i64 = if op2 >= 0x8000_0000 {
                    op2 as i64 - 0x1_0000_0000i64
                } else {
                    op2 as i64
                };
                let c64: i64 = cbit as i64;
                let (carry, signed_sum): (bool, i64) = match opcode {
                    AluOpCode::ADD | AluOpCode::CMN => (
                        op1 as u64 + op2 as u64 > 0xFFFF_FFFF,
                        a_s + b_s,
                    ),
                    AluOpCode::ADC => (
                        op1 as u64 + op2 as u64 + cbit as u64 > 0xFFFF_FFFF,
                        a_s + b_s + c64,
                    ),
                    AluOpCode::SUB | AluOpCode::CMP => (op1 >= op2, a_s - b_s),
                    AluOpCode::SBC => (
                        op1 as u64 + cbit as u64 >= op2 as u64 + 1,
                        a_s - b_s + c64 - 1,
                    ),
                    AluOpCode::RSB => (op2 >= op1, b_s - a_s),
                    _ => (op2 as u64 + cbit as u64 >= op1 as u64 + 1, b_s - a_s + c64 - 1),
                };
                let v = signed_sum > 0x7FFF_FFFFi64 || signed_sum < -0x8000_0000i64;
                self.cpsr = RegPSR { n, z, c: carry, v, ..self.cpsr };
            } else {
                self.cpsr = RegPSR { n, z, ..self.cpsr };
            }
        }
        match opcode {
            AluOpCode::TST | AluOpCode::TEQ | AluOpCode::CMP | AluOpCode::CMN => None,
            _ => Some(value),
        }
    }
}

} // verus!
