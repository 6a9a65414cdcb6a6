//! Instruction-execution core of an ARM7TDMI (ARMv4T) emulator.
//!
//! The crate interprets decoded ARM-mode instructions against a register
//! file, status registers and a byte-addressed memory bus, producing the
//! architectural side effects (register writes, memory accesses, mode
//! switches) and a pipeline-control signal for the fetch stage.  Every
//! handler carries a contract that pins down the resulting machine state
//! bit for bit.

use vstd::prelude::*;

pub mod alu;
pub mod arm;
pub mod bus;
pub mod cpu;
pub mod exec;
pub mod psr;

verus! {

/// A guest-visible memory address.
pub type Addr = u32;

/// The number of the register that mirrors the program counter.
pub const REG_PC: usize = 15;

/// Reduction of an unbounded integer to a 32-bit word (arithmetic mod 2^32).
pub open spec fn w32(x: int) -> u32 {
    (x % 0x1_0000_0000) as u32
}

/// Reduction of an unbounded integer to a 64-bit count (arithmetic mod 2^64).
pub open spec fn w64(x: int) -> u64 {
    (x % 0x1_0000_0000_0000_0000) as u64
}

/// A value already in 32-bit range is its own 32-bit reduction.
pub proof fn lemma_w32_small(x: int)
    requires
        0 <= x < 0x1_0000_0000,
    ensures
        w32(x) == x,
{
    vstd::arithmetic::div_mod::lemma_small_mod(x as nat, 0x1_0000_0000);
}

/// The 32-bit reduction of a value within one wrap of the 32-bit range,
/// stated without division: exactly what a wrapping add or subtract of
/// `u32` values computes.
pub proof fn lemma_w32_wrap(x: int)
    requires
        -0x1_0000_0000 <= x < 0x2_0000_0000,
    ensures
        0 <= x < 0x1_0000_0000 ==> w32(x) == x,
        x >= 0x1_0000_0000 ==> w32(x) == x - 0x1_0000_0000,
        x < 0 ==> w32(x) == x + 0x1_0000_0000,
{
    if 0 <= x < 0x1_0000_0000 {
        vstd::arithmetic::div_mod::lemma_small_mod(x as nat, 0x1_0000_0000);
    } else if x >= 0x1_0000_0000 {
        vstd::arithmetic::div_mod::lemma_mod_multiples_vanish(1, x - 0x1_0000_0000, 0x1_0000_0000);
        vstd::arithmetic::div_mod::lemma_small_mod((x - 0x1_0000_0000) as nat, 0x1_0000_0000);
    } else {
        vstd::arithmetic::div_mod::lemma_mod_multiples_vanish(1, x, 0x1_0000_0000);
        vstd::arithmetic::div_mod::lemma_small_mod((x + 0x1_0000_0000) as nat, 0x1_0000_0000);
    }
}

/// Adding to a wrapped 32-bit word adds to the unwrapped sum.
pub proof fn lemma_w32_step(x: int, d: int)
    ensures
        w32(w32(x) + d) == w32(x + d),
{
    let m: int = 0x1_0000_0000;
    vstd::arithmetic::div_mod::lemma_mod_bound(x, m);
    vstd::arithmetic::div_mod::lemma_add_mod_noop(x, d, m);
    vstd::arithmetic::div_mod::lemma_mod_twice(x, m);
    vstd::arithmetic::div_mod::lemma_add_mod_noop(x % m, d, m);
}



/// The 64-bit reduction of a value within one wrap of the 64-bit range.
pub proof fn lemma_w64_wrap(x: int)
    requires
        -0x1_0000_0000_0000_0000 <= x < 0x2_0000_0000_0000_0000,
    ensures
        0 <= x < 0x1_0000_0000_0000_0000 ==> w64(x) == x,
        x >= 0x1_0000_0000_0000_0000 ==> w64(x) == x - 0x1_0000_0000_0000_0000,
        x < 0 ==> w64(x) == x + 0x1_0000_0000_0000_0000,
{
    let m: int = 0x1_0000_0000_0000_0000;
    if 0 <= x < m {
        vstd::arithmetic::div_mod::lemma_small_mod(x as nat, m as nat);
    } else if x >= m {
        vstd::arithmetic::div_mod::lemma_mod_multiples_vanish(1, x - m, m);
        vstd::arithmetic::div_mod::lemma_small_mod((x - m) as nat, m as nat);
    } else {
        vstd::arithmetic::div_mod::lemma_mod_multiples_vanish(1, x, m);
        vstd::arithmetic::div_mod::lemma_small_mod((x + m) as nat, m as nat);
    }
}

/// Incrementing a wrapped 64-bit count increments the unwrapped sum.
pub proof fn lemma_w64_step(x: int, d: int)
    requires
        0 <= d,
    ensures
        w64(w64(x) + d) == w64(x + d),
{
    let m: int = 0x1_0000_0000_0000_0000;
    vstd::arithmetic::div_mod::lemma_mod_bound(x, m);
    vstd::arithmetic::div_mod::lemma_add_mod_noop(x, d, m);
    vstd::arithmetic::div_mod::lemma_mod_twice(x, m);
    vstd::arithmetic::div_mod::lemma_add_mod_noop(x % m, d, m);
}

} // verus!
