//! Layout of a port's register block, and the one transaction that changes
//! the mode of a pin.
//!
//! The configuration of the sixteen pins of a port lives in four 32-bit
//! registers. Each packs one configuration byte for four consecutive pins.

use crate::reg::{merge, word_at, RegOp};
use vstd::prelude::*;

verus! {

/// Address of the register block of port 0. The block of port `p` lies
/// `p` strides above it.
pub const PORT_BASE: u32 = 0xF003_A000;

/// Distance between the register blocks of two consecutive ports.
pub const PORT_STRIDE: u32 = 0x100;

/// Offset of the output register.
pub const OUT: u32 = 0x00;

/// Offset of the output modification register: bit `n` sets pin `n`, bit
/// `n + 16` clears it, both together toggle it.
pub const OMR: u32 = 0x04;

/// Offset of the first of the four input/output control registers.
pub const IOCR0: u32 = 0x10;

/// Offset of the input register.
pub const IN: u32 = 0x24;

/// Offset of the first of the two pad driver mode registers.
pub const PDR0: u32 = 0x40;

/// Offset of the pin function decision control register.
pub const PDISC: u32 = 0x60;

/// Number of pins of a port.
pub const PINS: u8 = 16;

/// The highest address a register block may start at, so that all of its
/// registers have addresses.
pub const MAX_BASE: u32 = 0xFFFF_FF00;

/// Bit position of the configuration byte of pin `n` within its control
/// register.
pub open spec fn lane_shift(n: u8) -> u32 {
    ((n % 4) * 8) as u32
}

/// Address of the control register that holds the configuration byte of
/// pin `n`.
pub open spec fn iocr_addr(base: u32, n: u8) -> u32 {
    (base + IOCR0 + 4 * (n / 4)) as u32
}

/// The masked atomic write that puts mode code `code` into the configuration
/// byte of pin `n` and into nothing else.
pub open spec fn mode_write(base: u32, n: u8, code: u32) -> RegOp {
    RegOp::ModifyAtomic {
        addr: iocr_addr(base, n),
        value: code << lane_shift(n),
        mask: 0xFFu32 << lane_shift(n),
    }
}

/// The mode code a register file holds for pin `n`.
pub open spec fn pin_code(regs: Map<u32, u32>, base: u32, n: u8) -> u32 {
    (word_at(regs, iocr_addr(base, n)) >> lane_shift(n)) & 0xFF
}

/// Computes [`lane_shift`].
pub fn lane_shift_of(n: u8) -> (shift: u32)
    ensures
        shift == lane_shift(n),
        shift == 0 || shift == 8 || shift == 16 || shift == 24,
{
    ((n % 4) * 8) as u32
}

/// Computes [`iocr_addr`].
pub fn iocr_addr_of(base: u32, n: u8) -> (addr: u32)
    requires
        n < PINS,
        base <= MAX_BASE,
    ensures
        addr == iocr_addr(base, n),
{
    base + IOCR0 + 4 * ((n / 4) as u32)
}

/// Computes [`mode_write`].
pub fn mode_write_op(base: u32, n: u8, code: u32) -> (op: RegOp)
    requires
        n < PINS,
        base <= MAX_BASE,
    ensures
        op == mode_write(base, n, code),
{
    let shift = lane_shift_of(n);
    RegOp::ModifyAtomic { addr: iocr_addr_of(base, n), value: code << shift, mask: 0xFFu32 << shift }
}

/// A masked write into one byte lane of a word puts the low byte of the
/// value there and leaves the three other lanes as they were.
pub proof fn lemma_lane_write(old: u32, code: u32, s: u32, t: u32)
    requires
        s == 0 || s == 8 || s == 16 || s == 24,
        t == 0 || t == 8 || t == 16 || t == 24,
    ensures
        (merge(old, code << s, 0xFFu32 << s) >> s) & 0xFF == code & 0xFF,
        s != t ==> (merge(old, code << s, 0xFFu32 << s) >> t) & 0xFF == (old >> t) & 0xFF,
{
    assert(((((old & !(0xFFu32 << s)) | ((code << s) & (0xFFu32 << s))) >> s) & 0xFF) == code
        & 0xFF) by (bit_vector)
        requires
            s == 0 || s == 8 || s == 16 || s == 24,
    ;
    assert(s != t ==> ((((old & !(0xFFu32 << s)) | ((code << s) & (0xFFu32 << s))) >> t) & 0xFF)
        == (old >> t) & 0xFF) by (bit_vector)
        requires
            s == 0 || s == 8 || s == 16 || s == 24,
            t == 0 || t == 8 || t == 16 || t == 24,
    ;
}

/// A word whose byte lane already holds a code is not changed by writing
/// that code into the lane again.
pub proof fn lemma_lane_unchanged(old: u32, code: u32, s: u32)
    requires
        s == 0 || s == 8 || s == 16 || s == 24,
        (old >> s) & 0xFF == code,
    ensures
        merge(old, code << s, 0xFFu32 << s) == old,
{
    assert(((old & !(0xFFu32 << s)) | ((code << s) & (0xFFu32 << s))) == old) by (bit_vector)
        requires
            s == 0 || s == 8 || s == 16 || s == 24,
            (old >> s) & 0xFF == code,
    ;
}

/// Two writes into the same byte lane: the second one decides.
pub proof fn lemma_lane_overwrite(old: u32, first: u32, second: u32, s: u32)
    requires
        s == 0 || s == 8 || s == 16 || s == 24,
    ensures
        merge(merge(old, first << s, 0xFFu32 << s), second << s, 0xFFu32 << s) == merge(
            old,
            second << s,
            0xFFu32 << s,
        ),
{
    assert((((((old & !(0xFFu32 << s)) | ((first << s) & (0xFFu32 << s))) & !(0xFFu32 << s)) | ((
    second << s) & (0xFFu32 << s)))) == ((old & !(0xFFu32 << s)) | ((second << s) & (0xFFu32
        << s)))) by (bit_vector)
        requires
            s == 0 || s == 8 || s == 16 || s == 24,
    ;
}

/// Masked-write isolation: writing the mode of pin `n` gives that pin the
/// new code, leaves the configuration bytes of all other pins of the port
/// bit for bit as they were, and leaves every other register alone.
pub proof fn lemma_mode_write_isolated(regs: Map<u32, u32>, base: u32, n: u8, code: u32)
    requires
        n < PINS,
        base <= MAX_BASE,
    ensures
        pin_code(mode_write(base, n, code).apply(regs), base, n) == code & 0xFF,
        forall|other: u8|
            other < PINS && other != n ==> #[trigger] pin_code(
                mode_write(base, n, code).apply(regs),
                base,
                other,
            ) == pin_code(regs, base, other),
        forall|addr: u32|
            addr != iocr_addr(base, n) ==> #[trigger] word_at(
                mode_write(base, n, code).apply(regs),
                addr,
            ) == word_at(regs, addr),
{
    let after = mode_write(base, n, code).apply(regs);
    let old = word_at(regs, iocr_addr(base, n));
    lemma_lane_write(old, code, lane_shift(n), lane_shift(n));
    assert forall|other: u8| other < PINS && other != n implies #[trigger] pin_code(
        after,
        base,
        other,
    ) == pin_code(regs, base, other) by {
        if iocr_addr(base, other) == iocr_addr(base, n) {
            assert(other / 4 == n / 4);
            assert(lane_shift(other) != lane_shift(n));
            lemma_lane_write(old, code, lane_shift(n), lane_shift(other));
        }
    }
}

} // verus!
