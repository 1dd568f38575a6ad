//! The general purpose timer unit, set up as a periodic tick.

use crate::interrupt::{CLRR, SRE, SRPN, TOS};
use crate::reg::{
    field, lemma_bracketed, lemma_paired_concat, lemma_windowless, put_field, windowless,
    windows_paired, RegOp,
};
use vstd::prelude::*;

verus! {

/// Reload value of the timers: the ticks of one millisecond.
pub const TIMER_VALUE: u16 = 97;

/// Clock control register.
pub const CLC: u32 = 0xF000_1800;

/// Module disable request bit.
pub const CLC_DISR: u32 = 0x0000_0001;

/// Control register of timer 2.
pub const T2CON: u32 = 0xF000_1810;

/// Control register of timer 3.
pub const T3CON: u32 = 0xF000_1814;

/// Timer 2.
pub const T2: u32 = 0xF000_1834;

/// Timer 3.
pub const T3: u32 = 0xF000_1838;

/// Input selection of a timer.
pub const TCON_I: u32 = 0x0000_0007;

/// Mode of a timer.
pub const TCON_M: u32 = 0x0000_0038;

pub const TCON_M_SHIFT: u32 = 3;

/// Run bit of timer 3.
pub const T3CON_R: u32 = 0x0000_0040;

/// Count direction of timer 3: down.
pub const T3CON_UD: u32 = 0x0000_0080;

/// Prescaler of the timer block.
pub const T3CON_BPS1: u32 = 0x0000_1800;

pub const T3CON_BPS1_SHIFT: u32 = 11;

/// Value of a timer.
pub const T_VALUE: u32 = 0x0000_FFFF;

/// Service request node of timer 3.
pub const SRC_T3: u32 = 0xF003_8308;

/// Reload mode of timer 2.
pub const T2_RELOAD: u32 = 4;

/// Reload of timer 2 on both edges of the output toggle latch of timer 3.
pub const T2_BOTH_EDGES: u32 = 7;

/// Prescaler of timer 3: 64.
pub const T3_PRESCALER: u32 = 6;

/// Prescaler of the timer block: 16.
pub const BLOCK_PRESCALER: u32 = 3;

/// Transactions that enable the unit, inside a privileged-write window, and
/// set the prescaler of the block.
pub open spec fn gpt12_init_ops() -> Seq<RegOp> {
    seq![
        RegOp::ClearEndinit,
        RegOp::Modify { addr: CLC, value: 0, mask: CLC_DISR },
        RegOp::SetEndinit,
        RegOp::Modify {
            addr: T3CON,
            value: field(BLOCK_PRESCALER, T3CON_BPS1_SHIFT, T3CON_BPS1),
            mask: T3CON_BPS1,
        },
    ]
}

/// Transactions that make timer 3 a timer that counts down, prescaled, from
/// [`TIMER_VALUE`].
pub open spec fn timer_t3_init_ops() -> Seq<RegOp> {
    seq![
        RegOp::Modify {
            addr: T3CON,
            value: field(0, TCON_M_SHIFT, TCON_M) | T3CON_UD | field(T3_PRESCALER, 0, TCON_I),
            mask: TCON_M | T3CON_UD | TCON_I,
        },
        RegOp::Modify { addr: T3, value: field(TIMER_VALUE as u32, 0, T_VALUE), mask: T_VALUE },
    ]
}

/// Transactions that make timer 2 the reload register of timer 3.
pub open spec fn timer_t2_init_ops() -> Seq<RegOp> {
    seq![
        RegOp::Modify {
            addr: T2CON,
            value: field(T2_RELOAD, TCON_M_SHIFT, TCON_M) | field(T2_BOTH_EDGES, 0, TCON_I),
            mask: TCON_M | TCON_I,
        },
        RegOp::Modify { addr: T2, value: field(TIMER_VALUE as u32, 0, T_VALUE), mask: T_VALUE },
    ]
}

/// The transaction that starts timer 3.
pub open spec fn timer_start_ops() -> Seq<RegOp> {
    seq![RegOp::Modify { addr: T3CON, value: T3CON_R, mask: T3CON_R }]
}

/// The transaction that routes the interrupt of timer 3 to the primary
/// core with priority `prio`, clears a pending request and enables the
/// service.
pub open spec fn interrupt_init_ops(prio: u8) -> Seq<RegOp> {
    seq![
        RegOp::Modify {
            addr: SRC_T3,
            value: field(prio as u32, 0, SRPN) | CLRR | SRE,
            mask: SRPN | TOS | CLRR | SRE,
        },
    ]
}

/// Transactions of [`init_gpt12_timer`].
pub open spec fn init_gpt12_timer_ops(prio: u8) -> Seq<RegOp> {
    gpt12_init_ops() + timer_t3_init_ops() + timer_t2_init_ops() + timer_start_ops()
        + interrupt_init_ops(prio)
}

/// Sets the unit up as a periodic tick that interrupts the primary core
/// with priority `prio`: the unit, timer 3, timer 2 as its reload, the
/// start, the interrupt.
pub fn init_gpt12_timer(prio: u8, ops: &mut Vec<RegOp>)
    ensures
        final(ops)@ == old(ops)@ + init_gpt12_timer_ops(prio),
{
    gpt12_init(ops);
    timer_t3_init(ops);
    timer_t2_init(ops);
    timer_start(ops);
    interrupt_init(prio, ops);
    assert(ops@ =~= old(ops)@ + init_gpt12_timer_ops(prio));
}

fn timer_start(ops: &mut Vec<RegOp>)
    ensures
        final(ops)@ == old(ops)@ + timer_start_ops(),
{
    ops.push(RegOp::Modify { addr: T3CON, value: T3CON_R, mask: T3CON_R });
    assert(ops@ =~= old(ops)@ + timer_start_ops());
}

fn interrupt_init(prio: u8, ops: &mut Vec<RegOp>)
    ensures
        final(ops)@ == old(ops)@ + interrupt_init_ops(prio),
{
    ops.push(
        RegOp::Modify {
            addr: SRC_T3,
            value: put_field(prio as u32, 0, SRPN) | CLRR | SRE,
            mask: SRPN | TOS | CLRR | SRE,
        },
    );
    assert(ops@ =~= old(ops)@ + interrupt_init_ops(prio));
}

fn timer_t2_init(ops: &mut Vec<RegOp>)
    ensures
        final(ops)@ == old(ops)@ + timer_t2_init_ops(),
{
    ops.push(
        RegOp::Modify {
            addr: T2CON,
            value: put_field(T2_RELOAD, TCON_M_SHIFT, TCON_M) | put_field(T2_BOTH_EDGES, 0, TCON_I),
            mask: TCON_M | TCON_I,
        },
    );
    ops.push(
        RegOp::Modify { addr: T2, value: put_field(TIMER_VALUE as u32, 0, T_VALUE), mask: T_VALUE },
    );
    assert(ops@ =~= old(ops)@ + timer_t2_init_ops());
}

fn timer_t3_init(ops: &mut Vec<RegOp>)
    ensures
        final(ops)@ == old(ops)@ + timer_t3_init_ops(),
{
    ops.push(
        RegOp::Modify {
            addr: T3CON,
            value: put_field(0, TCON_M_SHIFT, TCON_M) | T3CON_UD | put_field(
                T3_PRESCALER,
                0,
                TCON_I,
            ),
            mask: TCON_M | T3CON_UD | TCON_I,
        },
    );
    ops.push(
        RegOp::Modify { addr: T3, value: put_field(TIMER_VALUE as u32, 0, T_VALUE), mask: T_VALUE },
    );
    assert(ops@ =~= old(ops)@ + timer_t3_init_ops());
}

fn gpt12_init(ops: &mut Vec<RegOp>)
    ensures
        final(ops)@ == old(ops)@ + gpt12_init_ops(),
{
    ops.push(RegOp::ClearEndinit);
    ops.push(RegOp::Modify { addr: CLC, value: 0, mask: CLC_DISR });
    ops.push(RegOp::SetEndinit);
    ops.push(
        RegOp::Modify {
            addr: T3CON,
            value: put_field(BLOCK_PRESCALER, T3CON_BPS1_SHIFT, T3CON_BPS1),
            mask: T3CON_BPS1,
        },
    );
    assert(ops@ =~= old(ops)@ + gpt12_init_ops());
}

/// Setting the timer up closes the privileged-write window that it opens.
pub proof fn lemma_timer_init_paired(prio: u8)
    ensures
        windows_paired(init_gpt12_timer_ops(prio)),
{
    let unit = gpt12_init_ops();
    let inner = seq![unit[1]];
    let prescaler = seq![unit[3]];
    assert(windowless(inner));
    assert(windowless(prescaler));
    lemma_bracketed(inner);
    lemma_windowless(prescaler, false);
    let bracket = seq![RegOp::ClearEndinit] + inner + seq![RegOp::SetEndinit];
    lemma_paired_concat(bracket, prescaler);
    assert(unit =~= bracket + prescaler);
    let rest = timer_t3_init_ops() + timer_t2_init_ops() + timer_start_ops()
        + interrupt_init_ops(prio);
    assert(windowless(rest));
    lemma_windowless(rest, false);
    lemma_paired_concat(unit, rest);
    assert(init_gpt12_timer_ops(prio) =~= unit + rest);
}

} // verus!
