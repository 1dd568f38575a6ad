//! What holds of the order in which a serial node is programmed.

use super::asclin::{
    BITCON, BRG, CSR, CSR_CLKSEL, FLAG_PE, FLAG_RFL, FLAG_TFL, SRC_ERR, SRC_RX, SRC_TX,
};
use super::node::{construction_ops, pending_ops, Stage};
use super::ports::{lemma_port_mapping_paired, port_mapping_ops, rx_mapping_ops, tx_mapping_ops};
use crate::interrupt::SRE;
use super::uart_node::{ClockSource, InterruptConfig, NodeConfig, PinsConfig, Tos};
use super::{
    bit_timing_ops, channel_ops, clock_select_ops, clock_source_of, default_flags_ops,
    enable_transfers_ops, fifo_ops, frame_ops, init_frame_mode_ops, interrupt_ops, loop_back_ops,
    module_enable_ops, prescaler_ops, route_op, sampling_ops, start_flag_ops, uart_closing_ops,
    uart_opening_ops,
};
use crate::reg::{
    avoids, field, lemma_avoids_concat, lemma_bracketed, lemma_paired_concat, lemma_touching_avoided,
    lemma_touching_concat, lemma_touching_then_avoided, lemma_windowless, touching, windowless,
    windows_paired, RegOp,
};
use vstd::prelude::*;

verus! {

/// Whether a transaction writes the clock selector, and if it does, whether
/// it selects a clock (`true`) or none (`false`).
pub open spec fn clock_write(op: RegOp) -> Option<bool> {
    if op.writes_to(CSR) {
        Some(op.result_word(0) & CSR_CLKSEL != 0)
    } else {
        None
    }
}

/// Whether a transaction writes a bit timing register: the bit
/// configuration or the baud rate generation.
pub open spec fn timing_write(op: RegOp) -> bool {
    op.writes_to(BITCON) || op.writes_to(BRG)
}

/// Whether a clock is selected once the transactions are performed, where
/// `before` says whether one was selected at their start: what the last
/// write of the clock selector chose.
pub open spec fn clock_live(ops: Seq<RegOp>, before: bool) -> bool
    decreases ops.len(),
{
    if ops.len() == 0 {
        before
    } else {
        match clock_write(ops.last()) {
            Some(live) => live,
            None => clock_live(ops.drop_last(), before),
        }
    }
}

/// No bit timing register is written while a clock is selected: no such
/// write stands between a write that selects a clock and the next write
/// that selects none.
pub open spec fn clock_safe(ops: Seq<RegOp>, before: bool) -> bool {
    forall|i: int|
        0 <= i < ops.len() && timing_write(#[trigger] ops[i]) ==> !clock_live(ops.take(i), before)
}

/// The transactions write neither the clock selector nor a bit timing
/// register.
pub open spec fn clock_neutral(ops: Seq<RegOp>) -> bool {
    forall|i: int|
        0 <= i < ops.len() ==> clock_write(#[trigger] ops[i]) is None && !timing_write(ops[i])
}

/// The selection after `a + b` is the selection after `b`, started from the
/// selection after `a`.
pub proof fn lemma_clock_live_concat(a: Seq<RegOp>, b: Seq<RegOp>, before: bool)
    ensures
        clock_live(a + b, before) == clock_live(b, clock_live(a, before)),
    decreases b.len(),
{
    if b.len() == 0 {
        assert(a + b =~= a);
    } else {
        assert((a + b).drop_last() =~= a + b.drop_last());
        assert((a + b).last() == b.last());
        lemma_clock_live_concat(a, b.drop_last(), before);
    }
}

/// Two sequences that are safe one after the other are safe together.
pub proof fn lemma_clock_safe_concat(a: Seq<RegOp>, b: Seq<RegOp>, before: bool)
    requires
        clock_safe(a, before),
        clock_safe(b, clock_live(a, before)),
    ensures
        clock_safe(a + b, before),
{
    let ab = a + b;
    assert forall|i: int| 0 <= i < ab.len() && timing_write(#[trigger] ab[i]) implies !clock_live(
        ab.take(i),
        before,
    ) by {
        if i < a.len() {
            assert(ab.take(i) =~= a.take(i));
            assert(ab[i] == a[i]);
        } else {
            let j = i - a.len();
            assert(ab[i] == b[j]);
            assert(ab.take(i) =~= a + b.take(j));
            lemma_clock_live_concat(a, b.take(j), before);
        }
    }
}

/// Neutral transactions keep the selection and are safe whatever it is.
pub proof fn lemma_neutral(ops: Seq<RegOp>, before: bool)
    requires
        clock_neutral(ops),
    ensures
        clock_live(ops, before) == before,
        clock_safe(ops, before),
    decreases ops.len(),
{
    if ops.len() > 0 {
        assert(clock_neutral(ops.drop_last()));
        lemma_neutral(ops.drop_last(), before);
        assert(clock_write(ops[ops.len() - 1]) is None);
    }
}

/// Neutral after neutral is neutral.
pub proof fn lemma_neutral_concat(a: Seq<RegOp>, b: Seq<RegOp>)
    requires
        clock_neutral(a),
        clock_neutral(b),
    ensures
        clock_neutral(a + b),
{
}

/// Switching the clock source writes no bit timing register and leaves a
/// clock selected exactly if the source is one.
pub proof fn lemma_clock_select(source: ClockSource, before: bool)
    ensures
        clock_live(clock_select_ops(source), before) == (source != ClockSource::NoClock),
        clock_safe(clock_select_ops(source), before),
{
    let ops = clock_select_ops(source);
    let code = source.bits() as u32;
    assert((((0u32 & !0x1Fu32) | (((code << 0u32) & 0x1Fu32) & 0x1Fu32)) & 0x1Fu32 != 0) == (code
        != 0)) by (bit_vector)
        requires
            code == 0 || code == 2 || code == 4,
    ;
    assert(ops.drop_last() =~= seq![ops[0]]);
    assert(seq![ops[0]].drop_last() =~= Seq::<RegOp>::empty());
    assert(clock_write(ops[1]) is None);
    assert(clock_write(ops[0]) == Some(source != ClockSource::NoClock));
    assert(clock_live(seq![ops[0]], before) == (source != ClockSource::NoClock));
}

/// One more step of a safe sequence: what holds of `a` and of `b` started
/// where `a` ends holds of `a + b`.
pub proof fn lemma_then(a: Seq<RegOp>, b: Seq<RegOp>, before: bool)
    requires
        clock_safe(a, before),
        clock_safe(b, clock_live(a, before)),
    ensures
        clock_safe(a + b, before),
        clock_live(a + b, before) == clock_live(b, clock_live(a, before)),
{
    lemma_clock_safe_concat(a, b, before);
    lemma_clock_live_concat(a, b, before);
}

/// One more neutral step of a safe sequence.
pub proof fn lemma_then_neutral(a: Seq<RegOp>, b: Seq<RegOp>, before: bool)
    requires
        clock_safe(a, before),
        clock_neutral(b),
    ensures
        clock_safe(a + b, before),
        clock_live(a + b, before) == clock_live(a, before),
{
    lemma_neutral(b, clock_live(a, before));
    lemma_then(a, b, before);
}

/// One more switch of the clock source after a safe sequence.
pub proof fn lemma_then_select(a: Seq<RegOp>, source: ClockSource, before: bool)
    requires
        clock_safe(a, before),
    ensures
        clock_safe(a + clock_select_ops(source), before),
        clock_live(a + clock_select_ops(source), before) == (source != ClockSource::NoClock),
{
    lemma_clock_select(source, clock_live(a, before));
    lemma_then(a, clock_select_ops(source), before);
}

/// Two writes of bit timing registers are safe where no clock is selected,
/// and select none.
proof fn lemma_timing_pair(first: RegOp, second: RegOp)
    requires
        first.writes_to(BRG),
        second.writes_to(BITCON),
    ensures
        clock_safe(seq![first, second], false),
        !clock_live(seq![first, second], false),
{
    let pair = seq![first, second];
    reveal_with_fuel(clock_live, 3);
    assert(pair.drop_last() =~= seq![first]);
    assert(seq![first].drop_last() =~= Seq::<RegOp>::empty());
    assert(pair.take(0) =~= Seq::<RegOp>::empty());
    assert(pair.take(1) =~= seq![first]);
    assert(clock_write(first) is None);
    assert(clock_write(second) is None);
}

/// Programming the bit timing of a node is safe whatever was selected
/// before, and leaves selected what it found.
pub proof fn lemma_bit_timing_safe(config: NodeConfig, prior: ClockSource, before: bool)
    ensures
        clock_safe(bit_timing_ops(config.baud_rate, config.bit_timing, prior), before),
        clock_live(bit_timing_ops(config.baud_rate, config.bit_timing, prior), before) == (prior
            != ClockSource::NoClock),
        clock_safe(sampling_ops(config, prior), before),
        clock_live(sampling_ops(config, prior), before) == (prior != ClockSource::NoClock),
{
    let off = clock_select_ops(ClockSource::NoClock);
    lemma_clock_select(ClockSource::NoClock, before);
    let node_ops = bit_timing_ops(config.baud_rate, config.bit_timing, prior);
    let node_pair = seq![node_ops[2], node_ops[3]];
    lemma_timing_pair(node_ops[2], node_ops[3]);
    lemma_then(off, node_pair, before);
    lemma_then_select(off + node_pair, prior, before);
    assert(node_ops =~= (off + node_pair) + clock_select_ops(prior));
    let uart_ops = sampling_ops(config, prior);
    let uart_pair = seq![uart_ops[2], uart_ops[3]];
    lemma_timing_pair(uart_ops[2], uart_ops[3]);
    lemma_then(off, uart_pair, before);
    lemma_then_select(off + uart_pair, prior, before);
    assert(uart_ops =~= (off + uart_pair) + clock_select_ops(prior));
}

/// Routing pins touches port registers and the input selection only.
pub proof fn lemma_port_mapping_neutral(pins: PinsConfig)
    ensures
        clock_neutral(port_mapping_ops(pins)),
        avoids(port_mapping_ops(pins), SRC_TX),
        avoids(port_mapping_ops(pins), SRC_RX),
        avoids(port_mapping_ops(pins), SRC_ERR),
{
    let rx = rx_mapping_ops(pins);
    let tx = tx_mapping_ops(pins);
    assert(forall|i: int|
        0 <= i < rx.len() ==> (#[trigger] rx[i]).target() is None || (rx[i].target()->0 != CSR
            && rx[i].target()->0 != BITCON && rx[i].target()->0 != BRG && rx[i].target()->0
            != SRC_TX && rx[i].target()->0 != SRC_RX && rx[i].target()->0 != SRC_ERR));
    assert(forall|i: int|
        0 <= i < tx.len() ==> (#[trigger] tx[i]).target() is None || (tx[i].target()->0 != CSR
            && tx[i].target()->0 != BITCON && tx[i].target()->0 != BRG && tx[i].target()->0
            != SRC_TX && tx[i].target()->0 != SRC_RX && tx[i].target()->0 != SRC_ERR));
}

/// A single write of the bit configuration is safe where no clock is
/// selected, and selects none.
proof fn lemma_timing_single(op: RegOp)
    requires
        op.writes_to(BITCON),
    ensures
        clock_safe(seq![op], false),
        !clock_live(seq![op], false),
{
    reveal_with_fuel(clock_live, 2);
    assert(seq![op].drop_last() =~= Seq::<RegOp>::empty());
    assert(seq![op].take(0) =~= Seq::<RegOp>::empty());
    assert(clock_write(op) is None);
}

/// The transactions address none of the three service request nodes.
pub open spec fn off_service(ops: Seq<RegOp>) -> bool {
    avoids(ops, SRC_TX) && avoids(ops, SRC_RX) && avoids(ops, SRC_ERR)
}

/// Routing the interrupts writes neither the clock selector nor a bit
/// timing register.
pub proof fn lemma_interrupts_neutral(interrupt: InterruptConfig)
    ensures
        clock_neutral(interrupt_ops(interrupt)),
{
    let tos = interrupt.type_of_service;
    let rx = channel_ops(SRC_RX, FLAG_RFL, interrupt.rx_priority, tos);
    let tx = channel_ops(SRC_TX, FLAG_TFL, interrupt.tx_priority, tos);
    let er = channel_ops(SRC_ERR, FLAG_PE, interrupt.er_priority, tos);
    assert(clock_neutral(rx));
    assert(clock_neutral(tx));
    assert(clock_neutral(er));
    lemma_neutral_concat(rx, tx);
    lemma_neutral_concat(rx + tx, er);
}

/// Clock-safe ordering of the construction of a node: whatever the two
/// reads of the clock selection register observe, and whatever was selected
/// before, no bit timing register is written while a clock is selected.
pub proof fn lemma_construction_clock_safe(
    config: NodeConfig,
    first: u32,
    second: u32,
    before: bool,
)
    ensures
        clock_safe(construction_ops(config, first, second), before),
{
    let opening = pending_ops(Stage::Start, config);
    let disabling = pending_ops(Stage::Disabling(first), config);
    let timing = pending_ops(Stage::Timing(second), config);
    let read = seq![RegOp::Read { addr: CSR }];
    assert(clock_neutral(read));
    lemma_neutral(opening, before);
    // second batch
    let off = clock_select_ops(ClockSource::NoClock);
    lemma_clock_select(ClockSource::NoClock, before);
    assert(clock_neutral(init_frame_mode_ops()));
    lemma_then_neutral(off, init_frame_mode_ops(), before);
    lemma_then_neutral(off + init_frame_mode_ops(), read, before);
    lemma_then(opening, disabling, before);
    // third batch
    let prior = clock_source_of(second)->0;
    let x0 = bit_timing_ops(config.baud_rate, config.bit_timing, prior);
    let mid = clock_live(opening + disabling, before);
    lemma_bit_timing_safe(config, prior, mid);
    assert(clock_neutral(loop_back_ops(config.loop_back)));
    let x1 = x0 + loop_back_ops(config.loop_back);
    lemma_then_neutral(x0, loop_back_ops(config.loop_back), mid);
    assert(clock_neutral(frame_ops(config.frame)));
    let x2 = x1 + frame_ops(config.frame);
    lemma_then_neutral(x1, frame_ops(config.frame), mid);
    assert(clock_neutral(fifo_ops(config.fifo)));
    let x3 = x2 + fifo_ops(config.fifo);
    lemma_then_neutral(x2, fifo_ops(config.fifo), mid);
    let x4 = x3 + clock_select_ops(config.clock_source);
    lemma_then_select(x3, config.clock_source, mid);
    assert(clock_neutral(default_flags_ops()));
    let x5 = x4 + default_flags_ops();
    lemma_then_neutral(x4, default_flags_ops(), mid);
    lemma_interrupts_neutral(config.interrupt);
    let x6 = x5 + interrupt_ops(config.interrupt);
    lemma_then_neutral(x5, interrupt_ops(config.interrupt), mid);
    assert(clock_neutral(enable_transfers_ops()));
    let x7 = x6 + enable_transfers_ops();
    lemma_then_neutral(x6, enable_transfers_ops(), mid);
    assert(clock_neutral(start_flag_ops()));
    lemma_then_neutral(x7, start_flag_ops(), mid);
    assert(timing == x7 + start_flag_ops());
    lemma_then(opening + disabling, timing, before);
}

/// Clock-safe ordering of the initialization of the serial module:
/// whatever the read of the clock selection register observes, and whatever
/// was selected before, no bit timing register is written while a clock is
/// selected.
pub proof fn lemma_uart_init_clock_safe(config: NodeConfig, prior: ClockSource, before: bool)
    ensures
        clock_safe(uart_opening_ops(config) + uart_closing_ops(config, prior), before),
{
    let read = seq![RegOp::Read { addr: CSR }];
    assert(clock_neutral(read));
    // first half
    let a0 = module_enable_ops();
    assert(clock_neutral(a0));
    lemma_neutral(a0, before);
    let a1 = a0 + clock_select_ops(ClockSource::NoClock);
    lemma_then_select(a0, ClockSource::NoClock, before);
    assert(clock_neutral(init_frame_mode_ops()));
    let a2 = a1 + init_frame_mode_ops();
    lemma_then_neutral(a1, init_frame_mode_ops(), before);
    let presc = prescaler_ops(config.baud_rate);
    lemma_timing_single(presc[0]);
    assert(presc =~= seq![presc[0]]);
    let a3 = a2 + presc;
    lemma_then(a2, presc, before);
    let a4 = a3 + clock_select_ops(config.clock_source);
    lemma_then_select(a3, config.clock_source, before);
    let opening = a4 + read;
    lemma_then_neutral(a4, read, before);
    assert(uart_opening_ops(config) == opening);
    // second half
    let mid = clock_live(opening, before);
    let c0 = sampling_ops(config, prior);
    lemma_bit_timing_safe(config, prior, mid);
    let c1 = c0 + clock_select_ops(ClockSource::NoClock);
    lemma_then_select(c0, ClockSource::NoClock, mid);
    assert(clock_neutral(loop_back_ops(config.loop_back)));
    let c2 = c1 + loop_back_ops(config.loop_back);
    lemma_then_neutral(c1, loop_back_ops(config.loop_back), mid);
    assert(clock_neutral(frame_ops(config.frame)));
    let c3 = c2 + frame_ops(config.frame);
    lemma_then_neutral(c2, frame_ops(config.frame), mid);
    assert(clock_neutral(fifo_ops(config.fifo)));
    let c4 = c3 + fifo_ops(config.fifo);
    lemma_then_neutral(c3, fifo_ops(config.fifo), mid);
    lemma_port_mapping_neutral(config.pins);
    let c5 = c4 + port_mapping_ops(config.pins);
    lemma_then_neutral(c4, port_mapping_ops(config.pins), mid);
    let c6 = c5 + clock_select_ops(config.clock_source);
    lemma_then_select(c5, config.clock_source, mid);
    assert(clock_neutral(default_flags_ops()));
    let c7 = c6 + default_flags_ops();
    lemma_then_neutral(c6, default_flags_ops(), mid);
    lemma_interrupts_neutral(config.interrupt);
    let c8 = c7 + interrupt_ops(config.interrupt);
    lemma_then_neutral(c7, interrupt_ops(config.interrupt), mid);
    assert(clock_neutral(enable_transfers_ops()));
    let c9 = c8 + enable_transfers_ops();
    lemma_then_neutral(c8, enable_transfers_ops(), mid);
    assert(clock_neutral(start_flag_ops()));
    lemma_then_neutral(c9, start_flag_ops(), mid);
    assert(uart_closing_ops(config, prior) == c9 + start_flag_ops());
    lemma_then(opening, uart_closing_ops(config, prior), before);
}

/// What is written to the service request node of a channel: nothing where
/// the priority is zero; else the routing write, which carries priority,
/// service target and the clearing of a pending request, and after it the
/// service enable.
pub open spec fn service_writes(node: u32, priority: u8, tos: Tos) -> Seq<RegOp> {
    if priority > 0 {
        seq![
            route_op(node, priority, tos),
            RegOp::Modify { addr: node, value: SRE, mask: SRE },
        ]
    } else {
        Seq::empty()
    }
}

/// Of the transactions that route one channel, those that address a
/// service request node are the two writes to the channel's own node.
proof fn lemma_channel_touching(node: u32, flag_bit: u32, priority: u8, tos: Tos, addr: u32)
    requires
        addr == SRC_TX || addr == SRC_RX || addr == SRC_ERR,
        node == SRC_TX || node == SRC_RX || node == SRC_ERR,
    ensures
        touching(channel_ops(node, flag_bit, priority, tos), addr) == if addr == node {
            service_writes(node, priority, tos)
        } else {
            Seq::<RegOp>::empty()
        },
{
    let ops = channel_ops(node, flag_bit, priority, tos);
    if priority > 0 {
        reveal_with_fuel(touching, 4);
        let two = seq![ops[0], ops[1]];
        let one = seq![ops[0]];
        assert(ops.drop_last() =~= two);
        assert(two.drop_last() =~= one);
        assert(one.drop_last() =~= Seq::<RegOp>::empty());
        if addr == node {
            assert(touching(ops, addr) =~= service_writes(node, priority, tos));
        }
    }
}

/// Interrupt-routing gating. Among the transactions that route the
/// interrupts, a channel whose priority is zero has none that addresses its
/// service request node. A channel whose priority is above zero has exactly
/// two: the routing write and, after the enabling of the channel's flag,
/// the service enable.
pub proof fn lemma_interrupt_routing_gated(interrupt: InterruptConfig)
    ensures
        touching(interrupt_ops(interrupt), SRC_RX) == service_writes(
            SRC_RX,
            interrupt.rx_priority,
            interrupt.type_of_service,
        ),
        touching(interrupt_ops(interrupt), SRC_TX) == service_writes(
            SRC_TX,
            interrupt.tx_priority,
            interrupt.type_of_service,
        ),
        touching(interrupt_ops(interrupt), SRC_ERR) == service_writes(
            SRC_ERR,
            interrupt.er_priority,
            interrupt.type_of_service,
        ),
        interrupt.rx_priority == 0 ==> avoids(interrupt_ops(interrupt), SRC_RX),
        interrupt.tx_priority == 0 ==> avoids(interrupt_ops(interrupt), SRC_TX),
        interrupt.er_priority == 0 ==> avoids(interrupt_ops(interrupt), SRC_ERR),
{
    let tos = interrupt.type_of_service;
    let rx = channel_ops(SRC_RX, FLAG_RFL, interrupt.rx_priority, tos);
    let tx = channel_ops(SRC_TX, FLAG_TFL, interrupt.tx_priority, tos);
    let er = channel_ops(SRC_ERR, FLAG_PE, interrupt.er_priority, tos);
    let none = Seq::<RegOp>::empty();
    assert forall|addr: u32| addr == SRC_TX || addr == SRC_RX || addr == SRC_ERR implies touching(
        interrupt_ops(interrupt),
        addr,
    ) == #[trigger] touching(rx, addr) + touching(tx, addr) + touching(er, addr) by {
        lemma_touching_concat(rx, tx, addr);
        lemma_touching_concat(rx + tx, er, addr);
    }
    lemma_channel_touching(SRC_RX, FLAG_RFL, interrupt.rx_priority, tos, SRC_RX);
    lemma_channel_touching(SRC_RX, FLAG_RFL, interrupt.rx_priority, tos, SRC_TX);
    lemma_channel_touching(SRC_RX, FLAG_RFL, interrupt.rx_priority, tos, SRC_ERR);
    lemma_channel_touching(SRC_TX, FLAG_TFL, interrupt.tx_priority, tos, SRC_RX);
    lemma_channel_touching(SRC_TX, FLAG_TFL, interrupt.tx_priority, tos, SRC_TX);
    lemma_channel_touching(SRC_TX, FLAG_TFL, interrupt.tx_priority, tos, SRC_ERR);
    lemma_channel_touching(SRC_ERR, FLAG_PE, interrupt.er_priority, tos, SRC_RX);
    lemma_channel_touching(SRC_ERR, FLAG_PE, interrupt.er_priority, tos, SRC_TX);
    lemma_channel_touching(SRC_ERR, FLAG_PE, interrupt.er_priority, tos, SRC_ERR);
    let s_rx = service_writes(SRC_RX, interrupt.rx_priority, tos);
    let s_tx = service_writes(SRC_TX, interrupt.tx_priority, tos);
    let s_er = service_writes(SRC_ERR, interrupt.er_priority, tos);
    assert(s_rx + none + none =~= s_rx);
    assert(none + s_tx + none =~= s_tx);
    assert(none + none + s_er =~= s_er);
    assert(touching(rx, SRC_RX) + touching(tx, SRC_RX) + touching(er, SRC_RX) == s_rx);
    assert(touching(rx, SRC_TX) + touching(tx, SRC_TX) + touching(er, SRC_TX) == s_tx);
    assert(touching(rx, SRC_ERR) + touching(tx, SRC_ERR) + touching(er, SRC_ERR) == s_er);
}

/// Interrupt-routing gating, for the whole construction of a node: the
/// transactions that address the service request node of a channel are
/// those of [`service_writes`], none where the priority is zero.
pub proof fn lemma_construction_routing_gated(config: NodeConfig, first: u32, second: u32)
    ensures
        touching(construction_ops(config, first, second), SRC_RX) == service_writes(
            SRC_RX,
            config.interrupt.rx_priority,
            config.interrupt.type_of_service,
        ),
        touching(construction_ops(config, first, second), SRC_TX) == service_writes(
            SRC_TX,
            config.interrupt.tx_priority,
            config.interrupt.type_of_service,
        ),
        touching(construction_ops(config, first, second), SRC_ERR) == service_writes(
            SRC_ERR,
            config.interrupt.er_priority,
            config.interrupt.type_of_service,
        ),
{
    lemma_interrupt_routing_gated(config.interrupt);
    assert forall|addr: u32| addr == SRC_TX || addr == SRC_RX || addr == SRC_ERR implies touching(
        construction_ops(config, first, second),
        addr,
    ) == #[trigger] touching(interrupt_ops(config.interrupt), addr) by {
        let opening = pending_ops(Stage::Start, config);
        let disabling = pending_ops(Stage::Disabling(first), config);
        let timing = pending_ops(Stage::Timing(second), config);
        let prior = clock_source_of(second)->0;
        let x0 = bit_timing_ops(config.baud_rate, config.bit_timing, prior);
        let x1 = x0 + loop_back_ops(config.loop_back);
        let x2 = x1 + frame_ops(config.frame);
        let x3 = x2 + fifo_ops(config.fifo);
        let x4 = x3 + clock_select_ops(config.clock_source);
        let x5 = x4 + default_flags_ops();
        let x6 = x5 + interrupt_ops(config.interrupt);
        let x7 = x6 + enable_transfers_ops();
        assert(timing == x7 + start_flag_ops());
        assert(avoids(opening, addr));
        assert(avoids(disabling, addr));
        assert(avoids(x0, addr));
        assert(avoids(loop_back_ops(config.loop_back), addr));
        assert(avoids(frame_ops(config.frame), addr));
        assert(avoids(fifo_ops(config.fifo), addr));
        assert(avoids(clock_select_ops(config.clock_source), addr));
        assert(avoids(default_flags_ops(), addr));
        assert(avoids(enable_transfers_ops(), addr));
        assert(avoids(start_flag_ops(), addr));
        lemma_avoids_concat(opening, disabling, addr);
        lemma_avoids_concat(x0, loop_back_ops(config.loop_back), addr);
        lemma_avoids_concat(x1, frame_ops(config.frame), addr);
        lemma_avoids_concat(x2, fifo_ops(config.fifo), addr);
        lemma_avoids_concat(x3, clock_select_ops(config.clock_source), addr);
        lemma_avoids_concat(x4, default_flags_ops(), addr);
        lemma_touching_avoided(x5, addr);
        lemma_touching_concat(x5, interrupt_ops(config.interrupt), addr);
        assert(Seq::<RegOp>::empty() + touching(interrupt_ops(config.interrupt), addr) =~= touching(
            interrupt_ops(config.interrupt),
            addr,
        ));
        lemma_touching_then_avoided(x6, enable_transfers_ops(), addr);
        lemma_touching_then_avoided(x7, start_flag_ops(), addr);
        lemma_touching_avoided(opening + disabling, addr);
        lemma_touching_concat(opening + disabling, timing, addr);
        assert(Seq::<RegOp>::empty() + touching(timing, addr) =~= touching(timing, addr));
    }
}

/// Enabling the module opens the privileged-write window only to close it
/// again.
pub proof fn lemma_module_enable_paired()
    ensures
        windows_paired(module_enable_ops()),
{
    let ops = module_enable_ops();
    let inner = seq![ops[1], ops[2]];
    assert(windowless(inner));
    lemma_bracketed(inner);
    assert(ops =~= seq![RegOp::ClearEndinit] + inner + seq![RegOp::SetEndinit]);
}

/// One more step without a window after a paired sequence.
proof fn lemma_then_windowless(a: Seq<RegOp>, b: Seq<RegOp>)
    requires
        windows_paired(a),
        windowless(b),
    ensures
        windows_paired(a + b),
{
    lemma_windowless(b, false);
    lemma_paired_concat(a, b);
}

/// The construction of a node never opens the privileged-write window.
pub proof fn lemma_construction_windowless(config: NodeConfig, first: u32, second: u32)
    ensures
        windowless(construction_ops(config, first, second)),
        windows_paired(construction_ops(config, first, second)),
{
    let opening = pending_ops(Stage::Start, config);
    let disabling = pending_ops(Stage::Disabling(first), config);
    let timing = pending_ops(Stage::Timing(second), config);
    let interrupt = config.interrupt;
    let tos = interrupt.type_of_service;
    assert(windowless(channel_ops(SRC_RX, FLAG_RFL, interrupt.rx_priority, tos)));
    assert(windowless(channel_ops(SRC_TX, FLAG_TFL, interrupt.tx_priority, tos)));
    assert(windowless(channel_ops(SRC_ERR, FLAG_PE, interrupt.er_priority, tos)));
    assert(windowless(interrupt_ops(interrupt)));
    assert(windowless(opening));
    assert(windowless(disabling));
    assert(windowless(timing));
    lemma_windowless(construction_ops(config, first, second), false);
}

/// The initialization of the serial module closes every privileged-write
/// window that it opens.
pub proof fn lemma_uart_init_paired(config: NodeConfig, prior: ClockSource)
    ensures
        windows_paired(uart_opening_ops(config) + uart_closing_ops(config, prior)),
{
    let interrupt = config.interrupt;
    let tos = interrupt.type_of_service;
    assert(windowless(channel_ops(SRC_RX, FLAG_RFL, interrupt.rx_priority, tos)));
    assert(windowless(channel_ops(SRC_TX, FLAG_TFL, interrupt.tx_priority, tos)));
    assert(windowless(channel_ops(SRC_ERR, FLAG_PE, interrupt.er_priority, tos)));
    assert(windowless(interrupt_ops(interrupt)));
    // first half
    lemma_module_enable_paired();
    let a0 = module_enable_ops();
    let a1 = a0 + clock_select_ops(ClockSource::NoClock);
    lemma_then_windowless(a0, clock_select_ops(ClockSource::NoClock));
    let a2 = a1 + init_frame_mode_ops();
    lemma_then_windowless(a1, init_frame_mode_ops());
    let a3 = a2 + prescaler_ops(config.baud_rate);
    lemma_then_windowless(a2, prescaler_ops(config.baud_rate));
    let a4 = a3 + clock_select_ops(config.clock_source);
    lemma_then_windowless(a3, clock_select_ops(config.clock_source));
    let read = seq![RegOp::Read { addr: CSR }];
    lemma_then_windowless(a4, read);
    assert(uart_opening_ops(config) == a4 + read);
    // second half
    let c0 = sampling_ops(config, prior);
    assert(windowless(c0));
    lemma_windowless(c0, false);
    let c1 = c0 + clock_select_ops(ClockSource::NoClock);
    lemma_then_windowless(c0, clock_select_ops(ClockSource::NoClock));
    let c2 = c1 + loop_back_ops(config.loop_back);
    lemma_then_windowless(c1, loop_back_ops(config.loop_back));
    let c3 = c2 + frame_ops(config.frame);
    lemma_then_windowless(c2, frame_ops(config.frame));
    let c4 = c3 + fifo_ops(config.fifo);
    lemma_then_windowless(c3, fifo_ops(config.fifo));
    let c5 = c4 + port_mapping_ops(config.pins);
    lemma_port_mapping_paired(config.pins);
    lemma_paired_concat(c4, port_mapping_ops(config.pins));
    let c6 = c5 + clock_select_ops(config.clock_source);
    lemma_then_windowless(c5, clock_select_ops(config.clock_source));
    let c7 = c6 + default_flags_ops();
    lemma_then_windowless(c6, default_flags_ops());
    let c8 = c7 + interrupt_ops(interrupt);
    lemma_then_windowless(c7, interrupt_ops(interrupt));
    let c9 = c8 + enable_transfers_ops();
    lemma_then_windowless(c8, enable_transfers_ops());
    lemma_then_windowless(c9, start_flag_ops());
    assert(uart_closing_ops(config, prior) == c9 + start_flag_ops());
    lemma_paired_concat(uart_opening_ops(config), uart_closing_ops(config, prior));
}

/// The transactions of the first two batches of every construction: the
/// read of the clock selection, the clock switched off, the initialization
/// mode, the read of the clock selection again.
pub open spec fn default_opening() -> Seq<RegOp> {
    seq![
        RegOp::Read { addr: 0xF000_064C },
        RegOp::Modify { addr: 0xF000_064C, value: 0, mask: 0x0000_001F },
        RegOp::WaitUntil { addr: 0xF000_064C, value: 0, mask: 0x8000_0000 },
        RegOp::Modify { addr: 0xF000_0618, value: 0, mask: 0x0003_0000 },
        RegOp::Read { addr: 0xF000_064C },
    ]
}

/// The transactions of the last batch of a construction with the default
/// configuration, where no clock was found selected: bit timing with the
/// clock off, loop back, frame, FIFOs, the fast clock, the flags, the FIFOs
/// enabled and flushed, the transmit start flag. No interrupt is routed.
pub open spec fn default_programming() -> Seq<RegOp> {
    seq![
        RegOp::Modify { addr: 0xF000_064C, value: 0, mask: 0x0000_001F },
        RegOp::WaitUntil { addr: 0xF000_064C, value: 0, mask: 0x8000_0000 },
        RegOp::Modify { addr: 0xF000_0620, value: 0x0001_01B2, mask: 0x0FFF_0FFF },
        RegOp::Modify { addr: 0xF000_0614, value: 0x0303_0000, mask: 0x8F0F_0FFF },
        RegOp::Modify { addr: 0xF000_064C, value: 0, mask: 0x0000_001F },
        RegOp::WaitUntil { addr: 0xF000_064C, value: 0, mask: 0x8000_0000 },
        RegOp::Modify { addr: 0xF000_0604, value: 0, mask: 0x1000_0000 },
        RegOp::Modify { addr: 0xF000_0618, value: 0x0001_0200, mask: 0xD003_0FC0 },
        RegOp::Modify { addr: 0xF000_061C, value: 7, mask: 0x0000_000F },
        RegOp::Modify { addr: 0xF000_060C, value: 0x40, mask: 0x0000_0FF0 },
        RegOp::Modify { addr: 0xF000_0610, value: 0x40, mask: 0x0000_0FF0 },
        RegOp::Modify { addr: 0xF000_064C, value: 2, mask: 0x0000_001F },
        RegOp::WaitUntil { addr: 0xF000_064C, value: 0x8000_0000, mask: 0x8000_0000 },
        RegOp::Modify { addr: 0xF000_0640, value: 0, mask: 0xFFFF_FFFF },
        RegOp::ModifyAtomic { addr: 0xF000_063C, value: 0xFFFF_FFFF, mask: 0xFFFF_FFFF },
        RegOp::Modify { addr: 0xF000_0640, value: 0x4C05_0000, mask: 0x4C05_0000 },
        RegOp::Modify { addr: 0xF000_0610, value: 3, mask: 3 },
        RegOp::Modify { addr: 0xF000_060C, value: 3, mask: 3 },
        RegOp::ModifyAtomic { addr: 0xF000_0638, value: 0x8000_0000, mask: 0x8000_0000 },
    ]
}

/// The words that the default configuration puts into the register
/// fields.
proof fn lemma_default_words()
    ensures
        field(0, 0, 0x0000_001F) == 0,
        field(2, 0, 0x0000_001F) == 2,
        field(0, 16, 0x0003_0000) == 0,
        field(434, 0, 0x0000_0FFF) | field(1, 16, 0x0FFF_0000) == 0x0001_01B2,
        0x0000_0FFFu32 | 0x0FFF_0000u32 == 0x0FFF_0FFF,
        field(0, 0, 0x0000_0FFF) | (field(3, 16, 0x000F_0000) | field(3, 24, 0x0F00_0000) | 0u32)
            == 0x0303_0000,
        0u32 | 0u32 | field(1, 9, 0x0000_0E00) | 0u32 | field(0, 6, 0x0000_01C0) | field(
            1,
            16,
            0x0003_0000,
        ) == 0x0001_0200,
        field(7, 0, 0x0000_000F) == 7,
        field(1, 6, 0x0000_00C0) | field(0, 8, 0x0000_0F00) | field(0, 4, 0x0000_0030) == 0x40,
        0x0000_0002u32 | 0x0000_0001u32 == 3,
{
    assert((0u32 << 0u32) & 0x1Fu32 == 0) by (bit_vector);
    assert((2u32 << 0u32) & 0x1Fu32 == 2) by (bit_vector);
    assert((0u32 << 16u32) & 0x0003_0000u32 == 0) by (bit_vector);
    assert(((434u32 << 0u32) & 0x0FFFu32) | ((1u32 << 16u32) & 0x0FFF_0000u32) == 0x0001_01B2)
        by (bit_vector);
    assert(0x0000_0FFFu32 | 0x0FFF_0000u32 == 0x0FFF_0FFF) by (bit_vector);
    assert(((0u32 << 0u32) & 0x0FFFu32) | (((3u32 << 16u32) & 0x000F_0000u32) | ((3u32 << 24u32)
        & 0x0F00_0000u32) | 0u32) == 0x0303_0000) by (bit_vector);
    assert(0u32 | 0u32 | ((1u32 << 9u32) & 0x0E00u32) | 0u32 | ((0u32 << 6u32) & 0x01C0u32) | ((
    1u32 << 16u32) & 0x0003_0000u32) == 0x0001_0200) by (bit_vector);
    assert((7u32 << 0u32) & 0x0Fu32 == 7) by (bit_vector);
    assert(((1u32 << 6u32) & 0xC0u32) | ((0u32 << 8u32) & 0x0F00u32) | ((0u32 << 4u32) & 0x30u32)
        == 0x40) by (bit_vector);
    assert(0x0000_0002u32 | 0x0000_0001u32 == 3) by (bit_vector);
}

/// The construction of a node with the default configuration, on a device
/// that has no clock selected when the bit timing asks: exactly the
/// twenty-four transactions of [`default_opening`] and
/// [`default_programming`], in that order, and none of them addresses a
/// service request node.
pub proof fn lemma_default_construction(first: u32, second: u32)
    requires
        clock_source_of(second) == Some(ClockSource::NoClock),
    ensures
        construction_ops(NodeConfig::default_spec(), first, second) == default_opening()
            + default_programming(),
        (default_opening() + default_programming()).len() == 24,
        avoids(default_opening() + default_programming(), SRC_RX),
        avoids(default_opening() + default_programming(), SRC_TX),
        avoids(default_opening() + default_programming(), SRC_ERR),
{
    let config = NodeConfig::default_spec();
    lemma_default_words();
    let start = pending_ops(Stage::Start, config);
    let off = pending_ops(Stage::Disabling(first), config);
    let rest = pending_ops(Stage::Timing(second), config);
    assert(start + off =~= default_opening());
    assert(interrupt_ops(config.interrupt) =~= Seq::<RegOp>::empty());
    let timing = bit_timing_ops(config.baud_rate, config.bit_timing, ClockSource::NoClock);
    assert(timing =~= default_programming().subrange(0, 6));
    assert(loop_back_ops(config.loop_back) =~= default_programming().subrange(6, 7));
    assert(frame_ops(config.frame) =~= default_programming().subrange(7, 9));
    assert(fifo_ops(config.fifo) =~= default_programming().subrange(9, 11));
    assert(clock_select_ops(config.clock_source) =~= default_programming().subrange(11, 13));
    assert(default_flags_ops() =~= default_programming().subrange(13, 16));
    assert(enable_transfers_ops() =~= default_programming().subrange(16, 18));
    assert(start_flag_ops() =~= default_programming().subrange(18, 19));
    assert(rest =~= default_programming());
    assert((start + off) + rest =~= default_opening() + default_programming());
}

} // verus!
