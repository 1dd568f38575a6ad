//! A serial node: configured once, in a fixed order, then used for blocking
//! transfers.
//!
//! Configuring a node takes three batches of register transactions. The
//! first two end with a read of the clock selection register, and the word
//! read decides what follows, so the node hands out one batch at a time
//! ([`Node::pending`]) and is told what the batch observed
//! ([`Node::resume`]).

use super::asclin::{CSR, FLAGSSET, FLAG_TFL, FRAMECON, FRAMECON_MODE, FRAMECON_MODE_SHIFT, IOCR,
    IOCR_ALTI, IOCR_LB, BITCON, BITCON_PRESCALER};
use super::module::Asclin0;
use super::ports::{port_mapping, port_mapping_ops};
use super::uart_node::{
    BaudRateConfig, BitTimingConfig, ClockSource, FifoConfig, FrameConfig, InterruptConfig,
    NodeConfig, PinsConfig, RxSel,
};
use super::{
    bit_timing_ops, clock_select_ops, clock_source_in, clock_source_of, default_flags_ops,
    enable_transfers_ops, fifo_ops, fraction_write, frame_ops, init_frame_mode_ops, interrupt_ops,
    loop_back_ops, program_default_flags, program_enable_transfers, program_fifo, program_frame,
    program_interrupts, sampling_word, send_bytes, send_ops, start_flag_ops, BIT_TIMING_MASK,
};
use crate::reg::{field, lemma_queue_grows, put_field, put_flag, RegOp};
use core::marker::PhantomData;
use vstd::prelude::*;

verus! {

/// The node can still be configured (type state).
pub struct Configurable;

/// The configuration of the node is locked (type state).
pub struct Configured;

/// How far the configuration of a node has come.
#[derive(Clone, Copy, Debug, PartialEq, Eq, Structural)]
pub enum Stage {
    /// Nothing has been done. Next: read the clock selection.
    Start,
    /// The clock selection has been read and held the word kept here. Next:
    /// switch the clock off, enter the initialization mode, read the clock
    /// selection again.
    Disabling(u32),
    /// The clock selection has been read again and held the word kept
    /// here. Next: all the rest.
    Timing(u32),
    /// Every transaction has been handed out and performed.
    Ready,
}

impl Stage {
    /// Whether `observed`, the word that the last transaction of the
    /// pending batch saw, can be taken: where that transaction read the
    /// clock selection register, the word names a clock source.
    pub open spec fn accepts(self, observed: u32) -> bool {
        match self {
            Stage::Start => clock_source_of(observed) is Some,
            Stage::Disabling(_) => clock_source_of(observed) is Some,
            _ => true,
        }
    }

    /// The stage that follows once the pending batch has been performed and
    /// has observed `observed`.
    pub open spec fn next(self, observed: u32) -> Stage {
        match self {
            Stage::Start => Stage::Disabling(observed),
            Stage::Disabling(_) => Stage::Timing(observed),
            Stage::Timing(_) => Stage::Ready,
            Stage::Ready => Stage::Ready,
        }
    }

    /// Every word kept names a clock source.
    pub open spec fn valid(self) -> bool {
        match self {
            Stage::Disabling(csr) => clock_source_of(csr) is Some,
            Stage::Timing(csr) => clock_source_of(csr) is Some,
            _ => true,
        }
    }
}

/// The batch of transactions that is due at `stage` of configuring a node
/// with `config`.
pub open spec fn pending_ops(stage: Stage, config: NodeConfig) -> Seq<RegOp> {
    match stage {
        Stage::Start => seq![RegOp::Read { addr: CSR }],
        Stage::Disabling(_) => clock_select_ops(ClockSource::NoClock) + init_frame_mode_ops()
            + seq![RegOp::Read { addr: CSR }],
        Stage::Timing(csr) => bit_timing_ops(
            config.baud_rate,
            config.bit_timing,
            clock_source_of(csr)->0,
        ) + loop_back_ops(config.loop_back) + frame_ops(config.frame) + fifo_ops(config.fifo)
            + clock_select_ops(config.clock_source) + default_flags_ops() + interrupt_ops(
            config.interrupt,
        ) + enable_transfers_ops() + start_flag_ops(),
        Stage::Ready => Seq::empty(),
    }
}

/// Every transaction of configuring a node with `config`, in order, where
/// the two reads of the clock selection register observe `first` and
/// `second`.
pub open spec fn construction_ops(config: NodeConfig, first: u32, second: u32) -> Seq<RegOp> {
    pending_ops(Stage::Start, config) + pending_ops(Stage::Disabling(first), config) + pending_ops(
        Stage::Timing(second),
        config,
    )
}

/// A serial node in state `State`.
pub struct Node<NodeReg, State> {
    reg: NodeReg,
    config: NodeConfig,
    stage: Stage,
    _phantom: PhantomData<State>,
}

impl<NodeReg, State> Node<NodeReg, State> {
    /// The configuration the node is, or was, programmed with.
    pub closed spec fn config(&self) -> NodeConfig {
        self.config
    }

    /// How far the configuration has come.
    pub closed spec fn stage(&self) -> Stage {
        self.stage
    }

    #[verifier::type_invariant]
    closed spec fn well_formed(&self) -> bool {
        self.config.supported() && self.stage.valid()
    }
}

impl Node<Asclin0, Configurable> {
    /// A node that is about to be configured with `config`. Nothing has
    /// been written yet; [`Node::pending`] says what is to be.
    pub fn new(config: NodeConfig) -> (node: Self)
        requires
            config.supported(),
        ensures
            node.config() == config,
            node.stage() == Stage::Start,
    {
        Self { reg: Asclin0, config, stage: Stage::Start, _phantom: PhantomData }
    }

    /// Whether the configuration is complete.
    pub fn is_ready(&self) -> (ready: bool)
        ensures
            ready == (self.stage() == Stage::Ready),
    {
        match self.stage {
            Stage::Ready => true,
            _ => false,
        }
    }

    /// Whether `observed` can be handed to [`Node::resume`].
    pub fn accepts(&self, observed: u32) -> (ok: bool)
        ensures
            ok == self.stage().accepts(observed),
    {
        match self.stage {
            Stage::Start | Stage::Disabling(_) => clock_source_in(observed).is_some(),
            _ => true,
        }
    }

    /// The batch of transactions that is due now.
    pub fn pending(&self) -> (ops: Vec<RegOp>)
        ensures
            ops@ == pending_ops(self.stage(), self.config()),
    {
        proof {
            use_type_invariant(self);
        }
        let mut ops: Vec<RegOp> = Vec::new();
        match self.stage {
            Stage::Start => {
                ops.push(RegOp::Read { addr: CSR });
            },
            Stage::Disabling(csr) => {
                let _ = self.disable_clock_source(csr, &mut ops);
                self.set_initialisation_frame_mode(&mut ops);
                ops.push(RegOp::Read { addr: CSR });
            },
            Stage::Timing(csr) => {
                let ghost start = ops@;
                let ghost config = self.config;
                self.set_bit_timing_and_baud_rate(
                    &self.config.baud_rate,
                    &self.config.bit_timing,
                    csr,
                    &mut ops,
                );
                let ghost done = bit_timing_ops(
                    config.baud_rate,
                    config.bit_timing,
                    clock_source_of(csr)->0,
                );
                self.set_loop_back(self.config.loop_back, &mut ops);
                proof {
                    lemma_queue_grows(start, done, loop_back_ops(config.loop_back));
                    done = done + loop_back_ops(config.loop_back);
                }
                self.set_frame(&self.config.frame, &mut ops);
                proof {
                    lemma_queue_grows(start, done, frame_ops(config.frame));
                    done = done + frame_ops(config.frame);
                }
                self.set_fifo(&self.config.fifo, &mut ops);
                proof {
                    lemma_queue_grows(start, done, fifo_ops(config.fifo));
                    done = done + fifo_ops(config.fifo);
                }
                self.set_clock_source(self.config.clock_source, &mut ops);
                proof {
                    lemma_queue_grows(start, done, clock_select_ops(config.clock_source));
                    done = done + clock_select_ops(config.clock_source);
                }
                self.set_flags_default(&mut ops);
                proof {
                    lemma_queue_grows(start, done, default_flags_ops());
                    done = done + default_flags_ops();
                }
                self.set_interrupts(&self.config.interrupt, &mut ops);
                proof {
                    lemma_queue_grows(start, done, interrupt_ops(config.interrupt));
                    done = done + interrupt_ops(config.interrupt);
                }
                self.enable_transfers(&mut ops);
                proof {
                    lemma_queue_grows(start, done, enable_transfers_ops());
                    done = done + enable_transfers_ops();
                }
                self.set_tfl_flag(&mut ops);
                proof {
                    lemma_queue_grows(start, done, start_flag_ops());
                    done = done + start_flag_ops();
                    assert(done == pending_ops(self.stage(), self.config()));
                    assert(start + done =~= done);
                }
            },
            Stage::Ready => {},
        }
        assert(ops@ =~= pending_ops(self.stage(), self.config()));
        ops
    }

    /// Tells the node that the pending batch has been performed and that
    /// its last transaction observed `observed`.
    pub fn resume(&mut self, observed: u32)
        requires
            old(self).stage().accepts(observed),
        ensures
            final(self).stage() == old(self).stage().next(observed),
            final(self).config() == old(self).config(),
    {
        proof {
            use_type_invariant(&*self);
        }
        let next = match self.stage {
            Stage::Start => Stage::Disabling(observed),
            Stage::Disabling(_) => Stage::Timing(observed),
            Stage::Timing(_) => Stage::Ready,
            Stage::Ready => Stage::Ready,
        };
        self.stage = next;
    }

    /// Routes the pins of the node.
    pub fn set_pins(&self, pins: PinsConfig, ops: &mut Vec<RegOp>)
        requires
            pins.in_range(),
        ensures
            final(ops)@ == old(ops)@ + port_mapping_ops(pins),
    {
        port_mapping(&pins, ops);
    }

    /// Switches the clock source and waits until the hardware has followed.
    fn set_clock_source(&self, source: ClockSource, ops: &mut Vec<RegOp>)
        ensures
            final(ops)@ == old(ops)@ + clock_select_ops(source),
    {
        super::set_clock_source(source, ops)
    }

    /// Switches the clock off and returns the source that `csr`, the word
    /// read from the clock selection register just before, names.
    fn disable_clock_source(&self, csr: u32, ops: &mut Vec<RegOp>) -> (prior: ClockSource)
        requires
            clock_source_of(csr) is Some,
        ensures
            prior == clock_source_of(csr)->0,
            final(ops)@ == old(ops)@ + clock_select_ops(ClockSource::NoClock),
    {
        let prior = self.get_clock_source(csr);
        self.set_clock_source(ClockSource::NoClock, ops);
        prior
    }

    /// The clock source that `csr`, a word read from the clock selection
    /// register, names.
    fn get_clock_source(&self, csr: u32) -> (source: ClockSource)
        requires
            clock_source_of(csr) is Some,
        ensures
            source == clock_source_of(csr)->0,
    {
        match clock_source_in(csr) {
            Some(source) => source,
            None => ClockSource::NoClock,
        }
    }

    /// Programs bit timing and baud rate while the clock is off, then
    /// selects again the source that `csr`, the word read from the clock
    /// selection register just before, names.
    fn set_bit_timing_and_baud_rate(
        &self,
        baud_rate: &BaudRateConfig,
        bit_timing: &BitTimingConfig,
        csr: u32,
        ops: &mut Vec<RegOp>,
    )
        requires
            baud_rate.in_range(),
            clock_source_of(csr) is Some,
        ensures
            final(ops)@ == old(ops)@ + bit_timing_ops(
                *baud_rate,
                *bit_timing,
                clock_source_of(csr)->0,
            ),
    {
        let old_clock_source = self.disable_clock_source(csr, ops);
        ops.push(fraction_write());
        ops.push(
            RegOp::Modify {
                addr: BITCON,
                value: put_field((baud_rate.prescaler - 1) as u32, 0, BITCON_PRESCALER)
                    | sampling_word(baud_rate, bit_timing),
                mask: BIT_TIMING_MASK,
            },
        );
        self.set_clock_source(old_clock_source, ops);
        assert(ops@ =~= old(ops)@ + bit_timing_ops(*baud_rate, *bit_timing, old_clock_source));
    }

    /// Puts the frame control into the initialization mode.
    fn set_initialisation_frame_mode(&self, ops: &mut Vec<RegOp>)
        ensures
            final(ops)@ == old(ops)@ + init_frame_mode_ops(),
    {
        ops.push(
            RegOp::Modify {
                addr: FRAMECON,
                value: put_field(0, FRAMECON_MODE_SHIFT, FRAMECON_MODE),
                mask: FRAMECON_MODE,
            },
        );
        assert(ops@ =~= old(ops)@ + init_frame_mode_ops());
    }

    /// Sets or clears the loop-back flag.
    fn set_loop_back(&self, set: bool, ops: &mut Vec<RegOp>)
        ensures
            final(ops)@ == old(ops)@ + loop_back_ops(set),
    {
        ops.push(RegOp::Modify { addr: IOCR, value: put_flag(set, IOCR_LB), mask: IOCR_LB });
        assert(ops@ =~= old(ops)@ + loop_back_ops(set));
    }

    /// Programs the shape of a frame.
    fn set_frame(&self, frame: &FrameConfig, ops: &mut Vec<RegOp>)
        ensures
            final(ops)@ == old(ops)@ + frame_ops(*frame),
    {
        program_frame(frame, ops)
    }

    /// Programs widths, levels and modes of both FIFOs.
    fn set_fifo(&self, fifo: &FifoConfig, ops: &mut Vec<RegOp>)
        ensures
            final(ops)@ == old(ops)@ + fifo_ops(*fifo),
    {
        program_fifo(fifo, ops)
    }

    /// Disables and clears every flag, then enables the default error
    /// flags.
    fn set_flags_default(&self, ops: &mut Vec<RegOp>)
        ensures
            final(ops)@ == old(ops)@ + default_flags_ops(),
    {
        program_default_flags(ops)
    }

    /// Routes the interrupt of every channel whose priority is above zero.
    fn set_interrupts(&self, interrupt: &InterruptConfig, ops: &mut Vec<RegOp>)
        requires
            interrupt.routed_to_primary_core(),
        ensures
            final(ops)@ == old(ops)@ + interrupt_ops(*interrupt),
    {
        program_interrupts(interrupt, ops)
    }

    /// Enables and flushes both FIFOs.
    fn enable_transfers(&self, ops: &mut Vec<RegOp>)
        ensures
            final(ops)@ == old(ops)@ + enable_transfers_ops(),
    {
        program_enable_transfers(ops)
    }

    /// Raises the transmit FIFO level flag.
    fn set_tfl_flag(&self, ops: &mut Vec<RegOp>)
        ensures
            final(ops)@ == old(ops)@ + start_flag_ops(),
    {
        ops.push(RegOp::ModifyAtomic { addr: FLAGSSET, value: FLAG_TFL, mask: FLAG_TFL });
        assert(ops@ =~= old(ops)@ + start_flag_ops());
    }

    /// Selects the input the receiver listens on.
    pub fn set_rx_input(&self, select: RxSel, ops: &mut Vec<RegOp>)
        ensures
            final(ops)@ == old(ops)@ + seq![
                RegOp::Modify {
                    addr: IOCR,
                    value: field(select.bits() as u32, 0, IOCR_ALTI),
                    mask: IOCR_ALTI,
                },
            ],
    {
        let code: u8 = select.into();
        ops.push(
            RegOp::Modify { addr: IOCR, value: put_field(code as u32, 0, IOCR_ALTI), mask: IOCR_ALTI },
        );
        assert(ops@ =~= old(ops)@ + seq![
            RegOp::Modify {
                addr: IOCR,
                value: field(select.bits() as u32, 0, IOCR_ALTI),
                mask: IOCR_ALTI,
            },
        ]);
    }

    /// Routes the pins of the node.
    pub fn set_ports(&self, pins: PinsConfig, ops: &mut Vec<RegOp>)
        requires
            pins.in_range(),
        ensures
            final(ops)@ == old(ops)@ + port_mapping_ops(pins),
    {
        port_mapping(&pins, ops)
    }

    /// Locks the configuration. From here on the node only transfers.
    pub fn lock_configuration(self) -> (node: Node<Asclin0, Configured>)
        requires
            self.stage() == Stage::Ready,
        ensures
            node.config() == self.config(),
            node.stage() == Stage::Ready,
    {
        proof {
            use_type_invariant(&self);
        }
        Node { reg: self.reg, config: self.config, stage: self.stage, _phantom: PhantomData }
    }
}

impl Node<Asclin0, Configured> {
    /// Sends `buf` byte by byte: for each byte, wait for the transmit FIFO
    /// level flag, clear it, write the byte. Nothing bounds the waits.
    pub fn send_blocking(&self, buf: &[u8], ops: &mut Vec<RegOp>)
        ensures
            final(ops)@ == old(ops)@ + send_ops(buf@),
    {
        send_bytes(buf, ops)
    }
}

} // verus!
