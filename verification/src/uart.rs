//! Serial node (ASCLIN): the register protocol that turns an idle module
//! into one ready for blocking transfers.
//!
//! Every function here appends the register transactions it stands for to a
//! queue and says exactly which ones. The one thing only the bus can tell,
//! what the clock selection register held when it was read, is handed in as
//! a plain word.

pub mod asclin;
pub mod module;
pub mod node;
pub mod ordering;
pub mod ports;
pub mod uart_node;

use crate::reg::{field, flag, lemma_queue_grows, put_field, put_flag, RegOp};
use asclin::{
    ALL_BITS, BITCON, BITCON_OVERSAMPLING, BITCON_OVERSAMPLING_SHIFT, BITCON_PRESCALER,
    BITCON_SAMPLEPOINT, BITCON_SAMPLEPOINT_SHIFT, BITCON_SM, BRG, BRG_DENOMINATOR, BRG_NUMERATOR,
    BRG_NUMERATOR_SHIFT, CLC, CLC_DISR, CSR, CSR_CLKSEL, CSR_CON, DATCON, DATCON_DATLEN,
    DEFAULT_ERROR_FLAGS, DENOMINATOR, FIFOCON_ENABLE, FIFOCON_FLUSH, FIFOCON_FM, FIFOCON_FM_SHIFT,
    FIFOCON_INTLEVEL, FIFOCON_INTLEVEL_SHIFT, FIFOCON_WIDTH, FIFOCON_WIDTH_SHIFT, FLAGS,
    FLAGSCLEAR, FLAGSENABLE, FLAGSSET, FLAG_PE, FLAG_RFL, FLAG_TFL, FRAMECON, FRAMECON_IDLE,
    FRAMECON_IDLE_SHIFT, FRAMECON_MODE, FRAMECON_MODE_SHIFT, FRAMECON_MSB, FRAMECON_ODD,
    FRAMECON_PEN, FRAMECON_STOP, FRAMECON_STOP_SHIFT, IOCR, IOCR_LB, NUMERATOR, RXFIFOCON, SRC_ERR,
    SRC_RX, SRC_TX, TXDATA, TXFIFOCON,
};
use crate::interrupt::{CLRR, SRE, SRPN, TOS, TOS_SHIFT};
use ports::{port_mapping, port_mapping_ops};
use uart_node::{
    BaudRateConfig, BitTimingConfig, ClockSource, FifoConfig, FrameConfig, FrameMode,
    InterruptConfig, NodeConfig, Tos,
};
use vstd::prelude::*;
use vstd::string::StrSliceExecFns;

verus! {

/// Smallest oversampling factor the hardware works with.
pub const MIN_OVERSAMPLING: u8 = 4;

/// Smallest sample point position the hardware works with.
pub const MIN_SAMPLE_POINT: u8 = 1;

/// The oversampling factor that is programmed: one more than the configured
/// one, and at least [`MIN_OVERSAMPLING`].
pub open spec fn oversampling(baud_rate: BaudRateConfig) -> int {
    if baud_rate.over_sampling_factor + 1 >= MIN_OVERSAMPLING {
        baud_rate.over_sampling_factor + 1
    } else {
        MIN_OVERSAMPLING as int
    }
}

/// The sample point position that is programmed: the configured one, and at
/// least [`MIN_SAMPLE_POINT`].
pub open spec fn sample_point(bit_timing: BitTimingConfig) -> int {
    if bit_timing.sample_point_position >= MIN_SAMPLE_POINT {
        bit_timing.sample_point_position as int
    } else {
        MIN_SAMPLE_POINT as int
    }
}

/// The clock source that a word read from the clock selection register
/// names, if it names one.
pub open spec fn clock_source_of(csr: u32) -> Option<ClockSource> {
    ClockSource::from_bits((csr & CSR_CLKSEL) as u8)
}

/// Transactions that enable the module: open the privileged-write window,
/// clear the disable request, wait until the module says so, close the
/// window.
pub open spec fn module_enable_ops() -> Seq<RegOp> {
    seq![
        RegOp::ClearEndinit,
        RegOp::ModifyAtomic { addr: CLC, value: 0, mask: CLC_DISR },
        RegOp::WaitUntil { addr: CLC, value: 0, mask: CLC_DISR },
        RegOp::SetEndinit,
    ]
}

/// Transactions that switch the clock source: write the selector, then wait
/// until the connected status says what was asked for, on for a real clock
/// and off for none.
pub open spec fn clock_select_ops(source: ClockSource) -> Seq<RegOp> {
    seq![
        RegOp::Modify {
            addr: CSR,
            value: field(source.bits() as u32, 0, CSR_CLKSEL),
            mask: CSR_CLKSEL,
        },
        RegOp::WaitUntil {
            addr: CSR,
            value: flag(source != ClockSource::NoClock, CSR_CON),
            mask: CSR_CON,
        },
    ]
}

/// The transaction that puts the frame control into the mode in which the
/// node may be configured.
pub open spec fn init_frame_mode_ops() -> Seq<RegOp> {
    seq![
        RegOp::Modify {
            addr: FRAMECON,
            value: field(FrameMode::Initialise.bits() as u32, FRAMECON_MODE_SHIFT, FRAMECON_MODE),
            mask: FRAMECON_MODE,
        },
    ]
}

/// The transaction that programs the prescaler alone.
pub open spec fn prescaler_ops(baud_rate: BaudRateConfig) -> Seq<RegOp> {
    seq![
        RegOp::Modify {
            addr: BITCON,
            value: field((baud_rate.prescaler - 1) as u32, 0, BITCON_PRESCALER),
            mask: BITCON_PRESCALER,
        },
    ]
}

/// The transaction that programs the fraction of the baud rate generator.
pub open spec fn fraction_op() -> RegOp {
    RegOp::Modify {
        addr: BRG,
        value: field(DENOMINATOR, 0, BRG_DENOMINATOR) | field(
            NUMERATOR,
            BRG_NUMERATOR_SHIFT,
            BRG_NUMERATOR,
        ),
        mask: BRG_DENOMINATOR | BRG_NUMERATOR,
    }
}

/// The bits of oversampling, sample point and sample mode in the bit
/// configuration register.
pub open spec fn sampling_bits(baud_rate: BaudRateConfig, bit_timing: BitTimingConfig) -> u32 {
    field(
        (oversampling(baud_rate) - 1) as u32,
        BITCON_OVERSAMPLING_SHIFT,
        BITCON_OVERSAMPLING,
    ) | field(sample_point(bit_timing) as u32, BITCON_SAMPLEPOINT_SHIFT, BITCON_SAMPLEPOINT) | flag(
        bit_timing.median_filter,
        BITCON_SM,
    )
}

/// The mask of oversampling, sample point and sample mode.
pub const SAMPLING_MASK: u32 = 0x8F0F_0000;

/// The mask of all bit timing fields.
pub const BIT_TIMING_MASK: u32 = 0x8F0F_0FFF;

/// Transactions of [`set_bit_timing`]: with the clock switched off, the
/// fraction and the sampling fields; then the clock that was selected
/// before.
pub open spec fn sampling_ops(config: NodeConfig, prior: ClockSource) -> Seq<RegOp> {
    clock_select_ops(ClockSource::NoClock) + seq![
        fraction_op(),
        RegOp::Modify {
            addr: BITCON,
            value: sampling_bits(config.baud_rate, config.bit_timing),
            mask: SAMPLING_MASK,
        },
    ] + clock_select_ops(prior)
}

/// Transactions that program bit timing and baud rate of a node: with the
/// clock switched off, the fraction and every bit timing field; then the
/// clock that was selected before.
pub open spec fn bit_timing_ops(
    baud_rate: BaudRateConfig,
    bit_timing: BitTimingConfig,
    prior: ClockSource,
) -> Seq<RegOp> {
    clock_select_ops(ClockSource::NoClock) + seq![
        fraction_op(),
        RegOp::Modify {
            addr: BITCON,
            value: field((baud_rate.prescaler - 1) as u32, 0, BITCON_PRESCALER) | sampling_bits(
                baud_rate,
                bit_timing,
            ),
            mask: BIT_TIMING_MASK,
        },
    ] + clock_select_ops(prior)
}

/// The transaction that sets or clears the loop-back flag.
pub open spec fn loop_back_ops(set: bool) -> Seq<RegOp> {
    seq![RegOp::Modify { addr: IOCR, value: flag(set, IOCR_LB), mask: IOCR_LB }]
}

/// The mask of the frame control fields that describe the shape of a frame.
pub const FRAME_MASK: u32 = 0xD003_0FC0;

/// Transactions that program the shape of a frame: parity, stop bits, shift
/// direction, idle delay and mode in the frame control, then the data
/// length.
pub open spec fn frame_ops(frame: FrameConfig) -> Seq<RegOp> {
    seq![
        RegOp::Modify {
            addr: FRAMECON,
            value: flag(frame.parity_bit, FRAMECON_PEN) | flag(frame.parity_type, FRAMECON_ODD)
                | field(frame.stop_bit as u32, FRAMECON_STOP_SHIFT, FRAMECON_STOP) | flag(
                frame.shift_dir,
                FRAMECON_MSB,
            ) | field(frame.idle_delay as u32, FRAMECON_IDLE_SHIFT, FRAMECON_IDLE) | field(
                frame.frame_mode.bits() as u32,
                FRAMECON_MODE_SHIFT,
                FRAMECON_MODE,
            ),
            mask: FRAME_MASK,
        },
        RegOp::Modify {
            addr: DATCON,
            value: field(frame.data_length as u32, 0, DATCON_DATLEN),
            mask: DATCON_DATLEN,
        },
    ]
}

/// The bits of width, interrupt level and interrupt mode of a FIFO.
pub open spec fn fifo_bits(width: u8, level: u8, mode: u8) -> u32 {
    field(width as u32, FIFOCON_WIDTH_SHIFT, FIFOCON_WIDTH) | field(
        level as u32,
        FIFOCON_INTLEVEL_SHIFT,
        FIFOCON_INTLEVEL,
    ) | field(mode as u32, FIFOCON_FM_SHIFT, FIFOCON_FM)
}

/// The mask of width, interrupt level and interrupt mode of a FIFO.
pub const FIFO_MASK: u32 = 0x0000_0FF0;

/// Transactions that program the FIFOs, transmit before receive.
pub open spec fn fifo_ops(fifo: FifoConfig) -> Seq<RegOp> {
    seq![
        RegOp::Modify {
            addr: TXFIFOCON,
            value: fifo_bits(
                fifo.in_width,
                fifo.tx_fifo_interrupt_level,
                fifo.tx_fifo_interrupt_mode,
            ),
            mask: FIFO_MASK,
        },
        RegOp::Modify {
            addr: RXFIFOCON,
            value: fifo_bits(
                fifo.out_width,
                fifo.rx_fifo_interrupt_level,
                fifo.rx_fifo_interrupt_mode,
            ),
            mask: FIFO_MASK,
        },
    ]
}

/// Transactions that disable every flag and clear every flag.
pub open spec fn flags_reset_ops() -> Seq<RegOp> {
    seq![
        RegOp::Modify { addr: FLAGSENABLE, value: 0, mask: ALL_BITS },
        RegOp::ModifyAtomic { addr: FLAGSCLEAR, value: ALL_BITS, mask: ALL_BITS },
    ]
}

/// The transaction that enables the default set of error flags.
pub open spec fn error_flags_ops() -> Seq<RegOp> {
    seq![
        RegOp::Modify {
            addr: FLAGSENABLE,
            value: DEFAULT_ERROR_FLAGS,
            mask: DEFAULT_ERROR_FLAGS,
        },
    ]
}

/// Transactions that reset the flags and enable the default error flags.
pub open spec fn default_flags_ops() -> Seq<RegOp> {
    flags_reset_ops() + error_flags_ops()
}

/// The mask of the fields that route a service request.
pub const ROUTE_MASK: u32 = 0x0200_38FF;

/// The write that routes a service request: its priority, its service
/// target and the clearing of a pending request, in one word.
pub open spec fn route_op(node: u32, priority: u8, tos: Tos) -> RegOp {
    RegOp::Modify {
        addr: node,
        value: field(priority as u32, 0, SRPN) | field(
            tos.bits() as u32,
            TOS_SHIFT,
            TOS,
        ) | CLRR,
        mask: ROUTE_MASK,
    }
}

/// Transactions that route one interrupt channel. A priority of zero leaves
/// the channel alone. Otherwise: the routing write, then the enabling of the
/// channel's flag, then the service enable.
pub open spec fn channel_ops(node: u32, flag_bit: u32, priority: u8, tos: Tos) -> Seq<RegOp> {
    if priority > 0 {
        seq![
            route_op(node, priority, tos),
            RegOp::Modify { addr: FLAGSENABLE, value: flag_bit, mask: flag_bit },
            RegOp::Modify { addr: node, value: SRE, mask: SRE },
        ]
    } else {
        Seq::empty()
    }
}

/// Transactions that route the interrupts: receive, transmit, error.
pub open spec fn interrupt_ops(interrupt: InterruptConfig) -> Seq<RegOp> {
    channel_ops(SRC_RX, FLAG_RFL, interrupt.rx_priority, interrupt.type_of_service) + channel_ops(
        SRC_TX,
        FLAG_TFL,
        interrupt.tx_priority,
        interrupt.type_of_service,
    ) + channel_ops(SRC_ERR, FLAG_PE, interrupt.er_priority, interrupt.type_of_service)
}

/// Transactions that enable the receive inlet and the transmit outlet and
/// flush both FIFOs.
pub open spec fn enable_transfers_ops() -> Seq<RegOp> {
    seq![
        RegOp::Modify {
            addr: RXFIFOCON,
            value: FIFOCON_ENABLE | FIFOCON_FLUSH,
            mask: FIFOCON_ENABLE | FIFOCON_FLUSH,
        },
        RegOp::Modify {
            addr: TXFIFOCON,
            value: FIFOCON_ENABLE | FIFOCON_FLUSH,
            mask: FIFOCON_ENABLE | FIFOCON_FLUSH,
        },
    ]
}

/// The transaction that raises the transmit FIFO level flag, which starts
/// the transfers.
pub open spec fn start_flag_ops() -> Seq<RegOp> {
    seq![RegOp::ModifyAtomic { addr: FLAGSSET, value: FLAG_TFL, mask: FLAG_TFL }]
}

/// Transactions that send one word: wait for the transmit FIFO level flag,
/// clear it atomically, write the word atomically.
pub open spec fn word_ops(word: u32) -> Seq<RegOp> {
    seq![
        RegOp::WaitUntil { addr: FLAGS, value: FLAG_TFL, mask: FLAG_TFL },
        RegOp::ModifyAtomic { addr: FLAGSCLEAR, value: FLAG_TFL, mask: FLAG_TFL },
        RegOp::ModifyAtomic { addr: TXDATA, value: word, mask: ALL_BITS },
    ]
}

/// Transactions that send bytes one after the other.
pub open spec fn send_ops(bytes: Seq<u8>) -> Seq<RegOp>
    decreases bytes.len(),
{
    if bytes.len() == 0 {
        Seq::empty()
    } else {
        send_ops(bytes.drop_last()) + word_ops(bytes.last() as u32)
    }
}

/// Transactions that send the characters of a text one after the other.
pub open spec fn print_ops(text: Seq<char>) -> Seq<RegOp>
    decreases text.len(),
{
    if text.len() == 0 {
        Seq::empty()
    } else {
        print_ops(text.drop_last()) + word_ops(text.last() as u32)
    }
}

/// Transactions of [`init_uart`]: everything up to the read of the clock
/// selection register that the bit timing needs.
pub open spec fn uart_opening_ops(config: NodeConfig) -> Seq<RegOp> {
    module_enable_ops() + clock_select_ops(ClockSource::NoClock) + init_frame_mode_ops()
        + prescaler_ops(config.baud_rate) + clock_select_ops(config.clock_source) + seq![
        RegOp::Read { addr: CSR },
    ]
}

/// Transactions of [`UartInit::finish`]: everything after that read, which
/// found `prior` selected.
pub open spec fn uart_closing_ops(config: NodeConfig, prior: ClockSource) -> Seq<RegOp> {
    sampling_ops(config, prior) + clock_select_ops(ClockSource::NoClock) + loop_back_ops(
        config.loop_back,
    ) + frame_ops(config.frame) + fifo_ops(config.fifo) + port_mapping_ops(config.pins)
        + clock_select_ops(config.clock_source) + default_flags_ops() + interrupt_ops(
        config.interrupt,
    ) + enable_transfers_ops() + start_flag_ops()
}

/// Appends one transaction.
fn emit(ops: &mut Vec<RegOp>, op: RegOp)
    ensures
        final(ops)@ == old(ops)@ + seq![op],
{
    ops.push(op);
    assert(ops@ =~= old(ops)@ + seq![op]);
}

/// The clock source that a word read from the clock selection register
/// names, if it names one.
pub fn clock_source_in(csr: u32) -> (source: Option<ClockSource>)
    ensures
        source == clock_source_of(csr),
{
    let bits: u32 = csr & CSR_CLKSEL;
    assert(bits <= 0x1F) by (bit_vector)
        requires
            bits == csr & 0x1Fu32,
    ;
    if bits == 0 {
        Some(ClockSource::NoClock)
    } else if bits == 2 {
        Some(ClockSource::FastClock)
    } else if bits == 4 {
        Some(ClockSource::SlowClock)
    } else {
        None
    }
}

/// Sends the characters of `s` one after the other, each as one word.
pub fn print(s: &str, ops: &mut Vec<RegOp>)
    ensures
        final(ops)@ == old(ops)@ + print_ops(s@),
{
    let n = s.unicode_len();
    let mut i: usize = 0;
    assert(ops@ =~= old(ops)@ + print_ops(s@.take(0)));
    while i < n
        invariant
            i <= n,
            n == s@.len(),
            ops@ == old(ops)@ + print_ops(s@.take(i as int)),
        decreases n - i,
    {
        let ch = s.get_char(i);
        let ghost before = ops@;
        send_word(ch as u32, ops);
        proof {
            let done = s@.take(i as int);
            let next = s@.take(i + 1);
            assert(next.drop_last() =~= done);
            assert(next.last() == ch);
            assert(ops@ =~= old(ops)@ + print_ops(next));
        }
        i += 1;
    }
    assert(s@.take(n as int) =~= s@);
}

/// Sends one word.
fn send_word(word: u32, ops: &mut Vec<RegOp>)
    ensures
        final(ops)@ == old(ops)@ + word_ops(word),
{
    ops.push(RegOp::WaitUntil { addr: FLAGS, value: FLAG_TFL, mask: FLAG_TFL });
    ops.push(RegOp::ModifyAtomic { addr: FLAGSCLEAR, value: FLAG_TFL, mask: FLAG_TFL });
    ops.push(RegOp::ModifyAtomic { addr: TXDATA, value: word, mask: ALL_BITS });
    assert(ops@ =~= old(ops)@ + word_ops(word));
}

/// Sends `buf` byte by byte.
pub(crate) fn send_bytes(buf: &[u8], ops: &mut Vec<RegOp>)
    ensures
        final(ops)@ == old(ops)@ + send_ops(buf@),
{
    let n = buf.len();
    let mut i: usize = 0;
    assert(ops@ =~= old(ops)@ + send_ops(buf@.take(0)));
    while i < n
        invariant
            i <= n,
            n == buf@.len(),
            ops@ == old(ops)@ + send_ops(buf@.take(i as int)),
        decreases n - i,
    {
        let byte = buf[i];
        send_word(byte as u32, ops);
        proof {
            let done = buf@.take(i as int);
            let next = buf@.take(i + 1);
            assert(next.drop_last() =~= done);
            assert(next.last() == byte);
            assert(ops@ =~= old(ops)@ + send_ops(next));
        }
        i += 1;
    }
    assert(buf@.take(n as int) =~= buf@);
}

/// The first half of the initialization of the serial module, waiting for
/// the word that the clock selection register held at its end.
pub struct UartInit {
    config: NodeConfig,
}

impl UartInit {
    /// The configuration being programmed.
    pub closed spec fn config(&self) -> NodeConfig {
        self.config
    }

    #[verifier::type_invariant]
    closed spec fn well_formed(&self) -> bool {
        self.config.supported() && self.config.pins.in_range()
    }

    /// The second half of the initialization. `csr` is the word that the
    /// read at the end of the first half observed; the clock source it names
    /// is the one that the bit timing restores.
    pub fn finish(self, csr: u32, ops: &mut Vec<RegOp>)
        requires
            clock_source_of(csr) is Some,
        ensures
            final(ops)@ == old(ops)@ + uart_closing_ops(self.config(), clock_source_of(csr)->0),
    {
        proof {
            use_type_invariant(&self);
        }
        let config = self.config;
        let ghost start = ops@;
        let ghost prior = clock_source_of(csr)->0;
        set_bit_timing(&config, csr, ops);
        let ghost done = sampling_ops(config, prior);
        set_clock_source(ClockSource::NoClock, ops);
        proof {
            lemma_queue_grows(start, done, clock_select_ops(ClockSource::NoClock));
            done = done + clock_select_ops(ClockSource::NoClock);
        }
        emit(
            ops,
            RegOp::Modify { addr: IOCR, value: put_flag(config.loop_back, IOCR_LB), mask: IOCR_LB },
        );
        proof {
            lemma_queue_grows(start, done, loop_back_ops(config.loop_back));
            done = done + loop_back_ops(config.loop_back);
        }
        program_frame(&config.frame, ops);
        proof {
            lemma_queue_grows(start, done, frame_ops(config.frame));
            done = done + frame_ops(config.frame);
        }
        program_fifo(&config.fifo, ops);
        proof {
            lemma_queue_grows(start, done, fifo_ops(config.fifo));
            done = done + fifo_ops(config.fifo);
        }
        port_mapping(&config.pins, ops);
        proof {
            lemma_queue_grows(start, done, port_mapping_ops(config.pins));
            done = done + port_mapping_ops(config.pins);
        }
        set_clock_source(config.clock_source, ops);
        proof {
            lemma_queue_grows(start, done, clock_select_ops(config.clock_source));
            done = done + clock_select_ops(config.clock_source);
        }
        program_default_flags(ops);
        proof {
            lemma_queue_grows(start, done, default_flags_ops());
            done = done + default_flags_ops();
        }
        program_interrupts(&config.interrupt, ops);
        proof {
            lemma_queue_grows(start, done, interrupt_ops(config.interrupt));
            done = done + interrupt_ops(config.interrupt);
        }
        program_enable_transfers(ops);
        proof {
            lemma_queue_grows(start, done, enable_transfers_ops());
            done = done + enable_transfers_ops();
        }
        emit(ops, RegOp::ModifyAtomic { addr: FLAGSSET, value: FLAG_TFL, mask: FLAG_TFL });
        proof {
            lemma_queue_grows(start, done, start_flag_ops());
            done = done + start_flag_ops();
            assert(done == uart_closing_ops(self.config(), prior));
        }
    }
}

/// Initializes the serial module, first half: enables the module, switches
/// the clock off, enters the initialization mode, programs the prescaler,
/// selects the configured clock and reads the clock selection register. The
/// word that this read observes goes to [`UartInit::finish`].
pub fn init_uart(config: NodeConfig, ops: &mut Vec<RegOp>) -> (next: UartInit)
    requires
        config.supported(),
        config.pins.in_range(),
    ensures
        final(ops)@ == old(ops)@ + uart_opening_ops(config),
        next.config() == config,
{
    let ghost start = ops@;
    enable_uart_module(ops);
    let ghost done = module_enable_ops();
    set_clock_source(ClockSource::NoClock, ops);
    proof {
        lemma_queue_grows(start, done, clock_select_ops(ClockSource::NoClock));
        done = done + clock_select_ops(ClockSource::NoClock);
    }
    emit(
        ops,
        RegOp::Modify {
            addr: FRAMECON,
            value: put_field(0, FRAMECON_MODE_SHIFT, FRAMECON_MODE),
            mask: FRAMECON_MODE,
        },
    );
    proof {
        lemma_queue_grows(start, done, init_frame_mode_ops());
        done = done + init_frame_mode_ops();
    }
    emit(
        ops,
        RegOp::Modify {
            addr: BITCON,
            value: put_field((config.baud_rate.prescaler - 1) as u32, 0, BITCON_PRESCALER),
            mask: BITCON_PRESCALER,
        },
    );
    proof {
        lemma_queue_grows(start, done, prescaler_ops(config.baud_rate));
        done = done + prescaler_ops(config.baud_rate);
    }
    set_clock_source(config.clock_source, ops);
    proof {
        lemma_queue_grows(start, done, clock_select_ops(config.clock_source));
        done = done + clock_select_ops(config.clock_source);
    }
    emit(ops, RegOp::Read { addr: CSR });
    proof {
        lemma_queue_grows(start, done, seq![RegOp::Read { addr: CSR }]);
        done = done + seq![RegOp::Read { addr: CSR }];
        assert(done == uart_opening_ops(config));
    }
    UartInit { config }
}

/// Enables the module inside a privileged-write window and waits until it
/// runs.
pub fn enable_uart_module(ops: &mut Vec<RegOp>)
    ensures
        final(ops)@ == old(ops)@ + module_enable_ops(),
{
    ops.push(RegOp::ClearEndinit);
    ops.push(RegOp::ModifyAtomic { addr: CLC, value: 0, mask: CLC_DISR });
    ops.push(RegOp::WaitUntil { addr: CLC, value: 0, mask: CLC_DISR });
    ops.push(RegOp::SetEndinit);
    assert(ops@ =~= old(ops)@ + module_enable_ops());
}

/// Switches the clock source and waits until the hardware has followed.
pub fn set_clock_source(source: ClockSource, ops: &mut Vec<RegOp>)
    ensures
        final(ops)@ == old(ops)@ + clock_select_ops(source),
{
    let code: u8 = source.into();
    ops.push(
        RegOp::Modify { addr: CSR, value: put_field(code as u32, 0, CSR_CLKSEL), mask: CSR_CLKSEL },
    );
    let connected = match source {
        ClockSource::NoClock => false,
        _ => true,
    };
    ops.push(RegOp::WaitUntil { addr: CSR, value: put_flag(connected, CSR_CON), mask: CSR_CON });
    assert(ops@ =~= old(ops)@ + clock_select_ops(source));
}

/// The bits of oversampling, sample point and sample mode.
pub(crate) fn sampling_word(baud_rate: &BaudRateConfig, bit_timing: &BitTimingConfig) -> (bits: u32)
    requires
        baud_rate.in_range(),
    ensures
        bits == sampling_bits(*baud_rate, *bit_timing),
{
    let mut over_sampling_factor: u8 = baud_rate.over_sampling_factor + 1;
    if over_sampling_factor < MIN_OVERSAMPLING {
        over_sampling_factor = MIN_OVERSAMPLING;
    }
    let mut sample_point_position: u8 = bit_timing.sample_point_position;
    if sample_point_position < MIN_SAMPLE_POINT {
        sample_point_position = MIN_SAMPLE_POINT;
    }
    put_field((over_sampling_factor - 1) as u32, BITCON_OVERSAMPLING_SHIFT, BITCON_OVERSAMPLING)
        | put_field(
        sample_point_position as u32,
        BITCON_SAMPLEPOINT_SHIFT,
        BITCON_SAMPLEPOINT,
    ) | put_flag(bit_timing.median_filter, BITCON_SM)
}

/// The write that programs the fraction of the baud rate generator.
pub(crate) fn fraction_write() -> (op: RegOp)
    ensures
        op == fraction_op(),
{
    RegOp::Modify {
        addr: BRG,
        value: put_field(DENOMINATOR, 0, BRG_DENOMINATOR) | put_field(
            NUMERATOR,
            BRG_NUMERATOR_SHIFT,
            BRG_NUMERATOR,
        ),
        mask: BRG_DENOMINATOR | BRG_NUMERATOR,
    }
}

/// Programs the fraction and the sampling fields with the clock switched
/// off, and restores the clock source that `csr`, the word read from the
/// clock selection register just before, names.
pub fn set_bit_timing(config: &NodeConfig, csr: u32, ops: &mut Vec<RegOp>)
    requires
        config.baud_rate.in_range(),
        clock_source_of(csr) is Some,
    ensures
        final(ops)@ == old(ops)@ + sampling_ops(*config, clock_source_of(csr)->0),
{
    let prior = match clock_source_in(csr) {
        Some(source) => source,
        None => ClockSource::NoClock,
    };
    set_clock_source(ClockSource::NoClock, ops);
    ops.push(fraction_write());
    ops.push(
        RegOp::Modify {
            addr: BITCON,
            value: sampling_word(&config.baud_rate, &config.bit_timing),
            mask: SAMPLING_MASK,
        },
    );
    set_clock_source(prior, ops);
    assert(ops@ =~= old(ops)@ + sampling_ops(*config, clock_source_of(csr)->0));
}

/// Programs the shape of a frame.
pub(crate) fn program_frame(frame: &FrameConfig, ops: &mut Vec<RegOp>)
    ensures
        final(ops)@ == old(ops)@ + frame_ops(*frame),
{
    let mode: u8 = frame.frame_mode.into();
    ops.push(
        RegOp::Modify {
            addr: FRAMECON,
            value: put_flag(frame.parity_bit, FRAMECON_PEN) | put_flag(
                frame.parity_type,
                FRAMECON_ODD,
            ) | put_field(frame.stop_bit as u32, FRAMECON_STOP_SHIFT, FRAMECON_STOP) | put_flag(
                frame.shift_dir,
                FRAMECON_MSB,
            ) | put_field(frame.idle_delay as u32, FRAMECON_IDLE_SHIFT, FRAMECON_IDLE) | put_field(
                mode as u32,
                FRAMECON_MODE_SHIFT,
                FRAMECON_MODE,
            ),
            mask: FRAME_MASK,
        },
    );
    ops.push(
        RegOp::Modify {
            addr: DATCON,
            value: put_field(frame.data_length as u32, 0, DATCON_DATLEN),
            mask: DATCON_DATLEN,
        },
    );
    assert(ops@ =~= old(ops)@ + frame_ops(*frame));
}

/// The bits of width, interrupt level and interrupt mode of a FIFO.
fn fifo_word(width: u8, level: u8, mode: u8) -> (bits: u32)
    ensures
        bits == fifo_bits(width, level, mode),
{
    put_field(width as u32, FIFOCON_WIDTH_SHIFT, FIFOCON_WIDTH) | put_field(
        level as u32,
        FIFOCON_INTLEVEL_SHIFT,
        FIFOCON_INTLEVEL,
    ) | put_field(mode as u32, FIFOCON_FM_SHIFT, FIFOCON_FM)
}

/// Programs the FIFOs.
pub(crate) fn program_fifo(fifo: &FifoConfig, ops: &mut Vec<RegOp>)
    ensures
        final(ops)@ == old(ops)@ + fifo_ops(*fifo),
{
    ops.push(
        RegOp::Modify {
            addr: TXFIFOCON,
            value: fifo_word(
                fifo.in_width,
                fifo.tx_fifo_interrupt_level,
                fifo.tx_fifo_interrupt_mode,
            ),
            mask: FIFO_MASK,
        },
    );
    ops.push(
        RegOp::Modify {
            addr: RXFIFOCON,
            value: fifo_word(
                fifo.out_width,
                fifo.rx_fifo_interrupt_level,
                fifo.rx_fifo_interrupt_mode,
            ),
            mask: FIFO_MASK,
        },
    );
    assert(ops@ =~= old(ops)@ + fifo_ops(*fifo));
}

/// Resets the flags and enables the default error flags.
pub(crate) fn program_default_flags(ops: &mut Vec<RegOp>)
    ensures
        final(ops)@ == old(ops)@ + default_flags_ops(),
{
    ops.push(RegOp::Modify { addr: FLAGSENABLE, value: 0, mask: ALL_BITS });
    ops.push(RegOp::ModifyAtomic { addr: FLAGSCLEAR, value: ALL_BITS, mask: ALL_BITS });
    ops.push(
        RegOp::Modify { addr: FLAGSENABLE, value: DEFAULT_ERROR_FLAGS, mask: DEFAULT_ERROR_FLAGS },
    );
    assert(ops@ =~= old(ops)@ + default_flags_ops());
}

/// Routes one interrupt channel, unless its priority is zero.
fn program_channel(node: u32, flag_bit: u32, priority: u8, tos: Tos, ops: &mut Vec<RegOp>)
    ensures
        final(ops)@ == old(ops)@ + channel_ops(node, flag_bit, priority, tos),
{
    if priority > 0 {
        let target: u8 = tos.into();
        ops.push(
            RegOp::Modify {
                addr: node,
                value: put_field(priority as u32, 0, SRPN) | put_field(
                    target as u32,
                    TOS_SHIFT,
                    TOS,
                ) | CLRR,
                mask: ROUTE_MASK,
            },
        );
        ops.push(RegOp::Modify { addr: FLAGSENABLE, value: flag_bit, mask: flag_bit });
        ops.push(RegOp::Modify { addr: node, value: SRE, mask: SRE });
    }
    assert(ops@ =~= old(ops)@ + channel_ops(node, flag_bit, priority, tos));
}

/// Routes the interrupts of the receive, transmit and error channels.
pub(crate) fn program_interrupts(interrupt: &InterruptConfig, ops: &mut Vec<RegOp>)
    requires
        interrupt.routed_to_primary_core(),
    ensures
        final(ops)@ == old(ops)@ + interrupt_ops(*interrupt),
{
    let tos = interrupt.type_of_service;
    program_channel(SRC_RX, FLAG_RFL, interrupt.rx_priority, tos, ops);
    program_channel(SRC_TX, FLAG_TFL, interrupt.tx_priority, tos, ops);
    program_channel(SRC_ERR, FLAG_PE, interrupt.er_priority, tos, ops);
    assert(ops@ =~= old(ops)@ + interrupt_ops(*interrupt));
}

/// Enables the FIFOs and flushes them.
pub(crate) fn program_enable_transfers(ops: &mut Vec<RegOp>)
    ensures
        final(ops)@ == old(ops)@ + enable_transfers_ops(),
{
    ops.push(
        RegOp::Modify {
            addr: RXFIFOCON,
            value: FIFOCON_ENABLE | FIFOCON_FLUSH,
            mask: FIFOCON_ENABLE | FIFOCON_FLUSH,
        },
    );
    ops.push(
        RegOp::Modify {
            addr: TXFIFOCON,
            value: FIFOCON_ENABLE | FIFOCON_FLUSH,
            mask: FIFOCON_ENABLE | FIFOCON_FLUSH,
        },
    );
    assert(ops@ =~= old(ops)@ + enable_transfers_ops());
}

} // verus!
