//! Register map of the first serial module: addresses, and for each field
//! its mask and bit position. The fields of its service request nodes are
//! those of every such node.

use vstd::prelude::*;

verus! {

/// Clock control register.
pub const CLC: u32 = 0xF000_0600;

/// Module disable request bit: zero asks for the module to run.
pub const CLC_DISR: u32 = 0x0000_0001;

/// Input and output control register.
pub const IOCR: u32 = 0xF000_0604;

/// Alternate input selection.
pub const IOCR_ALTI: u32 = 0x0000_0007;

/// Loop-back mode.
pub const IOCR_LB: u32 = 0x1000_0000;

/// Transmit FIFO configuration register.
pub const TXFIFOCON: u32 = 0xF000_060C;

/// Receive FIFO configuration register.
pub const RXFIFOCON: u32 = 0xF000_0610;

/// Flush the FIFO.
pub const FIFOCON_FLUSH: u32 = 0x0000_0001;

/// Enable the transmit FIFO outlet, or the receive FIFO inlet.
pub const FIFOCON_ENABLE: u32 = 0x0000_0002;

/// Interrupt generation mode of a FIFO.
pub const FIFOCON_FM: u32 = 0x0000_0030;

pub const FIFOCON_FM_SHIFT: u32 = 4;

/// Inlet width of the transmit FIFO, or outlet width of the receive FIFO.
pub const FIFOCON_WIDTH: u32 = 0x0000_00C0;

pub const FIFOCON_WIDTH_SHIFT: u32 = 6;

/// Interrupt level of a FIFO.
pub const FIFOCON_INTLEVEL: u32 = 0x0000_0F00;

pub const FIFOCON_INTLEVEL_SHIFT: u32 = 8;

/// Bit configuration register.
pub const BITCON: u32 = 0xF000_0614;

/// Prescaling of the fractional divider.
pub const BITCON_PRESCALER: u32 = 0x0000_0FFF;

/// Oversampling factor.
pub const BITCON_OVERSAMPLING: u32 = 0x000F_0000;

pub const BITCON_OVERSAMPLING_SHIFT: u32 = 16;

/// Sample point position.
pub const BITCON_SAMPLEPOINT: u32 = 0x0F00_0000;

pub const BITCON_SAMPLEPOINT_SHIFT: u32 = 24;

/// Sample mode: three samples with a median filter.
pub const BITCON_SM: u32 = 0x8000_0000;

/// Frame control register.
pub const FRAMECON: u32 = 0xF000_0618;

/// Duration of the idle delay.
pub const FRAMECON_IDLE: u32 = 0x0000_01C0;

pub const FRAMECON_IDLE_SHIFT: u32 = 6;

/// Number of stop bits.
pub const FRAMECON_STOP: u32 = 0x0000_0E00;

pub const FRAMECON_STOP_SHIFT: u32 = 9;

/// Mode of operation.
pub const FRAMECON_MODE: u32 = 0x0003_0000;

pub const FRAMECON_MODE_SHIFT: u32 = 16;

/// Shift direction.
pub const FRAMECON_MSB: u32 = 0x1000_0000;

/// Parity enable.
pub const FRAMECON_PEN: u32 = 0x4000_0000;

/// Parity type.
pub const FRAMECON_ODD: u32 = 0x8000_0000;

/// Data configuration register.
pub const DATCON: u32 = 0xF000_061C;

/// Data length.
pub const DATCON_DATLEN: u32 = 0x0000_000F;

/// Baud rate generation register.
pub const BRG: u32 = 0xF000_0620;

/// Denominator of the fractional divider.
pub const BRG_DENOMINATOR: u32 = 0x0000_0FFF;

/// Numerator of the fractional divider.
pub const BRG_NUMERATOR: u32 = 0x0FFF_0000;

pub const BRG_NUMERATOR_SHIFT: u32 = 16;

/// Flags register.
pub const FLAGS: u32 = 0xF000_0634;

/// Flags set register.
pub const FLAGSSET: u32 = 0xF000_0638;

/// Flags clear register.
pub const FLAGSCLEAR: u32 = 0xF000_063C;

/// Flags enable register.
pub const FLAGSENABLE: u32 = 0xF000_0640;

/// Parity error flag.
pub const FLAG_PE: u32 = 0x0001_0000;

/// Framing error flag.
pub const FLAG_FE: u32 = 0x0004_0000;

/// Receive FIFO overflow flag.
pub const FLAG_RFO: u32 = 0x0400_0000;

/// Receive FIFO underflow flag.
pub const FLAG_RFU: u32 = 0x0800_0000;

/// Receive FIFO level flag.
pub const FLAG_RFL: u32 = 0x1000_0000;

/// Transmit FIFO overflow flag.
pub const FLAG_TFO: u32 = 0x4000_0000;

/// Transmit FIFO level flag.
pub const FLAG_TFL: u32 = 0x8000_0000;

/// The error flags that are enabled by default: parity, framing, receive
/// FIFO overflow and underflow, transmit FIFO overflow.
pub const DEFAULT_ERROR_FLAGS: u32 = 0x4C05_0000;

/// Every bit of a register.
pub const ALL_BITS: u32 = 0xFFFF_FFFF;

/// Transmit data register.
pub const TXDATA: u32 = 0xF000_0644;

/// Clock selection register.
pub const CSR: u32 = 0xF000_064C;

/// Baud rate logic clock select.
pub const CSR_CLKSEL: u32 = 0x0000_001F;

/// Clock on: the selected clock is connected.
pub const CSR_CON: u32 = 0x8000_0000;

/// Service request node of the transmit channel.
pub const SRC_TX: u32 = 0xF003_8050;

/// Service request node of the receive channel.
pub const SRC_RX: u32 = 0xF003_8054;

/// Service request node of the error channel.
pub const SRC_ERR: u32 = 0xF003_8058;

/// Denominator programmed into the baud rate generator.
pub const DENOMINATOR: u32 = 434;

/// Numerator programmed into the baud rate generator.
pub const NUMERATOR: u32 = 1;

} // verus!
