//! Type-state control of the GPIO pins and the serial peripherals of a
//! multi-core automotive microcontroller.
//!
//! A pin or a peripheral is a value whose type says which configuration the
//! hardware is in, so that only the operations that are legal in that
//! configuration can be called. What an operation does to the hardware is a
//! sequence of register transactions ([`reg::RegOp`]): the operation appends
//! them to a queue, in the order the hardware asks for, and whoever owns
//! the bus performs them. Every operation states exactly which
//! transactions it issues, and what holds of their order is proved:
//!
//! - a change of mode touches the configuration byte of its own pin only,
//!   and none at all where the pin is in that mode already
//!   ([`gpio::convert`]);
//! - bit timing is never written while a clock is selected, and an
//!   interrupt channel is routed exactly when its priority is above zero
//!   ([`uart::ordering`]);
//! - every privileged-write window that is opened is closed again
//!   ([`reg::windows_paired`]).

pub mod gpio;
pub mod interrupt;
pub mod reg;
mod sealed;
pub mod timer;
pub mod uart;

pub(crate) use sealed::Sealed;
