//! Peripheral driver engines for the STM32MP15xx Cortex-M4 coprocessor,
//! modeled over a plain-value register file and verified with Verus.
//!
//! The crate covers the asynchronous, interrupt-driven I/O core of the chip
//! layer: the USART transmit/receive state machines, the timer-based deadline
//! scheduler with wraparound-safe tick arithmetic, and the DMA stream
//! buffer-handoff engine.  Memory-mapped register access, the interrupt
//! controller and the kernel glue are external collaborators; the engines here
//! work on an owned model of the register bits they read and write, and the
//! hardware side of each peripheral (a counter tick, a transferred item) is a
//! transition function of its own, so that every state an engine can reach is
//! covered by the proofs.

use vstd::prelude::*;

pub mod chip;
pub mod deferred_calls;
pub mod dma1;
pub mod gpio;
pub mod nvic;
pub mod rcc;
pub mod resource_table;
pub mod tim;
pub mod trace;
pub mod usart;

verus! {

/// Outcome codes reported to callers and completion callbacks.
#[derive(Clone, Copy, Debug, PartialEq, Eq, Structural)]
pub enum ErrorCode {
    /// An operation is already active; the caller may retry later.
    Busy,
    /// The requested length exceeds the buffer's capacity.
    Size,
    /// The operation was aborted; the buffer carries the progress reached.
    Cancel,
    /// The operation is not supported by this engine.
    Fail,
}

} // verus!
