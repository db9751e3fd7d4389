//! USART driver engine: two independent half-duplex state machines (transmit
//! and receive) over one serial port.
//!
//! A caller submits a buffer; the engine takes ownership of it, programs the
//! interrupt-enable bits of its register model, and advances one byte per
//! interrupt.  On completion, abort or overrun the handler hands the buffer
//! back exactly once, as a completion value carrying the result, which the
//! dispatcher forwards to the registered client.  The hardware status bits
//! (transmit register empty, receive register not empty, overrun) reach the
//! handler as a snapshot read from the status register.

use vstd::prelude::*;

use crate::rcc::PeripheralClock;
use crate::ErrorCode;

verus! {

/// Base address of the USART1 register block.
pub const USART1_BASE: u32 = 0x5C00_0000;

/// Base address of the USART2 register block.
pub const USART2_BASE: u32 = 0x4000_E000;

/// Base address of the USART3 register block.
pub const USART3_BASE: u32 = 0x4000_F000;

/// Byte offset of the data register inside a USART register block, used by
/// the DMA engine as the fixed peripheral-side address of a stream.
pub const DR_OFFSET: u32 = 0x28;

/// Address of the data register of the USART block at `base`.
pub(crate) fn get_address_dr(base: u32) -> (r: u32)
    requires
        base + DR_OFFSET <= u32::MAX,
    ensures
        r == base + DR_OFFSET,
{
    base + DR_OFFSET
}

/// Number of stop bits of a serial frame.
#[derive(Clone, Copy, Debug, PartialEq, Eq, Structural)]
pub enum StopBits {
    One,
    Two,
}

/// Parity of a serial frame.
#[derive(Clone, Copy, Debug, PartialEq, Eq, Structural)]
pub enum Parity {
    NoParity,
    Even,
    Odd,
}

/// Data bits of a serial frame.
#[derive(Clone, Copy, Debug, PartialEq, Eq, Structural)]
pub enum Width {
    Six,
    Seven,
    Eight,
}

/// A requested serial line configuration.
#[derive(Clone, Copy, Debug, PartialEq, Eq, Structural)]
pub struct Parameters {
    pub baud_rate: u32,
    pub width: Width,
    pub parity: Parity,
    pub stop_bits: StopBits,
    pub hw_flow_control: bool,
}

/// Hardware-side condition reported together with a receive completion.
#[derive(Clone, Copy, Debug, PartialEq, Eq, Structural)]
pub enum UartError {
    NoError,
    Aborted,
    OverrunError,
}

/// State of the transmit machine.
#[derive(Clone, Copy, Debug, PartialEq, Eq, Structural)]
pub enum USARTStateTX {
    Idle,
    Transmitting,
    AbortRequested,
}

/// State of the receive machine.
#[derive(Clone, Copy, Debug, PartialEq, Eq, Structural)]
pub enum USARTStateRX {
    Idle,
    Receiving,
    AbortRequested,
}

/// The control and data register bits the engine reads and writes, as plain
/// values.  The status register is hardware-owned and reaches the interrupt
/// handler as an [`InterruptStatus`] snapshot instead.
#[derive(Clone, Copy, Debug, PartialEq, Eq, Structural)]
pub struct UsartRegisters {
    /// CR1 TXEIE: transmit-register-empty interrupt enable.
    pub txeie: bool,
    /// CR1 RXNEIE: receive-register-not-empty interrupt enable.
    pub rxneie: bool,
    /// CR1 TE: transmitter enable.
    pub te: bool,
    /// CR1 RE: receiver enable.
    pub re: bool,
    /// CR1 UE: USART enable.
    pub ue: bool,
    /// CR1 M0/M1: word length selection.
    pub m0: bool,
    pub m1: bool,
    /// CR1 PCE: parity control enable.
    pub pce: bool,
    /// CR2 STOP: stop-bit count field.
    pub stop: u8,
    /// BRR mantissa and fraction of the baud-rate divisor.
    pub brr_mantissa: u32,
    pub brr_fraction: u32,
    /// TDR: the byte most recently written to the transmit data register.
    pub tdr: u8,
}

/// Snapshot of the hardware status register, read by the dispatcher when the
/// port's interrupt fires and handed to [`Usart::handle_interrupt`].
#[derive(Clone, Copy, Debug, PartialEq, Eq, Structural)]
pub struct InterruptStatus {
    /// ISR TXE: the transmit data register is empty.
    pub txe: bool,
    /// ISR RXNE: the receive data register holds a byte.
    pub rxne: bool,
    /// RDR: the received byte, meaningful when `rxne` is set.
    pub rdr: u8,
    /// ISR ORE: a byte was lost because the previous one was not read.
    pub ore: bool,
}

/// A finished transmit operation: the buffer moves back to the caller, with
/// the number of bytes handed to the hardware and the outcome.
#[derive(Debug)]
pub struct TxCompletion {
    pub buffer: Vec<u8>,
    pub length: usize,
    pub status: Result<(), ErrorCode>,
}

/// A finished receive operation: the buffer moves back to the caller, with
/// the number of bytes received, the outcome, and the hardware condition.
#[derive(Debug)]
pub struct RxCompletion {
    pub buffer: Vec<u8>,
    pub length: usize,
    pub status: Result<(), ErrorCode>,
    pub error: UartError,
}

/// Mathematical model of a [`TxCompletion`].
pub struct TxCompletionView {
    pub buffer: Seq<u8>,
    pub length: nat,
    pub status: Result<(), ErrorCode>,
}

/// Mathematical model of an [`RxCompletion`].
pub struct RxCompletionView {
    pub buffer: Seq<u8>,
    pub length: nat,
    pub status: Result<(), ErrorCode>,
    pub error: UartError,
}

impl View for TxCompletion {
    type V = TxCompletionView;

    open spec fn view(&self) -> TxCompletionView {
        TxCompletionView {
            buffer: self.buffer@,
            length: self.length as nat,
            status: self.status,
        }
    }
}

impl View for RxCompletion {
    type V = RxCompletionView;

    open spec fn view(&self) -> RxCompletionView {
        RxCompletionView {
            buffer: self.buffer@,
            length: self.length as nat,
            status: self.status,
            error: self.error,
        }
    }
}

/// View of an optional transmit completion.
pub open spec fn tx_completion_view(c: Option<TxCompletion>) -> Option<TxCompletionView> {
    match c {
        Some(x) => Some(x@),
        None => None,
    }
}

/// View of an optional receive completion.
pub open spec fn rx_completion_view(c: Option<RxCompletion>) -> Option<RxCompletionView> {
    match c {
        Some(x) => Some(x@),
        None => None,
    }
}

/// The USART engine.  Each direction holds at most one operation: an owned
/// buffer, a target length, a progress position and a state tag.
pub struct Usart {
    /// Base address of this port's register block; an identity, the registers
    /// themselves are modeled in `registers`.
    pub base_address: u32,
    pub registers: UsartRegisters,
    pub clock: PeripheralClock,
    pub tx_buffer: Option<Vec<u8>>,
    pub tx_position: usize,
    pub tx_len: usize,
    pub tx_status: USARTStateTX,
    pub rx_buffer: Option<Vec<u8>>,
    pub rx_position: usize,
    pub rx_len: usize,
    pub rx_status: USARTStateRX,
}

/// Mathematical model of a [`Usart`]: the buffers as sequences, positions and
/// lengths as naturals.
pub struct UsartView {
    pub base_address: u32,
    pub registers: UsartRegisters,
    pub tx_buffer: Option<Seq<u8>>,
    pub tx_position: nat,
    pub tx_len: nat,
    pub tx_status: USARTStateTX,
    pub rx_buffer: Option<Seq<u8>>,
    pub rx_position: nat,
    pub rx_len: nat,
    pub rx_status: USARTStateRX,
}

impl View for Usart {
    type V = UsartView;

    open spec fn view(&self) -> UsartView {
        UsartView {
            base_address: self.base_address,
            registers: self.registers,
            tx_buffer: match self.tx_buffer {
                Some(b) => Some(b@),
                None => None,
            },
            tx_position: self.tx_position as nat,
            tx_len: self.tx_len as nat,
            tx_status: self.tx_status,
            rx_buffer: match self.rx_buffer {
                Some(b) => Some(b@),
                None => None,
            },
            rx_position: self.rx_position as nat,
            rx_len: self.rx_len as nat,
            rx_status: self.rx_status,
        }
    }
}

impl UsartView {
    /// Well-formedness: a direction is idle exactly when it holds no buffer
    /// (at most one operation per direction, and a held buffer is returned
    /// before the direction is idle again), and progress stays within the
    /// target length, which fits the buffer.
    pub open spec fn wf(self) -> bool {
        &&& (self.tx_status is Idle <==> self.tx_buffer is None)
        &&& (self.tx_buffer matches Some(b) ==> self.tx_position <= self.tx_len <= b.len())
        &&& (self.rx_status is Idle <==> self.rx_buffer is None)
        &&& (self.rx_buffer matches Some(b) ==> self.rx_position <= self.rx_len <= b.len())
    }

    /// The reset state of a port at `base_address`: both directions idle, no
    /// buffer held, every modeled register bit clear.
    pub open spec fn init(base_address: u32) -> UsartView {
        UsartView {
            base_address: base_address,
            registers: UsartRegisters {
                txeie: false,
                rxneie: false,
                te: false,
                re: false,
                ue: false,
                m0: false,
                m1: false,
                pce: false,
                stop: 0,
                brr_mantissa: 0,
                brr_fraction: 0,
                tdr: 0,
            },
            tx_buffer: None,
            tx_position: 0,
            tx_len: 0,
            tx_status: USARTStateTX::Idle,
            rx_buffer: None,
            rx_position: 0,
            rx_len: 0,
            rx_status: USARTStateRX::Idle,
        }
    }

    /// Transition of the transmit machine on one interrupt, given the TXE
    /// status bit.  The interrupt source is masked first; if a transmission
    /// is active, the next byte goes to the data register and progress
    /// advances; reaching the target length completes the operation and
    /// returns the buffer with success.  If an abort was requested, the
    /// buffer returns at once with `Cancel` and the progress reached.
    pub open spec fn spec_tx_step(pre: UsartView, txe: bool) -> (UsartView, Option<
        TxCompletionView,
    >) {
        if !txe {
            (pre, None::<TxCompletionView>)
        } else if pre.tx_status is Transmitting && pre.tx_buffer is Some {
            let b = pre.tx_buffer->0;
            let tdr2 = if pre.tx_position < pre.tx_len {
                b[pre.tx_position as int]
            } else {
                pre.registers.tdr
            };
            let pos2 = if pre.tx_position < pre.tx_len {
                (pre.tx_position + 1) as nat
            } else {
                pre.tx_position
            };
            if pos2 == pre.tx_len {
                (
                    UsartView {
                        registers: UsartRegisters { txeie: false, tdr: tdr2, ..pre.registers },
                        tx_status: USARTStateTX::Idle,
                        tx_buffer: None,
                        tx_position: pos2,
                        ..pre
                    },
                    Some(TxCompletionView { buffer: b, length: pre.tx_len, status: Ok(()) }),
                )
            } else {
                (
                    UsartView {
                        registers: UsartRegisters { txeie: true, tdr: tdr2, ..pre.registers },
                        tx_position: pos2,
                        ..pre
                    },
                    None::<TxCompletionView>,
                )
            }
        } else if pre.tx_status is AbortRequested && pre.tx_buffer is Some {
            (
                UsartView {
                    registers: UsartRegisters { txeie: false, ..pre.registers },
                    tx_status: USARTStateTX::Idle,
                    tx_buffer: None,
                    ..pre
                },
                Some(
                    TxCompletionView {
                        buffer: pre.tx_buffer->0,
                        length: pre.tx_position,
                        status: Err(ErrorCode::Cancel),
                    },
                ),
            )
        } else {
            // Not transmitting: the interrupt is ignored beyond masking the
            // source.
            (
                UsartView { registers: UsartRegisters { txeie: false, ..pre.registers }, ..pre },
                None::<TxCompletionView>,
            )
        }
    }

    /// Transition of the receive machine on one interrupt, given the RXNE
    /// status bit and the byte in the receive data register.
    pub open spec fn spec_rx_step(pre: UsartView, rxne: bool, byte: u8) -> (UsartView, Option<
        RxCompletionView,
    >) {
        if !rxne {
            (pre, None::<RxCompletionView>)
        } else if pre.rx_status is Receiving && pre.rx_buffer is Some {
            let b = pre.rx_buffer->0;
            let b2 = if pre.rx_position < pre.rx_len {
                b.update(pre.rx_position as int, byte)
            } else {
                b
            };
            let pos2 = if pre.rx_position < pre.rx_len {
                (pre.rx_position + 1) as nat
            } else {
                pre.rx_position
            };
            if pos2 == pre.rx_len {
                (
                    UsartView {
                        registers: UsartRegisters { rxneie: false, ..pre.registers },
                        rx_status: USARTStateRX::Idle,
                        rx_buffer: None,
                        rx_position: pos2,
                        ..pre
                    },
                    Some(
                        RxCompletionView {
                            buffer: b2,
                            length: pre.rx_len,
                            status: Ok(()),
                            error: UartError::NoError,
                        },
                    ),
                )
            } else {
                (
                    UsartView {
                        registers: UsartRegisters { rxneie: true, ..pre.registers },
                        rx_buffer: Some(b2),
                        rx_position: pos2,
                        ..pre
                    },
                    None::<RxCompletionView>,
                )
            }
        } else if pre.rx_status is AbortRequested && pre.rx_buffer is Some {
            (
                UsartView {
                    registers: UsartRegisters { rxneie: false, ..pre.registers },
                    rx_status: USARTStateRX::Idle,
                    rx_buffer: None,
                    ..pre
                },
                Some(
                    RxCompletionView {
                        buffer: pre.rx_buffer->0,
                        length: pre.rx_position,
                        status: Err(ErrorCode::Cancel),
                        error: UartError::Aborted,
                    },
                ),
            )
        } else {
            // Not receiving: the interrupt is ignored beyond masking the
            // source.
            (
                UsartView { registers: UsartRegisters { rxneie: false, ..pre.registers }, ..pre },
                None::<RxCompletionView>,
            )
        }
    }

    /// Transition on an overrun condition: the flag is acknowledged, the
    /// receive machine resets to idle, and a held buffer returns to the
    /// caller with the progress reached.  The loss is reported, never retried.
    pub open spec fn spec_ore_step(pre: UsartView, ore: bool) -> (UsartView, Option<
        RxCompletionView,
    >) {
        if !ore {
            (pre, None::<RxCompletionView>)
        } else if pre.rx_buffer is Some {
            (
                UsartView { rx_status: USARTStateRX::Idle, rx_buffer: None, ..pre },
                Some(
                    RxCompletionView {
                        buffer: pre.rx_buffer->0,
                        length: pre.rx_position,
                        status: Err(ErrorCode::Cancel),
                        error: UartError::OverrunError,
                    },
                ),
            )
        } else {
            (UsartView { rx_status: USARTStateRX::Idle, ..pre }, None::<RxCompletionView>)
        }
    }

    /// The full interrupt transition: the transmit step, then the receive
    /// step, then the overrun step, in the order the handler checks the
    /// status bits.  At most one receive completion results, because a step
    /// that returns the buffer leaves the slot empty for the next.
    pub open spec fn spec_step(pre: UsartView, status: InterruptStatus) -> (
        UsartView,
        Option<TxCompletionView>,
        Option<RxCompletionView>,
    ) {
        let (s1, txc) = UsartView::spec_tx_step(pre, status.txe);
        let (s2, rxc) = UsartView::spec_rx_step(s1, status.rxne, status.rdr);
        let (s3, orec) = UsartView::spec_ore_step(s2, status.ore);
        (
            s3,
            txc,
            if rxc is Some {
                rxc
            } else {
                orec
            },
        )
    }
}

impl Usart {
    pub open spec fn wf(self) -> bool {
        self@.wf()
    }

    fn new(base_address: u32) -> (r: Usart)
        ensures
            r@ == UsartView::init(base_address),
    {
        Usart {
            base_address,
            registers: UsartRegisters {
                txeie: false,
                rxneie: false,
                te: false,
                re: false,
                ue: false,
                m0: false,
                m1: false,
                pce: false,
                stop: 0,
                brr_mantissa: 0,
                brr_fraction: 0,
                tdr: 0,
            },
            clock: PeripheralClock::new(),
            tx_buffer: None,
            tx_position: 0,
            tx_len: 0,
            tx_status: USARTStateTX::Idle,
            rx_buffer: None,
            rx_position: 0,
            rx_len: 0,
            rx_status: USARTStateRX::Idle,
        }
    }

    pub fn new_usart1() -> (r: Usart)
        ensures
            r@ == UsartView::init(USART1_BASE),
    {
        Usart::new(USART1_BASE)
    }

    pub fn new_usart2() -> (r: Usart)
        ensures
            r@ == UsartView::init(USART2_BASE),
    {
        Usart::new(USART2_BASE)
    }

    pub fn new_usart3() -> (r: Usart)
        ensures
            r@ == UsartView::init(USART3_BASE),
    {
        Usart::new(USART3_BASE)
    }

    pub fn is_enabled_clock(&self) -> (r: bool)
        ensures
            r == self.clock.enabled,
    {
        self.clock.is_enabled()
    }

    pub fn enable_clock(&self) {
        self.clock.enable();
    }

    pub fn disable_clock(&self) {
        self.clock.disable();
    }

    /// Write one byte straight to the transmit data register, for the panic
    /// writer.  The wait for the register to drain is the hardware's side;
    /// the model records the write.
    pub fn send_byte(&mut self, byte: u8)
        ensures
            final(self)@ == (UsartView {
                registers: UsartRegisters { tdr: byte, ..old(self)@.registers },
                ..old(self)@
            }),
    {
        self.registers.tdr = byte;
    }

    fn enable_transmit_interrupt(&mut self)
        ensures
            final(self)@ == (UsartView {
                registers: UsartRegisters { txeie: true, ..old(self)@.registers },
                ..old(self)@
            }),
    {
        self.registers.txeie = true;
    }

    fn disable_transmit_interrupt(&mut self)
        ensures
            final(self)@ == (UsartView {
                registers: UsartRegisters { txeie: false, ..old(self)@.registers },
                ..old(self)@
            }),
    {
        self.registers.txeie = false;
    }

    fn enable_receive_interrupt(&mut self)
        ensures
            final(self)@ == (UsartView {
                registers: UsartRegisters { rxneie: true, ..old(self)@.registers },
                ..old(self)@
            }),
    {
        self.registers.rxneie = true;
    }

    fn disable_receive_interrupt(&mut self)
        ensures
            final(self)@ == (UsartView {
                registers: UsartRegisters { rxneie: false, ..old(self)@.registers },
                ..old(self)@
            }),
    {
        self.registers.rxneie = false;
    }

    /// The transmit half of the interrupt handler.
    fn handle_transmit_ready(&mut self, txe: bool) -> (r: Option<TxCompletion>)
        requires
            old(self).wf(),
        ensures
            final(self).wf(),
            final(self)@ == UsartView::spec_tx_step(old(self)@, txe).0,
            tx_completion_view(r) == UsartView::spec_tx_step(old(self)@, txe).1,
    {
        if !txe {
            return None;
        }
        self.disable_transmit_interrupt();
        if self.tx_status == USARTStateTX::Transmitting {
            if self.tx_position < self.tx_len {
                let pos = self.tx_position;
                match &self.tx_buffer {
                    Some(buf) => {
                        self.registers.tdr = buf[pos];
                        self.tx_position = pos + 1;
                    },
                    None => {},
                }
            }
            if self.tx_position == self.tx_len {
                // transmission done
                self.tx_status = USARTStateTX::Idle;
            } else {
                self.enable_transmit_interrupt();
            }
            // hand the buffer back if the transfer is done
            if self.tx_status == USARTStateTX::Idle {
                match self.tx_buffer.take() {
                    Some(buf) => Some(
                        TxCompletion { buffer: buf, length: self.tx_len, status: Ok(()) },
                    ),
                    None => None,
                }
            } else {
                None
            }
        } else if self.tx_status == USARTStateTX::AbortRequested {
            self.tx_status = USARTStateTX::Idle;
            match self.tx_buffer.take() {
                Some(buf) => Some(
                    TxCompletion {
                        buffer: buf,
                        length: self.tx_position,
                        status: Err(ErrorCode::Cancel),
                    },
                ),
                None => None,
            }
        } else {
            None
        }
    }

    /// The receive half of the interrupt handler.
    fn handle_receive_ready(&mut self, rxne: bool, byte: u8) -> (r: Option<RxCompletion>)
        requires
            old(self).wf(),
        ensures
            final(self).wf(),
            final(self)@ == UsartView::spec_rx_step(old(self)@, rxne, byte).0,
            rx_completion_view(r) == UsartView::spec_rx_step(old(self)@, rxne, byte).1,
    {
        if !rxne {
            return None;
        }
        self.disable_receive_interrupt();
        if self.rx_status == USARTStateRX::Receiving {
            if self.rx_position < self.rx_len {
                let pos = self.rx_position;
                match &mut self.rx_buffer {
                    Some(buf) => {
                        buf.set(pos, byte);
                        self.rx_position = pos + 1;
                    },
                    None => {},
                }
            }
            if self.rx_position == self.rx_len {
                // reception done
                self.rx_status = USARTStateRX::Idle;
            } else {
                self.enable_receive_interrupt();
            }
            // hand the buffer back if the transfer is done
            if self.rx_status == USARTStateRX::Idle {
                match self.rx_buffer.take() {
                    Some(buf) => Some(
                        RxCompletion {
                            buffer: buf,
                            length: self.rx_len,
                            status: Ok(()),
                            error: UartError::NoError,
                        },
                    ),
                    None => None,
                }
            } else {
                None
            }
        } else if self.rx_status == USARTStateRX::AbortRequested {
            self.rx_status = USARTStateRX::Idle;
            match self.rx_buffer.take() {
                Some(buf) => Some(
                    RxCompletion {
                        buffer: buf,
                        length: self.rx_position,
                        status: Err(ErrorCode::Cancel),
                        error: UartError::Aborted,
                    },
                ),
                None => None,
            }
        } else {
            None
        }
    }

    /// The overrun half of the interrupt handler.  The hardware lost a byte;
    /// the condition is acknowledged and reported, never retried.
    fn handle_overrun(&mut self, ore: bool) -> (r: Option<RxCompletion>)
        requires
            old(self).wf(),
        ensures
            final(self).wf(),
            final(self)@ == UsartView::spec_ore_step(old(self)@, ore).0,
            rx_completion_view(r) == UsartView::spec_ore_step(old(self)@, ore).1,
    {
        if !ore {
            return None;
        }
        // The write that clears ISR.ORE goes to the interrupt flag clear
        // register, which is hardware-owned and not part of the model.
        self.rx_status = USARTStateRX::Idle;
        match self.rx_buffer.take() {
            Some(buf) => Some(
                RxCompletion {
                    buffer: buf,
                    length: self.rx_position,
                    status: Err(ErrorCode::Cancel),
                    error: UartError::OverrunError,
                },
            ),
            None => None,
        }
    }

    /// Service one interrupt of this port, given the status register
    /// snapshot.  Returns the completions to deliver to the registered
    /// clients: the interrupt dispatcher calls this and forwards them.
    pub fn handle_interrupt(&mut self, status: InterruptStatus) -> (r: (
        Option<TxCompletion>,
        Option<RxCompletion>,
    ))
        requires
            old(self).wf(),
        ensures
            final(self).wf(),
            ({
                let (post, txc, rxc) = UsartView::spec_step(old(self)@, status);
                &&& final(self)@ == post
                &&& tx_completion_view(r.0) == txc
                &&& rx_completion_view(r.1) == rxc
            }),
    {
        let txc = self.handle_transmit_ready(status.txe);
        let rxc = self.handle_receive_ready(status.rxne, status.rdr);
        let orec = self.handle_overrun(status.ore);
        let rx_out = if rxc.is_some() {
            rxc
        } else {
            orec
        };
        (txc, rx_out)
    }

    /// Submit a transmit operation.  Fails with `Size` when `tx_len` exceeds
    /// the buffer's capacity and with `Busy` when a transmission is active or
    /// aborting, handing the buffer straight back either way and leaving the
    /// engine untouched.  On success the engine owns the buffer, progress is
    /// reset, and the transmit interrupt is enabled; nothing else changes.
    pub fn transmit_buffer(&mut self, tx_data: Vec<u8>, tx_len: usize) -> (r: Result<
        (),
        (ErrorCode, Vec<u8>),
    >)
        requires
            old(self).wf(),
        ensures
            final(self).wf(),
            (old(self)@.tx_status is Idle && tx_len <= tx_data@.len()) ==> (r is Ok && final(self)@
                == (UsartView {
                registers: UsartRegisters { txeie: true, ..old(self)@.registers },
                tx_buffer: Some(tx_data@),
                tx_position: 0,
                tx_len: tx_len as nat,
                tx_status: USARTStateTX::Transmitting,
                ..old(self)@
            })),
            (old(self)@.tx_status is Idle && tx_len > tx_data@.len()) ==> ({
                &&& final(self)@ == old(self)@
                &&& r matches Err(p) && p.0 == ErrorCode::Size && p.1@ == tx_data@
            }),
            !(old(self)@.tx_status is Idle) ==> ({
                &&& final(self)@ == old(self)@
                &&& r matches Err(p) && p.0 == ErrorCode::Busy && p.1@ == tx_data@
            }),
    {
        if self.tx_status == USARTStateTX::Idle {
            if tx_len <= tx_data.len() {
                self.tx_buffer = Some(tx_data);
                self.tx_position = 0;
                self.tx_len = tx_len;
                self.tx_status = USARTStateTX::Transmitting;
                self.enable_transmit_interrupt();
                Ok(())
            } else {
                Err((ErrorCode::Size, tx_data))
            }
        } else {
            Err((ErrorCode::Busy, tx_data))
        }
    }

    /// Single-word transmission is not supported by this engine.
    pub fn transmit_word(&self, _word: u32) -> (r: Result<(), ErrorCode>)
        ensures
            r matches Err(e) && e == ErrorCode::Fail,
    {
        Err(ErrorCode::Fail)
    }

    /// Request cancellation of an active transmission.  A no-op with success
    /// when idle; otherwise the abort is recorded and `Busy` signals that
    /// cancellation is pending, not immediate: a byte being clocked out
    /// cannot be unsent, so the buffer returns on the next interrupt.
    pub fn transmit_abort(&mut self) -> (r: Result<(), ErrorCode>)
        requires
            old(self).wf(),
        ensures
            final(self).wf(),
            old(self)@.tx_status is Idle ==> (r is Ok && final(self)@ == old(self)@),
            !(old(self)@.tx_status is Idle) ==> (r matches Err(e) && e == ErrorCode::Busy && final(self)@ == (UsartView { tx_status: USARTStateTX::AbortRequested, ..old(self)@ })),
    {
        if self.tx_status != USARTStateTX::Idle {
            self.tx_status = USARTStateTX::AbortRequested;
            Err(ErrorCode::Busy)
        } else {
            Ok(())
        }
    }

    /// Submit a receive operation; the counterpart of [`Self::transmit_buffer`].
    pub fn receive_buffer(&mut self, rx_buffer: Vec<u8>, rx_len: usize) -> (r: Result<
        (),
        (ErrorCode, Vec<u8>),
    >)
        requires
            old(self).wf(),
        ensures
            final(self).wf(),
            (old(self)@.rx_status is Idle && rx_len <= rx_buffer@.len()) ==> (r is Ok && final(self)@ == (UsartView {
                registers: UsartRegisters { rxneie: true, ..old(self)@.registers },
                rx_buffer: Some(rx_buffer@),
                rx_position: 0,
                rx_len: rx_len as nat,
                rx_status: USARTStateRX::Receiving,
                ..old(self)@
            })),
            (old(self)@.rx_status is Idle && rx_len > rx_buffer@.len()) ==> ({
                &&& final(self)@ == old(self)@
                &&& r matches Err(p) && p.0 == ErrorCode::Size && p.1@ == rx_buffer@
            }),
            !(old(self)@.rx_status is Idle) ==> ({
                &&& final(self)@ == old(self)@
                &&& r matches Err(p) && p.0 == ErrorCode::Busy && p.1@ == rx_buffer@
            }),
    {
        if self.rx_status == USARTStateRX::Idle {
            if rx_len <= rx_buffer.len() {
                self.rx_buffer = Some(rx_buffer);
                self.rx_position = 0;
                self.rx_len = rx_len;
                self.rx_status = USARTStateRX::Receiving;
                self.enable_receive_interrupt();
                Ok(())
            } else {
                Err((ErrorCode::Size, rx_buffer))
            }
        } else {
            Err((ErrorCode::Busy, rx_buffer))
        }
    }

    /// Single-word reception is not supported by this engine.
    pub fn receive_word(&self) -> (r: Result<(), ErrorCode>)
        ensures
            r matches Err(e) && e == ErrorCode::Fail,
    {
        Err(ErrorCode::Fail)
    }

    /// Request cancellation of an active reception; the counterpart of
    /// [`Self::transmit_abort`].
    pub fn receive_abort(&mut self) -> (r: Result<(), ErrorCode>)
        requires
            old(self).wf(),
        ensures
            final(self).wf(),
            old(self)@.rx_status is Idle ==> (r is Ok && final(self)@ == old(self)@),
            !(old(self)@.rx_status is Idle) ==> (r matches Err(e) && e == ErrorCode::Busy && final(self)@ == (UsartView { rx_status: USARTStateRX::AbortRequested, ..old(self)@ })),
    {
        if self.rx_status != USARTStateRX::Idle {
            self.rx_status = USARTStateRX::AbortRequested;
            Err(ErrorCode::Busy)
        } else {
            Ok(())
        }
    }

    /// The one line configuration this wiring supports.
    pub open spec fn supported_parameters(params: Parameters) -> bool {
        &&& params.baud_rate == 115200
        &&& params.stop_bits is One
        &&& params.parity is NoParity
        &&& !params.hw_flow_control
        &&& params.width is Eight
    }

    /// Configure the serial line.  Exactly one combination of rate, framing
    /// and flow control is supported — 115200 bps, 8 data bits, no parity,
    /// one stop bit, no flow control; anything else is a build-time mismatch
    /// between firmware and wiring, a non-recoverable fault, so the
    /// precondition excludes it rather than offering a runtime fallback.
    pub fn configure(&mut self, params: Parameters) -> (r: Result<(), ErrorCode>)
        requires
            Usart::supported_parameters(params),
        ensures
            r is Ok,
            final(self)@ == (UsartView {
                registers: UsartRegisters {
                    m0: false,
                    m1: false,
                    stop: 0,
                    pce: false,
                    brr_fraction: 0x5,
                    brr_mantissa: 0x4,
                    te: true,
                    re: true,
                    ue: true,
                    ..old(self)@.registers
                },
                ..old(self)@
            }),
    {
        // Word length: 1 start bit, 8 data bits, n stop bits.
        self.registers.m0 = false;
        self.registers.m1 = false;
        // One stop bit.
        self.registers.stop = 0;
        // No parity.
        self.registers.pce = false;
        // Baud-rate divisor for 115.2 kbps from an 8 MHz peripheral clock
        // with oversampling by 16.
        self.registers.brr_fraction = 0x5;
        self.registers.brr_mantissa = 0x4;
        // Enable the transmit block, the receive block, and the port.
        self.registers.te = true;
        self.registers.re = true;
        self.registers.ue = true;
        Ok(())
    }
}

/// Every submitted transmit buffer comes back exactly once: a completion of
/// the transmit step carries precisely the buffer the engine held and leaves
/// the slot empty, and an empty slot yields no completion, so a buffer can
/// be handed back neither twice nor out of nothing.
pub proof fn lemma_tx_buffer_returned_once(pre: UsartView, txe: bool)
    requires
        pre.wf(),
    ensures
        ({
            let (post, c) = UsartView::spec_tx_step(pre, txe);
            &&& post.wf()
            &&& (c matches Some(comp) ==> pre.tx_buffer == Some(comp.buffer) && post.tx_buffer
                is None)
            &&& (pre.tx_buffer is None ==> c is None && post.tx_buffer is None)
            &&& (c is None && pre.tx_buffer is Some ==> post.tx_buffer is Some)
        }),
{
}

/// Every submitted receive buffer comes back exactly once, across the
/// success, abort and overrun paths: whichever step returns a completion
/// carries the held buffer (with the bytes received so far) and empties the
/// slot, and an empty slot yields no completion.
pub proof fn lemma_rx_buffer_returned_once(pre: UsartView, status: InterruptStatus)
    requires
        pre.wf(),
    ensures
        ({
            let (s1, rxc) = UsartView::spec_rx_step(pre, status.rxne, status.rdr);
            let (s2, orec) = UsartView::spec_ore_step(s1, status.ore);
            &&& s2.wf()
            &&& (rxc matches Some(comp) ==> pre.rx_buffer is Some && comp.buffer.len()
                == pre.rx_buffer->0.len() && s1.rx_buffer is None)
            &&& (rxc is Some ==> orec is None)
            &&& (orec matches Some(comp) ==> s1.rx_buffer == Some(comp.buffer) && s2.rx_buffer
                is None)
            &&& (pre.rx_buffer is None ==> rxc is None && orec is None && s2.rx_buffer is None)
        }),
{
}

} // verus!
