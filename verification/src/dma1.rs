//! DMA controller driver engine: fixed, static bindings of logical
//! peripherals to physical streams; each stream transfers between memory and
//! exactly one peripheral's data register.
//!
//! A stream is configured once for its peripheral, then programmed per
//! transfer: the engine owns the caller's buffer for the transfer's
//! duration.  On the transfer-complete interrupt the handler reports the
//! peripheral identity to the registered client but — unlike the serial
//! engine — does not hand the buffer back by itself; the caller reclaims it
//! with [`Stream::return_buffer`], or mid-flight with
//! [`Stream::abort_transfer`], which also reports how many items were still
//! untransferred.  Each stream owns the slice of the controller's registers
//! that belongs to it, as plain values; the items actually moving is the
//! hardware's side, modeled by the [`Stream::transfer_items`] transition.

use vstd::prelude::*;

use crate::nvic;
use crate::usart;

verus! {

/// The DMA stream number: a hardware channel moving data between memory and
/// one bound peripheral register.  This controller has eight.
#[derive(Clone, Copy, Debug, PartialEq, Eq, Structural)]
pub enum StreamId {
    Stream0,
    Stream1,
    Stream2,
    Stream3,
    Stream4,
    Stream5,
    Stream6,
    Stream7,
}

/// DMA transfer direction.
#[derive(Clone, Copy, Debug, PartialEq, Eq, Structural)]
pub enum Direction {
    PeripheralToMemory,
    MemoryToPeripheral,
    MemoryToMemory,
}

/// DMA data size.
#[derive(Clone, Copy, Debug, PartialEq, Eq, Structural)]
pub enum Size {
    Byte,
    HalfWord,
    Word,
}

/// Memory-side data size.
#[derive(Clone, Copy, Debug, PartialEq, Eq, Structural)]
pub struct Msize(pub Size);

/// Peripheral-side data size.
#[derive(Clone, Copy, Debug, PartialEq, Eq, Structural)]
pub struct Psize(pub Size);

/// FIFO threshold.
#[derive(Clone, Copy, Debug, PartialEq, Eq, Structural)]
pub enum FifoSize {
    Quarter,
    Half,
    ThreeFourths,
    Full,
}

/// DMA transfer mode.
#[derive(Clone, Copy, Debug, PartialEq, Eq, Structural)]
pub enum TransferMode {
    Direct,
    Fifo(FifoSize),
}

/// The peripherals managed by this controller.
#[allow(non_camel_case_types)]
#[derive(Clone, Copy, Debug, PartialEq, Eq, Structural)]
pub enum Dma1Peripheral {
    USART2_TX,
    USART2_RX,
    USART3_TX,
    USART3_RX,
}

/// The stream that serves each peripheral, a fixed property of the chip.
pub open spec fn spec_stream_id_of(pid: Dma1Peripheral) -> StreamId {
    match pid {
        Dma1Peripheral::USART2_TX => StreamId::Stream6,
        Dma1Peripheral::USART2_RX => StreamId::Stream5,
        Dma1Peripheral::USART3_TX => StreamId::Stream3,
        Dma1Peripheral::USART3_RX => StreamId::Stream1,
    }
}

/// A stream's position in the controller's stream table.
pub open spec fn spec_stream_index(id: StreamId) -> int {
    match id {
        StreamId::Stream0 => 0,
        StreamId::Stream1 => 1,
        StreamId::Stream2 => 2,
        StreamId::Stream3 => 3,
        StreamId::Stream4 => 4,
        StreamId::Stream5 => 5,
        StreamId::Stream6 => 6,
        StreamId::Stream7 => 7,
    }
}

/// The stream at each position of the controller's stream table.
pub open spec fn spec_stream_of_index(i: int) -> StreamId {
    if i == 0 {
        StreamId::Stream0
    } else if i == 1 {
        StreamId::Stream1
    } else if i == 2 {
        StreamId::Stream2
    } else if i == 3 {
        StreamId::Stream3
    } else if i == 4 {
        StreamId::Stream4
    } else if i == 5 {
        StreamId::Stream5
    } else if i == 6 {
        StreamId::Stream6
    } else {
        StreamId::Stream7
    }
}

/// The transfer direction of each binding: transmit moves memory to
/// peripheral, receive moves peripheral to memory.
pub open spec fn spec_direction_of(pid: Dma1Peripheral) -> Direction {
    match pid {
        Dma1Peripheral::USART2_TX => Direction::MemoryToPeripheral,
        Dma1Peripheral::USART2_RX => Direction::PeripheralToMemory,
        Dma1Peripheral::USART3_TX => Direction::MemoryToPeripheral,
        Dma1Peripheral::USART3_RX => Direction::PeripheralToMemory,
    }
}

/// The fixed peripheral-side address of each binding: the bound USART's data
/// register.
pub open spec fn spec_dr_address_of(pid: Dma1Peripheral) -> u32 {
    match pid {
        Dma1Peripheral::USART2_TX => (usart::USART2_BASE + usart::DR_OFFSET) as u32,
        Dma1Peripheral::USART2_RX => (usart::USART2_BASE + usart::DR_OFFSET) as u32,
        Dma1Peripheral::USART3_TX => (usart::USART3_BASE + usart::DR_OFFSET) as u32,
        Dma1Peripheral::USART3_RX => (usart::USART3_BASE + usart::DR_OFFSET) as u32,
    }
}

impl Dma1Peripheral {
    /// The interrupt number of the stream serving this peripheral, used to
    /// enable its line at the interrupt controller.
    pub open spec fn spec_stream_irqn(self) -> u32 {
        match self {
            Dma1Peripheral::USART2_TX => nvic::DMA1_STREAM6,
            Dma1Peripheral::USART2_RX => nvic::DMA1_STREAM5,
            Dma1Peripheral::USART3_TX => nvic::DMA1_STREAM3,
            Dma1Peripheral::USART3_RX => nvic::DMA1_STREAM1,
        }
    }

    /// Returns the IRQ number of the stream associated with the peripheral.
    pub fn get_stream_irqn(&self) -> (r: u32)
        ensures
            r == self.spec_stream_irqn(),
    {
        match self {
            Dma1Peripheral::USART2_TX => nvic::DMA1_STREAM6,
            Dma1Peripheral::USART2_RX => nvic::DMA1_STREAM5,
            Dma1Peripheral::USART3_TX => nvic::DMA1_STREAM3,
            Dma1Peripheral::USART3_RX => nvic::DMA1_STREAM1,
        }
    }

    /// The index of the stream associated with the peripheral in the
    /// controller's stream table.
    pub fn get_stream_idx(&self) -> (r: usize)
        ensures
            r == spec_stream_index(spec_stream_id_of(*self)),
    {
        match StreamId::from(*self) {
            StreamId::Stream0 => 0,
            StreamId::Stream1 => 1,
            StreamId::Stream2 => 2,
            StreamId::Stream3 => 3,
            StreamId::Stream4 => 4,
            StreamId::Stream5 => 5,
            StreamId::Stream6 => 6,
            StreamId::Stream7 => 7,
        }
    }
}

impl From<Dma1Peripheral> for StreamId {
    fn from(pid: Dma1Peripheral) -> (r: StreamId) {
        match pid {
            Dma1Peripheral::USART2_TX => StreamId::Stream6,
            Dma1Peripheral::USART2_RX => StreamId::Stream5,
            Dma1Peripheral::USART3_TX => StreamId::Stream3,
            Dma1Peripheral::USART3_RX => StreamId::Stream1,
        }
    }
}

impl vstd::std_specs::convert::FromSpecImpl<Dma1Peripheral> for StreamId {
    open spec fn obeys_from_spec() -> bool {
        true
    }

    open spec fn from_spec(pid: Dma1Peripheral) -> StreamId {
        spec_stream_id_of(pid)
    }
}

/// The per-stream slice of the controller's registers, as plain values: the
/// stream's configuration and control word, its FIFO control, its item
/// counter, its peripheral address, and its latched transfer-complete flag.
#[derive(Clone, Copy, Debug, PartialEq, Eq, Structural)]
pub struct StreamRegisters {
    /// SxCR EN: stream enable.
    pub en: bool,
    /// SxCR TCIE: transfer-complete interrupt enable.
    pub tcie: bool,
    /// LISR/HISR TCIFx: latched transfer-complete flag.
    pub tcif: bool,
    /// SxCR DIR: transfer direction.
    pub dir: Direction,
    /// SxCR MINC: memory-side address increment.
    pub minc: bool,
    /// SxCR PINC: peripheral-side address increment.
    pub pinc: bool,
    /// SxCR PSIZE / MSIZE: data widths.
    pub psize: Size,
    pub msize: Size,
    /// SxFCR DMDIS: direct mode disabled (FIFO mode).
    pub dmdis: bool,
    /// SxFCR FTH: FIFO threshold.
    pub fth: FifoSize,
    /// SxNDTR: number of data items left to transfer.
    pub ndtr: u32,
    /// SxPAR: the fixed peripheral-side address.
    pub par: u32,
}

/// A DMA stream engine: its identity, its bound peripheral, the buffer it
/// owns for the duration of a transfer, and its register slice.
pub struct Stream {
    pub streamid: StreamId,
    pub buffer: Option<Vec<u8>>,
    pub peripheral: Option<Dma1Peripheral>,
    pub registers: StreamRegisters,
}

/// Mathematical model of a [`Stream`]: the owned buffer as a sequence.
pub struct StreamView {
    pub streamid: StreamId,
    pub buffer: Option<Seq<u8>>,
    pub peripheral: Option<Dma1Peripheral>,
    pub registers: StreamRegisters,
}

impl View for Stream {
    type V = StreamView;

    open spec fn view(&self) -> StreamView {
        StreamView {
            streamid: self.streamid,
            buffer: match self.buffer {
                Some(b) => Some(b@),
                None => None,
            },
            peripheral: self.peripheral,
            registers: self.registers,
        }
    }
}

impl StreamView {
    /// Well-formedness: a bound peripheral is the one this stream serves,
    /// and the items left to transfer never exceed the owned buffer.
    pub open spec fn wf(self) -> bool {
        &&& (self.peripheral matches Some(p) ==> spec_stream_id_of(p) == self.streamid)
        &&& (self.buffer matches Some(b) ==> self.registers.ndtr <= b.len())
    }

    /// The reset state of a stream: unbound, idle, no buffer owned, every
    /// register bit clear.
    pub open spec fn init(id: StreamId) -> StreamView {
        StreamView {
            streamid: id,
            buffer: None,
            peripheral: None,
            registers: StreamRegisters {
                en: false,
                tcie: false,
                tcif: false,
                dir: Direction::PeripheralToMemory,
                minc: false,
                pinc: false,
                psize: Size::Byte,
                msize: Size::Byte,
                dmdis: false,
                fth: FifoSize::Quarter,
                ndtr: 0,
                par: 0,
            },
        }
    }

    /// The hardware moving up to `items` data items: the enabled stream's
    /// item counter runs down, and on reaching zero the transfer completes —
    /// the stream disables itself and the transfer-complete flag latches.
    pub open spec fn spec_transfer_items(pre: StreamView, items: u32) -> StreamView {
        if !pre.registers.en || pre.registers.ndtr == 0 {
            pre
        } else {
            let moved = if items < pre.registers.ndtr {
                items
            } else {
                pre.registers.ndtr
            };
            let left = (pre.registers.ndtr - moved) as u32;
            if left == 0 {
                StreamView {
                    registers: StreamRegisters {
                        ndtr: 0,
                        en: false,
                        tcif: true,
                        ..pre.registers
                    },
                    ..pre
                }
            } else {
                StreamView { registers: StreamRegisters { ndtr: left, ..pre.registers }, ..pre }
            }
        }
    }
}

impl Stream {
    pub open spec fn wf(self) -> bool {
        self@.wf()
    }

    fn new(streamid: StreamId) -> (r: Stream)
        ensures
            r@ == StreamView::init(streamid),
    {
        Stream {
            streamid,
            buffer: None,
            peripheral: None,
            registers: StreamRegisters {
                en: false,
                tcie: false,
                tcif: false,
                dir: Direction::PeripheralToMemory,
                minc: false,
                pinc: false,
                psize: Size::Byte,
                msize: Size::Byte,
                dmdis: false,
                fth: FifoSize::Quarter,
                ndtr: 0,
                par: 0,
            },
        }
    }

    /// Service a transfer-complete interrupt: acknowledge the latched flag
    /// and report the bound peripheral, which the dispatcher forwards to the
    /// registered client's `transfer_done`.  The buffer is deliberately not
    /// handed back here: the caller reclaims it with
    /// [`Stream::return_buffer`], which lets it re-arm a transfer with the
    /// same buffer first.
    pub fn handle_interrupt(&mut self) -> (r: Option<Dma1Peripheral>)
        ensures
            final(self)@ == (StreamView {
                registers: StreamRegisters { tcif: false, ..old(self)@.registers },
                ..old(self)@
            }),
            r == old(self).peripheral,
    {
        self.clear_transfer_complete_flag();
        self.peripheral
    }

    /// Bind this stream to its peripheral and apply the one-time burst,
    /// width and FIFO configuration, with the stream and its interrupt
    /// disabled.  Per the controller's errata this configuration may be
    /// applied only once per stream lifetime — re-applying it risks a hard
    /// fault even while the stream is disabled — so an unbound stream is
    /// required and later transfers never repeat this step.
    pub fn setup(&mut self, pid: Dma1Peripheral)
        requires
            old(self).peripheral is None,
            spec_stream_id_of(pid) == old(self).streamid,
        ensures
            final(self)@ == (StreamView {
                peripheral: Some(pid),
                registers: StreamRegisters {
                    en: false,
                    tcie: false,
                    dmdis: true,
                    fth: FifoSize::Full,
                    psize: Size::Byte,
                    msize: Size::Byte,
                    ..old(self)@.registers
                },
                ..old(self)@
            }),
    {
        self.peripheral = Some(pid);
        // Setup runs before the stream's line is enabled at the interrupt
        // controller.
        self.disable_interrupt();
        self.disable();
        self.set_transfer_mode_for_peripheral();
        self.set_data_width_for_peripheral();
    }

    /// Program and start a transfer: the stream is stopped and its stale
    /// completion flag cleared, the fixed peripheral-side address and the
    /// item count are written, the direction of this binding is set, the
    /// address increments on the memory side only (the peripheral side is a
    /// single register), and the stream is enabled with its completion
    /// interrupt.  Ownership of the buffer moves to the engine for the
    /// transfer's duration; programming its start address is the unmodeled
    /// half of that handoff.  DMA must still be enabled on the peripheral
    /// side.
    pub fn do_transfer(&mut self, buf: Vec<u8>, len: usize)
        requires
            old(self).wf(),
            old(self)@.peripheral is Some,
            old(self)@.buffer is None,
            0 < len <= buf@.len(),
            len <= u32::MAX,
        ensures
            final(self)@ == (StreamView {
                buffer: Some(buf@),
                registers: StreamRegisters {
                    en: true,
                    tcie: true,
                    tcif: false,
                    dir: spec_direction_of(old(self)@.peripheral->0),
                    minc: true,
                    pinc: false,
                    ndtr: len as u32,
                    par: spec_dr_address_of(old(self)@.peripheral->0),
                    ..old(self)@.registers
                },
                ..old(self)@
            }),
            final(self).wf(),
    {
        self.disable_interrupt();
        self.disable();
        self.clear_transfer_complete_flag();
        self.set_peripheral_address();
        self.set_data_items(len as u32);
        self.set_direction();
        self.set_peripheral_address_increment();
        self.set_memory_address_increment();
        self.interrupt_enable();
        self.enable();
        self.buffer = Some(buf);
    }

    /// Halt a transfer mid-flight: disable the interrupt and the stream, and
    /// hand back both the owned buffer (if any) and the count of items not
    /// yet transferred.  Unlike a serial byte, a DMA transfer can be stopped
    /// cleanly without corrupting already-moved data.
    pub fn abort_transfer(&mut self) -> (r: (Option<Vec<u8>>, u32))
        ensures
            final(self)@ == (StreamView {
                buffer: None,
                registers: StreamRegisters { en: false, tcie: false, ..old(self)@.registers },
                ..old(self)@
            }),
            (r.0 matches Some(b) ==> old(self)@.buffer == Some(b@)),
            (r.0 is None <==> old(self)@.buffer is None),
            r.1 == old(self)@.registers.ndtr,
    {
        self.disable_interrupt();
        self.disable();
        (self.buffer.take(), self.get_data_items())
    }

    /// Hand the owned buffer back to the caller; the slot is empty
    /// afterwards, so a second call yields nothing.
    pub fn return_buffer(&mut self) -> (r: Option<Vec<u8>>)
        ensures
            final(self)@ == (StreamView { buffer: None, ..old(self)@ }),
            (r matches Some(b) ==> old(self)@.buffer == Some(b@)),
            (r is None <==> old(self)@.buffer is None),
    {
        self.buffer.take()
    }

    /// The hardware moving up to `items` data items; see
    /// [`StreamView::spec_transfer_items`].
    pub fn transfer_items(&mut self, items: u32)
        requires
            old(self).wf(),
        ensures
            final(self).wf(),
            final(self)@ == StreamView::spec_transfer_items(old(self)@, items),
    {
        if self.registers.en && self.registers.ndtr > 0 {
            let moved = if items < self.registers.ndtr {
                items
            } else {
                self.registers.ndtr
            };
            self.registers.ndtr = self.registers.ndtr - moved;
            if self.registers.ndtr == 0 {
                self.registers.en = false;
                self.registers.tcif = true;
            }
        }
    }

    /// Set the direction of this stream's binding: memory to peripheral for
    /// a transmit binding, peripheral to memory for a receive binding.
    fn set_direction(&mut self)
        ensures
            final(self)@ == (StreamView {
                registers: StreamRegisters {
                    dir: match old(self)@.peripheral {
                        Some(p) => spec_direction_of(p),
                        None => old(self)@.registers.dir,
                    },
                    ..old(self)@.registers
                },
                ..old(self)@
            }),
    {
        match self.peripheral {
            Some(Dma1Peripheral::USART2_TX) => {
                self.registers.dir = Direction::MemoryToPeripheral;
            },
            Some(Dma1Peripheral::USART2_RX) => {
                self.registers.dir = Direction::PeripheralToMemory;
            },
            Some(Dma1Peripheral::USART3_TX) => {
                self.registers.dir = Direction::MemoryToPeripheral;
            },
            Some(Dma1Peripheral::USART3_RX) => {
                self.registers.dir = Direction::PeripheralToMemory;
            },
            None => {},
        }
    }

    /// Point the peripheral side of the stream at the bound USART's data
    /// register.
    fn set_peripheral_address(&mut self)
        ensures
            final(self)@ == (StreamView {
                registers: StreamRegisters {
                    par: match old(self)@.peripheral {
                        Some(p) => spec_dr_address_of(p),
                        None => old(self)@.registers.par,
                    },
                    ..old(self)@.registers
                },
                ..old(self)@
            }),
    {
        match self.peripheral {
            Some(Dma1Peripheral::USART2_TX) => {
                self.registers.par = usart::get_address_dr(usart::USART2_BASE);
            },
            Some(Dma1Peripheral::USART2_RX) => {
                self.registers.par = usart::get_address_dr(usart::USART2_BASE);
            },
            Some(Dma1Peripheral::USART3_TX) => {
                self.registers.par = usart::get_address_dr(usart::USART3_BASE);
            },
            Some(Dma1Peripheral::USART3_RX) => {
                self.registers.par = usart::get_address_dr(usart::USART3_BASE);
            },
            None => {},
        }
    }

    /// The peripheral side is a single fixed register: never increment it.
    fn set_peripheral_address_increment(&mut self)
        ensures
            final(self)@ == (StreamView {
                registers: StreamRegisters {
                    pinc: if old(self)@.peripheral is Some {
                        false
                    } else {
                        old(self)@.registers.pinc
                    },
                    ..old(self)@.registers
                },
                ..old(self)@
            }),
    {
        match self.peripheral {
            Some(_) => {
                self.registers.pinc = false;
            },
            None => {},
        }
    }

    /// The memory side walks the buffer: increment its address per item.
    fn set_memory_address_increment(&mut self)
        ensures
            final(self)@ == (StreamView {
                registers: StreamRegisters {
                    minc: if old(self)@.peripheral is Some {
                        true
                    } else {
                        old(self)@.registers.minc
                    },
                    ..old(self)@.registers
                },
                ..old(self)@
            }),
    {
        match self.peripheral {
            Some(_) => {
                self.registers.minc = true;
            },
            None => {},
        }
    }

    fn get_data_items(&self) -> (r: u32)
        ensures
            r == self.registers.ndtr,
    {
        self.registers.ndtr
    }

    fn set_data_items(&mut self, data_items: u32)
        ensures
            final(self)@ == (StreamView {
                registers: StreamRegisters { ndtr: data_items, ..old(self)@.registers },
                ..old(self)@
            }),
    {
        self.registers.ndtr = data_items;
    }

    /// Every USART binding moves bytes on both sides.
    fn set_data_width_for_peripheral(&mut self)
        ensures
            final(self)@ == (StreamView {
                registers: StreamRegisters {
                    psize: if old(self)@.peripheral is Some {
                        Size::Byte
                    } else {
                        old(self)@.registers.psize
                    },
                    msize: if old(self)@.peripheral is Some {
                        Size::Byte
                    } else {
                        old(self)@.registers.msize
                    },
                    ..old(self)@.registers
                },
                ..old(self)@
            }),
    {
        match self.peripheral {
            Some(_) => self.stream_set_data_width(Msize(Size::Byte), Psize(Size::Byte)),
            None => {},
        }
    }

    fn stream_set_data_width(&mut self, msize: Msize, psize: Psize)
        ensures
            final(self)@ == (StreamView {
                registers: StreamRegisters {
                    psize: psize.0,
                    msize: msize.0,
                    ..old(self)@.registers
                },
                ..old(self)@
            }),
    {
        self.registers.psize = psize.0;
        self.registers.msize = msize.0;
    }

    /// Every USART binding runs the FIFO at its full threshold.
    fn set_transfer_mode_for_peripheral(&mut self)
        ensures
            final(self)@ == (StreamView {
                registers: StreamRegisters {
                    dmdis: if old(self)@.peripheral is Some {
                        true
                    } else {
                        old(self)@.registers.dmdis
                    },
                    fth: if old(self)@.peripheral is Some {
                        FifoSize::Full
                    } else {
                        old(self)@.registers.fth
                    },
                    ..old(self)@.registers
                },
                ..old(self)@
            }),
    {
        match self.peripheral {
            Some(_) => self.stream_set_transfer_mode(TransferMode::Fifo(FifoSize::Full)),
            None => {},
        }
    }

    fn stream_set_transfer_mode(&mut self, transfer_mode: TransferMode)
        ensures
            final(self)@ == (StreamView {
                registers: match transfer_mode {
                    TransferMode::Direct => (StreamRegisters {
                        dmdis: false,
                        ..old(self)@.registers
                    }),
                    TransferMode::Fifo(s) => (StreamRegisters {
                        dmdis: true,
                        fth: s,
                        ..old(self)@.registers
                    }),
                },
                ..old(self)@
            }),
    {
        match transfer_mode {
            TransferMode::Direct => {
                self.registers.dmdis = false;
            },
            TransferMode::Fifo(s) => {
                self.registers.dmdis = true;
                self.registers.fth = s;
            },
        }
    }

    fn enable(&mut self)
        ensures
            final(self)@ == (StreamView {
                registers: StreamRegisters { en: true, ..old(self)@.registers },
                ..old(self)@
            }),
    {
        self.registers.en = true;
    }

    fn disable(&mut self)
        ensures
            final(self)@ == (StreamView {
                registers: StreamRegisters { en: false, ..old(self)@.registers },
                ..old(self)@
            }),
    {
        self.registers.en = false;
    }

    fn clear_transfer_complete_flag(&mut self)
        ensures
            final(self)@ == (StreamView {
                registers: StreamRegisters { tcif: false, ..old(self)@.registers },
                ..old(self)@
            }),
    {
        self.registers.tcif = false;
    }

    /// Only the transfer-complete event interrupts.
    fn interrupt_enable(&mut self)
        ensures
            final(self)@ == (StreamView {
                registers: StreamRegisters { tcie: true, ..old(self)@.registers },
                ..old(self)@
            }),
    {
        self.registers.tcie = true;
    }

    fn disable_interrupt(&mut self)
        ensures
            final(self)@ == (StreamView {
                registers: StreamRegisters { tcie: false, ..old(self)@.registers },
                ..old(self)@
            }),
    {
        self.registers.tcie = false;
    }
}

/// A client of a DMA stream, told when a transfer for its peripheral
/// completes.  The dispatcher forwards what [`Stream::handle_interrupt`]
/// reports.
pub trait StreamClient {
    fn transfer_done(&self, pid: Dma1Peripheral);
}

/// The controller's stream table: one engine per hardware stream, in stream
/// order, each in its reset state.
pub fn new_dma1_stream() -> (r: Vec<Stream>)
    ensures
        r@.len() == 8,
        forall|i: int|
            0 <= i < 8 ==> #[trigger] r@[i]@ == StreamView::init(spec_stream_of_index(i)),
{
    let mut streams: Vec<Stream> = Vec::new();
    streams.push(Stream::new(StreamId::Stream0));
    streams.push(Stream::new(StreamId::Stream1));
    streams.push(Stream::new(StreamId::Stream2));
    streams.push(Stream::new(StreamId::Stream3));
    streams.push(Stream::new(StreamId::Stream4));
    streams.push(Stream::new(StreamId::Stream5));
    streams.push(Stream::new(StreamId::Stream6));
    streams.push(Stream::new(StreamId::Stream7));
    streams
}

} // verus!
