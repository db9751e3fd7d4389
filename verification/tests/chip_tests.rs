use stm32mp15xx::chip::Stm32mp15xxDefaultPeripherals;
use stm32mp15xx::deferred_calls::DeferredCallTask;
use stm32mp15xx::gpio::{GpioPin, GpioPort, PinId, PortId};
use stm32mp15xx::rcc::PeripheralClock;
use stm32mp15xx::resource_table::ResourceType;
use stm32mp15xx::trace::{TraceBuffer, TRACE_BUF_SIZE};
use stm32mp15xx::usart::{USART1_BASE, USART2_BASE, USART3_BASE};

#[test]
fn default_peripherals_reset_state() {
    let p = Stm32mp15xxDefaultPeripherals::new();
    assert_eq!(p.usart1.base_address, USART1_BASE);
    assert_eq!(p.usart2.base_address, USART2_BASE);
    assert_eq!(p.usart3.base_address, USART3_BASE);
    assert!(!p.tim2.is_running());
    assert!(!p.tim5.is_armed());
    assert_eq!(p.tim3.irqn, 29);
    assert_eq!(p.gpioa.port_id, PortId::GPIOA);
    assert_eq!(p.gpioh.port_id, PortId::GPIOH);
    assert!(!p.gpioa.pins_wired);
}

#[test]
fn setup_circular_deps_wires_all_ports() {
    let mut p = Stm32mp15xxDefaultPeripherals::new();
    p.setup_circular_deps();
    assert!(p.gpioa.pins_wired);
    assert!(p.gpiob.pins_wired);
    assert!(p.gpiod.pins_wired);
    assert!(p.gpioh.pins_wired);
}

#[test]
fn gpio_port_owns_sixteen_pins() {
    let port = GpioPort::new(PortId::GPIOB);
    assert_eq!(port.pins.len(), 16);
    assert_eq!(port.pins[0].get_pinid(), PinId::Pin00);
    assert_eq!(port.pins[15].get_pinid(), PinId::Pin15);
    assert!(port.is_enabled_clock());
}

#[test]
fn gpio_pin_keeps_its_id() {
    let pin = GpioPin::new(PinId::Pin07);
    assert_eq!(pin.get_pinid(), PinId::Pin07);
}

#[test]
fn peripheral_clock_is_always_enabled() {
    let c = PeripheralClock::new();
    assert!(c.is_enabled());
    c.enable();
    c.disable();
    assert!(c.is_enabled());
}

#[test]
fn deferred_call_decodes_nothing() {
    assert!(DeferredCallTask::try_from_usize(0).is_err());
    assert!(DeferredCallTask::try_from_usize(7).is_err());
}

#[test]
fn resource_type_wire_values() {
    assert_eq!(ResourceType::CARVEOUT.as_u32(), 0);
    assert_eq!(ResourceType::DEVMEM.as_u32(), 1);
    assert_eq!(ResourceType::TRACE.as_u32(), 2);
    assert_eq!(ResourceType::VDEV.as_u32(), 3);
}

#[test]
fn trace_buffer_starts_zeroed() {
    let t = TraceBuffer::new();
    assert_eq!(t.pos, 0);
    assert_eq!(t.buffer.len(), TRACE_BUF_SIZE);
    assert!(t.buffer.iter().all(|&b| b == 0));
}

#[test]
fn trace_write_appends_and_terminates() {
    let mut t = TraceBuffer::new();
    t.write(b"hi");
    assert_eq!(&t.buffer[0..2], b"hi");
    assert_eq!(t.buffer[2], 0);
    assert_eq!(t.pos, 2);
    t.write(b"!");
    assert_eq!(&t.buffer[0..3], b"hi!");
    assert_eq!(t.buffer[3], 0);
    assert_eq!(t.pos, 3);
}

#[test]
fn trace_write_drops_nul_bytes() {
    let mut t = TraceBuffer::new();
    t.write(b"a\0b");
    assert_eq!(&t.buffer[0..2], b"ab");
    assert_eq!(t.buffer[2], 0);
    assert_eq!(t.pos, 2);
}

#[test]
fn trace_write_wraps_when_text_does_not_fit() {
    let mut t = TraceBuffer { pos: 0, buffer: vec![0; 8] };
    t.write(b"abcdef");
    assert_eq!(t.pos, 6);
    // Two bytes and a terminator no longer fit behind the cursor: the
    // cursor wraps and the text overwrites the start.
    t.write(b"xy");
    assert_eq!(t.pos, 2);
    assert_eq!(&t.buffer[0..2], b"xy");
    assert_eq!(t.buffer[2], 0);
    assert_eq!(&t.buffer[3..6], b"def");
}

#[test]
fn trace_recover_finds_end_of_text() {
    let mut t = TraceBuffer::new();
    t.write(b"abc");
    let recovered = TraceBuffer::recover(t.buffer);
    assert_eq!(recovered.pos, 3);
    let mut r2 = recovered;
    r2.write(b"d");
    assert_eq!(&r2.buffer[0..4], b"abcd");
}

#[test]
fn trace_recover_without_nul_starts_over() {
    let recovered = TraceBuffer::recover(vec![1, 2, 3, 4]);
    assert_eq!(recovered.pos, 0);
    let zeroed = TraceBuffer::recover(vec![0; 16]);
    assert_eq!(zeroed.pos, 0);
}

#[test]
fn trace_write_truncates_at_buffer_end() {
    let mut t = TraceBuffer { pos: 0, buffer: vec![0; 4] };
    t.write(b"abcdef");
    assert_eq!(&t.buffer[..], b"abcd");
    assert_eq!(t.pos, 4, "the buffer is full, no terminator fits");
}
