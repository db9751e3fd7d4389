use stm32mp15xx::usart::{
    InterruptStatus, Parameters, Parity, StopBits, USARTStateRX, USARTStateTX, Usart, Width,
    USART2_BASE,
};
use stm32mp15xx::ErrorCode;

fn no_interrupt() -> InterruptStatus {
    InterruptStatus { txe: false, rxne: false, rdr: 0, ore: false }
}

fn txe() -> InterruptStatus {
    InterruptStatus { txe: true, rxne: false, rdr: 0, ore: false }
}

fn rxne(byte: u8) -> InterruptStatus {
    InterruptStatus { txe: false, rxne: true, rdr: byte, ore: false }
}

#[test]
fn new_usart2_is_idle() {
    let u = Usart::new_usart2();
    assert_eq!(u.base_address, USART2_BASE);
    assert_eq!(u.tx_status, USARTStateTX::Idle);
    assert_eq!(u.rx_status, USARTStateRX::Idle);
    assert!(u.tx_buffer.is_none());
    assert!(u.rx_buffer.is_none());
    assert!(!u.registers.txeie);
    assert!(!u.registers.rxneie);
}

#[test]
fn configure_sets_line() {
    let mut u = Usart::new_usart2();
    let params = Parameters {
        baud_rate: 115200,
        width: Width::Eight,
        parity: Parity::NoParity,
        stop_bits: StopBits::One,
        hw_flow_control: false,
    };
    assert!(u.configure(params).is_ok());
    assert!(u.registers.te);
    assert!(u.registers.re);
    assert!(u.registers.ue);
    assert!(!u.registers.m0);
    assert!(!u.registers.m1);
    assert!(!u.registers.pce);
    assert_eq!(u.registers.stop, 0);
    assert_eq!(u.registers.brr_fraction, 0x5);
    assert_eq!(u.registers.brr_mantissa, 0x4);
}

#[test]
fn transmit_three_bytes_success() {
    let mut u = Usart::new_usart2();
    assert!(u.transmit_buffer(vec![0x41, 0x42, 0x43], 3).is_ok());
    assert_eq!(u.tx_status, USARTStateTX::Transmitting);
    assert!(u.registers.txeie);

    let (txc, rxc) = u.handle_interrupt(txe());
    assert!(txc.is_none() && rxc.is_none());
    assert_eq!(u.registers.tdr, 0x41);
    assert!(u.registers.txeie);

    let (txc, _) = u.handle_interrupt(txe());
    assert!(txc.is_none());
    assert_eq!(u.registers.tdr, 0x42);

    let (txc, _) = u.handle_interrupt(txe());
    assert_eq!(u.registers.tdr, 0x43);
    assert!(!u.registers.txeie);
    let done = txc.expect("third interrupt completes the transfer");
    assert_eq!(done.buffer, vec![0x41, 0x42, 0x43]);
    assert_eq!(done.length, 3);
    assert_eq!(done.status, Ok(()));
    assert_eq!(u.tx_status, USARTStateTX::Idle);
    assert!(u.tx_buffer.is_none());
}

#[test]
fn transmit_abort_after_two_bytes_cancels_on_third_interrupt() {
    // submit_transmit([0x41, 0x42, 0x43], 3); two interrupts deliver 0x41
    // then 0x42; abort_transmit() is pending; on the next interrupt the
    // abort wins: the buffer comes back with Cancel and the progress of two
    // bytes, and the third byte never reaches the data register.
    let mut u = Usart::new_usart2();
    assert!(u.transmit_buffer(vec![0x41, 0x42, 0x43], 3).is_ok());
    u.handle_interrupt(txe());
    u.handle_interrupt(txe());
    assert_eq!(u.registers.tdr, 0x42);
    assert_eq!(u.tx_position, 2);

    assert_eq!(u.transmit_abort(), Err(ErrorCode::Busy));
    assert_eq!(u.tx_status, USARTStateTX::AbortRequested);

    let (txc, _) = u.handle_interrupt(txe());
    let done = txc.expect("abort completes on the next interrupt");
    assert_eq!(done.status, Err(ErrorCode::Cancel));
    assert_eq!(done.length, 2);
    assert_eq!(done.buffer, vec![0x41, 0x42, 0x43]);
    assert_eq!(u.registers.tdr, 0x42, "the third byte is never written");
    assert_eq!(u.tx_status, USARTStateTX::Idle);
}

#[test]
fn transmit_second_submit_is_busy_and_first_untouched() {
    // Two submits back-to-back without awaiting the first's completion: the
    // second returns Busy and the first operation's buffer and progress are
    // unaffected.
    let mut u = Usart::new_usart2();
    assert!(u.transmit_buffer(vec![1, 2, 3], 3).is_ok());
    u.handle_interrupt(txe());
    assert_eq!(u.tx_position, 1);

    match u.transmit_buffer(vec![9, 9], 2) {
        Err((code, buf)) => {
            assert_eq!(code, ErrorCode::Busy);
            assert_eq!(buf, vec![9, 9]);
        }
        Ok(()) => panic!("second submit must be refused"),
    }
    assert_eq!(u.tx_position, 1);
    assert_eq!(u.tx_len, 3);
    assert_eq!(u.tx_buffer.as_ref().unwrap(), &vec![1, 2, 3]);
    assert_eq!(u.tx_status, USARTStateTX::Transmitting);

    // The first operation still runs to completion.
    u.handle_interrupt(txe());
    let (txc, _) = u.handle_interrupt(txe());
    let done = txc.expect("first transfer completes");
    assert_eq!(done.buffer, vec![1, 2, 3]);
    assert_eq!(done.status, Ok(()));
}

#[test]
fn transmit_size_error_returns_buffer() {
    let mut u = Usart::new_usart2();
    match u.transmit_buffer(vec![1, 2, 3], 4) {
        Err((code, buf)) => {
            assert_eq!(code, ErrorCode::Size);
            assert_eq!(buf, vec![1, 2, 3]);
        }
        Ok(()) => panic!("oversized request must be refused"),
    }
    assert_eq!(u.tx_status, USARTStateTX::Idle);
    assert!(!u.registers.txeie);
}

#[test]
fn transmit_abort_when_idle_is_ok() {
    let mut u = Usart::new_usart2();
    assert_eq!(u.transmit_abort(), Ok(()));
    assert_eq!(u.tx_status, USARTStateTX::Idle);
}

#[test]
fn transmit_empty_completes_on_first_interrupt() {
    let mut u = Usart::new_usart2();
    assert!(u.transmit_buffer(Vec::new(), 0).is_ok());
    let (txc, _) = u.handle_interrupt(txe());
    let done = txc.expect("empty transfer completes at once");
    assert_eq!(done.length, 0);
    assert_eq!(done.status, Ok(()));
    assert!(done.buffer.is_empty());
}

#[test]
fn transmit_word_unsupported() {
    let u = Usart::new_usart2();
    assert_eq!(u.transmit_word(0xABCD), Err(ErrorCode::Fail));
}

#[test]
fn interrupt_when_idle_is_ignored() {
    let mut u = Usart::new_usart2();
    let (txc, rxc) = u.handle_interrupt(txe());
    assert!(txc.is_none() && rxc.is_none());
    let (txc, rxc) = u.handle_interrupt(no_interrupt());
    assert!(txc.is_none() && rxc.is_none());
    assert_eq!(u.tx_status, USARTStateTX::Idle);
}

#[test]
fn receive_three_bytes_success() {
    let mut u = Usart::new_usart2();
    assert!(u.receive_buffer(vec![0; 3], 3).is_ok());
    assert_eq!(u.rx_status, USARTStateRX::Receiving);
    assert!(u.registers.rxneie);

    assert!(u.handle_interrupt(rxne(0x10)).1.is_none());
    assert!(u.handle_interrupt(rxne(0x20)).1.is_none());
    let (_, rxc) = u.handle_interrupt(rxne(0x30));
    let done = rxc.expect("third byte completes the reception");
    assert_eq!(done.buffer, vec![0x10, 0x20, 0x30]);
    assert_eq!(done.length, 3);
    assert_eq!(done.status, Ok(()));
    assert_eq!(
        done.error,
        stm32mp15xx::usart::UartError::NoError
    );
    assert_eq!(u.rx_status, USARTStateRX::Idle);
}

#[test]
fn receive_abort_returns_partial_buffer() {
    let mut u = Usart::new_usart2();
    assert!(u.receive_buffer(vec![0; 3], 3).is_ok());
    u.handle_interrupt(rxne(0xAA));
    assert_eq!(u.receive_abort(), Err(ErrorCode::Busy));
    let (_, rxc) = u.handle_interrupt(rxne(0xBB));
    let done = rxc.expect("abort completes on the next interrupt");
    assert_eq!(done.status, Err(ErrorCode::Cancel));
    assert_eq!(done.error, stm32mp15xx::usart::UartError::Aborted);
    assert_eq!(done.length, 1);
    assert_eq!(done.buffer[0], 0xAA);
    assert_eq!(u.rx_status, USARTStateRX::Idle);
}

#[test]
fn receive_overrun_reports_partial_buffer() {
    let mut u = Usart::new_usart2();
    assert!(u.receive_buffer(vec![0; 3], 3).is_ok());
    u.handle_interrupt(rxne(0x55));
    let (_, rxc) = u.handle_interrupt(InterruptStatus {
        txe: false,
        rxne: false,
        rdr: 0,
        ore: true,
    });
    let done = rxc.expect("overrun hands the partial buffer back");
    assert_eq!(done.status, Err(ErrorCode::Cancel));
    assert_eq!(done.error, stm32mp15xx::usart::UartError::OverrunError);
    assert_eq!(done.length, 1);
    assert_eq!(done.buffer[0], 0x55);
    assert_eq!(u.rx_status, USARTStateRX::Idle);
    assert!(u.rx_buffer.is_none());
}

#[test]
fn receive_second_submit_is_busy() {
    let mut u = Usart::new_usart2();
    assert!(u.receive_buffer(vec![0; 2], 2).is_ok());
    match u.receive_buffer(vec![0; 4], 4) {
        Err((code, buf)) => {
            assert_eq!(code, ErrorCode::Busy);
            assert_eq!(buf.len(), 4);
        }
        Ok(()) => panic!("second submit must be refused"),
    }
    assert_eq!(u.rx_len, 2);
}

#[test]
fn receive_size_error_returns_buffer() {
    let mut u = Usart::new_usart2();
    match u.receive_buffer(vec![0; 2], 3) {
        Err((code, buf)) => {
            assert_eq!(code, ErrorCode::Size);
            assert_eq!(buf.len(), 2);
        }
        Ok(()) => panic!("oversized request must be refused"),
    }
}

#[test]
fn receive_word_unsupported() {
    let u = Usart::new_usart2();
    assert_eq!(u.receive_word(), Err(ErrorCode::Fail));
}

#[test]
fn send_byte_writes_data_register() {
    let mut u = Usart::new_usart2();
    u.send_byte(0x7E);
    assert_eq!(u.registers.tdr, 0x7E);
}

#[test]
fn clock_reports_enabled() {
    let u = Usart::new_usart2();
    assert!(u.is_enabled_clock());
    u.enable_clock();
    u.disable_clock();
    assert!(u.is_enabled_clock());
}

#[test]
fn transmit_and_receive_are_independent() {
    let mut u = Usart::new_usart2();
    assert!(u.transmit_buffer(vec![1, 2], 2).is_ok());
    assert!(u.receive_buffer(vec![0; 2], 2).is_ok());
    // One interrupt can carry both conditions.
    let (txc, rxc) = u.handle_interrupt(InterruptStatus {
        txe: true,
        rxne: true,
        rdr: 0x99,
        ore: false,
    });
    assert!(txc.is_none() && rxc.is_none());
    assert_eq!(u.registers.tdr, 1);
    assert_eq!(u.tx_position, 1);
    assert_eq!(u.rx_position, 1);
}
