use calculus_link::usart::{status_to_result, State, UsartError, UsartInner};
use calculus_link::ring_buffer::Status;

#[test]
fn write_switches_output_on_and_drains() {
    let mut usart = UsartInner::new();
    assert!(!usart.output_enabled());
    assert_eq!(usart.write_byte(7), Ok(()));
    assert!(usart.output_enabled());
    assert_eq!(usart.write_byte(8), Ok(()));
    assert_eq!(usart.write_byte_actual(), Some(7));
    assert_eq!(usart.write_byte_actual(), Some(8));
    assert!(usart.output_enabled());
    assert_eq!(usart.write_byte_actual(), None);
    assert!(!usart.output_enabled());
}

#[test]
fn write_blocks_when_queue_full() {
    let mut usart = UsartInner::new();
    for byte in 0..63u8 {
        assert_eq!(usart.write_byte(byte), Ok(()));
    }
    assert_eq!(usart.write_byte(63), Err(UsartError::Blocked));
    assert_eq!(usart.write_byte_actual(), Some(0));
    assert_eq!(usart.write_byte(63), Ok(()));
}

#[test]
fn received_bytes_are_read_in_order() {
    let mut usart = UsartInner::new();
    assert_eq!(usart.read_byte(), Err(UsartError::Blocked));
    for byte in [1u8, 2, 3] {
        usart.read_byte_actual(byte);
    }
    let mut buffer = [0u8; 4];
    assert_eq!(usart.read(&mut buffer), Err(UsartError::Blocked));
    assert_eq!(buffer, [0; 4]);
    let mut buffer = [0u8; 2];
    assert_eq!(usart.read(&mut buffer), Ok(()));
    assert_eq!(buffer, [1, 2]);
    assert_eq!(usart.read_byte(), Ok(3));
    assert_eq!(usart.read_byte(), Err(UsartError::Blocked));
}

#[test]
fn receive_overflow_drops_bytes() {
    let mut usart = UsartInner::new();
    for byte in 0..70u8 {
        usart.read_byte_actual(byte);
    }
    let mut buffer = [0u8; 63];
    assert_eq!(usart.read(&mut buffer), Ok(()));
    assert_eq!(buffer[62], 62);
    assert_eq!(usart.read_byte(), Err(UsartError::Blocked));
}

#[test]
fn status_maps_to_result() {
    assert_eq!(status_to_result(Status::Success), Ok(()));
    assert_eq!(status_to_result(Status::BufferFull), Err(UsartError::Blocked));
    assert_ne!(State::Idle, State::Buffer);
}
