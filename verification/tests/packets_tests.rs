//! Codec tests: parsing, encoding, and the info round trip on concrete bytes.

use cfloader::packets::BufferReadPacket;
use cfloader::packets::FlashError;
use cfloader::packets::FlashReadPacket;
use cfloader::packets::FlashWriteResponse;
use cfloader::packets::InfoPacket;
use cfloader::Error;

/// The info payload of the flight-controller target used by several tests:
/// command byte, then page_size=1024, n_buff_page=10, n_flash_page=1024,
/// flash_start=128, a zero CPU id, version 0x10.
fn stm32_info_payload() -> Vec<u8> {
    let mut bytes = vec![0x10, 0x00, 0x04, 0x0A, 0x00, 0x00, 0x04, 0x80, 0x00];
    bytes.extend_from_slice(&[0u8; 12]);
    bytes.push(0x10);
    bytes
}

#[test]
fn info_parse_concrete() {
    let bytes = stm32_info_payload();
    let info = InfoPacket::from_bytes(&bytes).unwrap();
    assert_eq!(info.page_size(), 1024);
    assert_eq!(info.n_buff_page(), 10);
    assert_eq!(info.n_flash_page(), 1024);
    assert_eq!(info.flash_start(), 128);
    assert_eq!(info.version(), 0x10);
    assert_eq!(info.cpu_id, [0u8; 12]);
}

#[test]
fn info_round_trip_preserves_all_fields() {
    let original = InfoPacket {
        page_size: 1024,
        n_buff_page: 10,
        n_flash_page: 1024,
        flash_start: 128,
        cpu_id: [1, 2, 3, 4, 5, 6, 7, 8, 9, 10, 11, 12],
        version: 0x10,
    };
    let bytes = original.to_bytes();
    assert_eq!(bytes.len(), 22);
    let parsed = InfoPacket::from_bytes(&bytes).unwrap();
    assert_eq!(parsed.page_size(), original.page_size);
    assert_eq!(parsed.n_buff_page(), original.n_buff_page);
    assert_eq!(parsed.n_flash_page(), original.n_flash_page);
    assert_eq!(parsed.flash_start(), original.flash_start);
    assert_eq!(parsed.cpu_id, original.cpu_id);
    assert_eq!(parsed.version(), original.version);
    assert_eq!(parsed, original);
}

#[test]
fn info_round_trip_odd_values() {
    let original = InfoPacket {
        page_size: 0x1234,
        n_buff_page: 0xFFFF,
        n_flash_page: 0xABCD,
        flash_start: 0x0001,
        cpu_id: [0xFF; 12],
        version: 0xFE,
    };
    let parsed = InfoPacket::from_bytes(&original.to_bytes()).unwrap();
    assert_eq!(parsed, original);
}

#[test]
fn info_too_short_is_malformed() {
    let bytes = vec![0u8; 21];
    assert_eq!(InfoPacket::from_bytes(&bytes), Err(Error::MalformedInfo));
    assert_eq!(InfoPacket::from_bytes(&[]), Err(Error::MalformedInfo));
}

#[test]
fn flash_read_packet_parse() {
    let mut bytes = vec![0x1C, 0x80, 0x00, 0x00, 0x00];
    let data: Vec<u8> = (0..27).collect();
    bytes.extend_from_slice(&data);
    let packet = FlashReadPacket::from_bytes(&bytes).unwrap();
    assert_eq!(packet.page, 128);
    assert_eq!(packet.address, 0);
    assert_eq!(packet.data, data);
}

#[test]
fn flash_read_packet_too_short_is_malformed() {
    let bytes = vec![0x1C, 0x80, 0x00, 0x00];
    assert_eq!(
        FlashReadPacket::from_bytes(&bytes),
        Err(Error::MalformedReadResponse)
    );
}

#[test]
fn buffer_read_packet_parse() {
    let bytes = vec![0x15, 0x02, 0x00, 0x10, 0x00, 0xAA, 0xBB];
    let packet = BufferReadPacket::from_bytes(&bytes).unwrap();
    assert_eq!(packet.page, 2);
    assert_eq!(packet.address, 16);
    assert_eq!(packet.data, vec![0xAA, 0xBB]);
}

#[test]
fn buffer_read_packet_too_short_is_malformed() {
    assert_eq!(
        BufferReadPacket::from_bytes(&[0x15, 0x02, 0x00, 0x10]),
        Err(Error::MalformedReadResponse)
    );
}

#[test]
fn flash_write_response_success() {
    let response = FlashWriteResponse::from_bytes(&[0x18, 0x01, 0x00]).unwrap();
    assert!(response.is_done());
    assert_eq!(response.error(), FlashError::NoError);
    assert!(response.is_success());
}

#[test]
fn flash_write_response_erase_failure() {
    let response = FlashWriteResponse::from_bytes(&[0x18, 0x01, 0x02]).unwrap();
    assert!(response.is_done());
    assert_eq!(response.error(), FlashError::FlashEraseFailed);
    assert!(!response.is_success());
}

#[test]
fn flash_write_response_not_done_is_not_success() {
    let response = FlashWriteResponse::from_bytes(&[0x18, 0x00, 0x00]).unwrap();
    assert!(!response.is_done());
    assert!(!response.is_success());
}

#[test]
fn flash_write_response_too_short_is_malformed() {
    assert_eq!(
        FlashWriteResponse::from_bytes(&[0x18, 0x01]),
        Err(Error::MalformedFlashStatus)
    );
}

#[test]
fn flash_error_codes() {
    assert_eq!(FlashError::from_code(0), FlashError::NoError);
    assert_eq!(FlashError::from_code(1), FlashError::AddressOutOfBounds);
    assert_eq!(FlashError::from_code(2), FlashError::FlashEraseFailed);
    assert_eq!(FlashError::from_code(3), FlashError::FlashProgrammingFailed);
    // Unknown codes collapse to no error for forward compatibility.
    assert_eq!(FlashError::from_code(7), FlashError::NoError);
    assert_eq!(FlashError::from_code(0xFF), FlashError::NoError);
}
