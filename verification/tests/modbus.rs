use modbus_mqtt_bridge::modbus::rtu::{FrameAction, ReadEvent, RtuFrameReader};
use modbus_mqtt_bridge::modbus::{
    ModbusDataType, ModbusError, ModbusReadRequest, ModbusReadRequestType,
};

fn crc16(data: &[u8]) -> u16 {
    let mut crc: u16 = 0xffff;
    for b in data {
        crc ^= u16::from(*b);
        for _ in 0..8 {
            if crc & 1 == 0 {
                crc >>= 1;
            } else {
                crc = (crc >> 1) ^ 0xa001;
            }
        }
    }
    crc
}

fn with_crc(mut frame: Vec<u8>) -> Vec<u8> {
    let crc = crc16(&frame);
    frame.extend_from_slice(&crc.to_le_bytes());
    frame
}

#[test]
fn count_of_f32_is_two_registers() {
    assert_eq!(ModbusDataType::F32(0).count(), 2);
}

#[test]
fn try_parse_reads_big_endian() {
    let parsed = ModbusDataType::F32(0).try_parse(&[0x3f, 0xc0, 0x00, 0x00]).unwrap();
    assert_eq!(parsed, ModbusDataType::F32(0x3fc0_0000));
    let bits = match parsed {
        ModbusDataType::F32(bits) => bits,
        _ => unreachable!(),
    };
    assert_eq!(f32::from_bits(bits), 1.5f32);
}

#[test]
fn try_parse_refuses_other_sizes() {
    assert_eq!(ModbusDataType::F32(0).try_parse(&[1, 2, 3]), Err(ModbusError::CannotParse));
    assert_eq!(ModbusDataType::F32(0).try_parse(&[1, 2, 3, 4, 5]), Err(ModbusError::CannotParse));
    assert_eq!(ModbusDataType::F32(0).try_parse(&[]), Err(ModbusError::CannotParse));
}

#[test]
fn request_frame_for_input_registers() {
    let request =
        ModbusReadRequest::new(1, 0, ModbusReadRequestType::InputRegister, ModbusDataType::F32(0));
    let frame = request.request_frame().unwrap();
    assert_eq!(frame, vec![0x01, 0x04, 0x00, 0x00, 0x00, 0x02, 0x71, 0xcb]);
}

#[test]
fn request_frame_for_holding_registers() {
    let request = ModbusReadRequest::new(
        0x11,
        0x0102,
        ModbusReadRequestType::HoldingRegister,
        ModbusDataType::F32(0),
    );
    let frame = request.request_frame().unwrap();
    assert_eq!(frame, with_crc(vec![0x11, 0x03, 0x01, 0x02, 0x00, 0x02]));
}

#[test]
fn request_accessors() {
    let request =
        ModbusReadRequest::new(5, 77, ModbusReadRequestType::HoldingRegister, ModbusDataType::F32(9));
    assert_eq!(request.device_id(), 5);
    assert_eq!(request.address(), 77);
    assert_eq!(request.request_type(), ModbusReadRequestType::HoldingRegister);
    assert_eq!(request.requested_data(), ModbusDataType::F32(9));
}

#[test]
fn parse_response_reads_the_value() {
    let request =
        ModbusReadRequest::new(1, 0, ModbusReadRequestType::InputRegister, ModbusDataType::F32(0));
    let response = with_crc(vec![0x01, 0x04, 0x04, 0x42, 0x48, 0x00, 0x00]);
    let value = request.parse_response(&response).unwrap();
    assert_eq!(value, ModbusDataType::F32(0x4248_0000));
    let bits = match value {
        ModbusDataType::F32(bits) => bits,
        _ => unreachable!(),
    };
    assert_eq!(f32::from_bits(bits), 50.0f32);
}

#[test]
fn parse_response_of_a_holding_read() {
    let request =
        ModbusReadRequest::new(2, 8, ModbusReadRequestType::HoldingRegister, ModbusDataType::F32(0));
    let response = with_crc(vec![0x02, 0x03, 0x04, 0xbf, 0x80, 0x00, 0x00]);
    assert_eq!(request.parse_response(&response), Ok(ModbusDataType::F32(0xbf80_0000)));
}

#[test]
fn parse_response_refuses_a_broken_frame() {
    let request =
        ModbusReadRequest::new(1, 0, ModbusReadRequestType::InputRegister, ModbusDataType::F32(0));
    let mut bad_crc = with_crc(vec![0x01, 0x04, 0x04, 0x42, 0x48, 0x00, 0x00]);
    bad_crc[7] ^= 0xff;
    assert_eq!(request.parse_response(&bad_crc), Err(ModbusError::FrameIntegrityError));
    let other_device = with_crc(vec![0x02, 0x04, 0x04, 0x42, 0x48, 0x00, 0x00]);
    assert_eq!(request.parse_response(&other_device), Err(ModbusError::FrameIntegrityError));
    let other_function = with_crc(vec![0x01, 0x03, 0x04, 0x42, 0x48, 0x00, 0x00]);
    assert_eq!(request.parse_response(&other_function), Err(ModbusError::FrameIntegrityError));
    let exception = with_crc(vec![0x01, 0x84, 0x02]);
    assert_eq!(request.parse_response(&exception), Err(ModbusError::FrameIntegrityError));
    assert_eq!(request.parse_response(&[0x01, 0x04]), Err(ModbusError::FrameIntegrityError));
}

#[test]
fn parse_response_refuses_data_of_the_wrong_size() {
    let request =
        ModbusReadRequest::new(1, 0, ModbusReadRequestType::InputRegister, ModbusDataType::F32(0));
    let response = with_crc(vec![0x01, 0x04, 0x02, 0x12, 0x34]);
    assert_eq!(request.parse_response(&response), Err(ModbusError::CannotParse));
}

#[test]
fn frame_reader_collects_until_silence() {
    let mut reader = RtuFrameReader::new(1000, 3);
    assert_eq!(reader.wait_us(), 3000);
    assert_eq!(reader.step(ReadEvent::Received(vec![1, 4])), FrameAction::Wait(1000));
    assert_eq!(reader.wait_us(), 1000);
    assert_eq!(reader.step(ReadEvent::Received(vec![4, 0x42])), FrameAction::Wait(1000));
    assert_eq!(reader.step(ReadEvent::TimedOut), FrameAction::Done(Ok(())));
    assert_eq!(reader.frame(), &[1, 4, 4, 0x42]);
}

#[test]
fn frame_reader_times_out_without_bytes() {
    let mut reader = RtuFrameReader::new(500, 1);
    assert_eq!(reader.step(ReadEvent::TimedOut), FrameAction::Done(Err(ModbusError::ModbusReadTimeout)));
}

#[test]
fn frame_reader_reports_a_failed_read() {
    let mut reader = RtuFrameReader::new(500, 1);
    assert_eq!(reader.step(ReadEvent::Received(vec![7])), FrameAction::Wait(500));
    assert_eq!(reader.step(ReadEvent::Failed), FrameAction::Done(Err(ModbusError::ModbusReadError)));
    assert_eq!(reader.frame(), &[7]);
}

#[test]
fn frame_reader_refuses_more_than_it_holds() {
    let mut reader = RtuFrameReader::new(500, 2);
    assert_eq!(reader.step(ReadEvent::Received(vec![0; 200])), FrameAction::Wait(500));
    assert_eq!(reader.step(ReadEvent::Received(vec![0; 56])), FrameAction::Wait(500));
    assert_eq!(
        reader.step(ReadEvent::Received(vec![0; 1])),
        FrameAction::Done(Err(ModbusError::ModbusReadOverflow))
    );
    assert_eq!(reader.frame().len(), 256);
}

#[test]
fn request_frame_crc_of_a_holding_read_on_device_one() {
    let request =
        ModbusReadRequest::new(1, 0, ModbusReadRequestType::HoldingRegister, ModbusDataType::F32(0));
    let frame = request.request_frame().unwrap();
    assert_eq!(frame, vec![0x01, 0x03, 0x00, 0x00, 0x00, 0x02, 0xc4, 0x0b]);
}

#[test]
fn parse_response_refuses_a_byte_count_too_small_for_the_data() {
    let request =
        ModbusReadRequest::new(1, 0, ModbusReadRequestType::InputRegister, ModbusDataType::F32(0));
    let response = with_crc(vec![0x01, 0x04, 0x01, 0x42, 0x48, 0x00, 0x00]);
    assert_eq!(request.parse_response(&response), Err(ModbusError::FrameIntegrityError));
    let response = with_crc(vec![0x01, 0x04, 0x02, 0x42, 0x48, 0x00, 0x00]);
    assert_eq!(request.parse_response(&response), Ok(ModbusDataType::F32(0x4248_0000)));
}
