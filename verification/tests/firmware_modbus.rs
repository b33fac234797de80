use core::marker::PhantomData;
use modbus_mqtt_bridge::firmware::modbus::{frame_reader, ModBusError, ModBusReadRequest};
use modbus_mqtt_bridge::modbus::rtu::{FrameAction, ReadEvent};

struct Raw(Vec<u8>);

impl From<&[u8]> for Raw {
    fn from(data: &[u8]) -> Self {
        Raw(data.to_vec())
    }
}

#[test]
fn firmware_reader_waits_twice_the_interframe_time() {
    let mut reader = frame_reader(750);
    assert_eq!(reader.wait_us(), 1500);
    assert_eq!(reader.step(ReadEvent::Received(vec![1])), FrameAction::Wait(1500));
    assert_eq!(reader.wait_us(), 1500);
    assert_eq!(reader.step(ReadEvent::TimedOut), FrameAction::Done(Ok(())));
}

#[test]
fn firmware_request_and_error_values() {
    let request: ModBusReadRequest<Raw> =
        ModBusReadRequest::InputRegister { devide_id: 3, address: 9, marker: PhantomData };
    match request {
        ModBusReadRequest::InputRegister { devide_id, address, .. } => {
            assert_eq!((devide_id, address), (3, 9))
        }
        ModBusReadRequest::HoldingRegister { .. } => unreachable!(),
    }
    assert_ne!(ModBusError::CannotRead, ModBusError::CannotParse);
    let raw = Raw::from(&[1u8, 2][..]);
    assert_eq!(raw.0, vec![1, 2]);
}

use modbus_mqtt_bridge::firmware::modbus::{FirmwareAction, FirmwareEvent, FirmwareExchange};
use modbus_mqtt_bridge::modbus::{
    ModbusDataType, ModbusError, ModbusReadRequest, ModbusReadRequestType,
};

fn firmware_request() -> ModbusReadRequest {
    ModbusReadRequest::new(2, 8, ModbusReadRequestType::HoldingRegister, ModbusDataType::F32(0))
}

fn crc16(data: &[u8]) -> u16 {
    let mut crc: u16 = 0xffff;
    for b in data {
        crc ^= u16::from(*b);
        for _ in 0..8 {
            crc = if crc & 1 == 0 { crc >> 1 } else { (crc >> 1) ^ 0xa001 };
        }
    }
    crc
}

fn firmware_done(action: FirmwareAction) -> Result<ModbusDataType, ModbusError> {
    match action {
        FirmwareAction::Done(result) => result,
        _ => panic!("expected the end of the exchange"),
    }
}

fn firmware_reply_phase(exchange: &mut FirmwareExchange) {
    assert!(matches!(exchange.step(FirmwareEvent::Written(true)), FirmwareAction::Flush));
    assert!(matches!(exchange.step(FirmwareEvent::Flushed(true)), FirmwareAction::Sleep(90)));
    assert!(matches!(exchange.step(FirmwareEvent::Settled), FirmwareAction::Read(600)));
}

#[test]
fn firmware_exchange_reads_a_value() {
    let (mut exchange, first) = FirmwareExchange::start(firmware_request(), 300, 90);
    match first {
        FirmwareAction::Write(frame) => {
            let mut expected = vec![0x02, 0x03, 0x00, 0x08, 0x00, 0x02];
            let crc = crc16(&expected);
            expected.extend_from_slice(&crc.to_le_bytes());
            assert_eq!(frame, expected);
        }
        _ => panic!("expected the request frame"),
    }
    firmware_reply_phase(&mut exchange);
    let mut reply = vec![0x02, 0x03, 0x04, 0x3f, 0x80, 0x00, 0x00];
    let crc = crc16(&reply);
    reply.extend_from_slice(&crc.to_le_bytes());
    assert!(matches!(
        exchange.step(FirmwareEvent::Read(ReadEvent::Received(reply))),
        FirmwareAction::Read(600)
    ));
    assert_eq!(
        firmware_done(exchange.step(FirmwareEvent::Read(ReadEvent::TimedOut))),
        Ok(ModbusDataType::F32(0x3f80_0000))
    );
}

#[test]
fn firmware_exchange_reports_a_refused_reply_as_a_parse_error() {
    let (mut exchange, _) = FirmwareExchange::start(firmware_request(), 300, 90);
    firmware_reply_phase(&mut exchange);
    let _ = exchange.step(FirmwareEvent::Read(ReadEvent::Received(vec![2, 3, 4, 0, 0, 0, 0, 0, 0])));
    assert_eq!(
        firmware_done(exchange.step(FirmwareEvent::Read(ReadEvent::TimedOut))),
        Err(ModbusError::CannotParse)
    );
}

#[test]
fn firmware_exchange_reports_write_failures() {
    let (mut exchange, _) = FirmwareExchange::start(firmware_request(), 300, 90);
    assert_eq!(firmware_done(exchange.step(FirmwareEvent::Written(false))), Err(ModbusError::ModbusWriteError));
    let (mut exchange, _) = FirmwareExchange::start(firmware_request(), 300, 90);
    let _ = exchange.step(FirmwareEvent::Written(true));
    assert_eq!(firmware_done(exchange.step(FirmwareEvent::Flushed(false))), Err(ModbusError::ModbusWriteError));
}
