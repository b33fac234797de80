use modbus_mqtt_bridge::modbus::rtu::{ExchangeAction, ExchangeEvent, ReadEvent, RtuExchange};
use modbus_mqtt_bridge::modbus::{
    ModbusDataType, ModbusError, ModbusReadRequest, ModbusReadRequestType,
};

fn request() -> ModbusReadRequest {
    ModbusReadRequest::new(1, 0, ModbusReadRequestType::InputRegister, ModbusDataType::F32(0))
}

fn expect_read(action: ExchangeAction) -> u64 {
    match action {
        ExchangeAction::Read(wait) => wait,
        _ => panic!("expected a read"),
    }
}

fn expect_done(action: ExchangeAction) -> Result<ModbusDataType, ModbusError> {
    match action {
        ExchangeAction::Done(result) => result,
        _ => panic!("expected the end of the exchange"),
    }
}

#[test]
fn exchange_reads_a_value() {
    let (mut exchange, first) = RtuExchange::start(request(), 2000, 5);
    assert_eq!(expect_read(first), 2000);
    // stale bytes on the line are read and dropped
    assert_eq!(expect_read(exchange.step(ExchangeEvent::Read(ReadEvent::Received(vec![9, 9])))), 2000);
    let frame = match exchange.step(ExchangeEvent::Read(ReadEvent::TimedOut)) {
        ExchangeAction::Write(frame) => frame,
        _ => panic!("expected the request frame"),
    };
    assert_eq!(frame, vec![0x01, 0x04, 0x00, 0x00, 0x00, 0x02, 0x71, 0xcb]);
    assert!(matches!(exchange.step(ExchangeEvent::Written(true)), ExchangeAction::Flush));
    assert_eq!(expect_read(exchange.step(ExchangeEvent::Flushed(true))), 10000);
    let reply = vec![0x01, 0x04, 0x04, 0x42, 0x48, 0x00, 0x00];
    let crc = {
        let mut crc: u16 = 0xffff;
        for b in &reply {
            crc ^= u16::from(*b);
            for _ in 0..8 {
                crc = if crc & 1 == 0 { crc >> 1 } else { (crc >> 1) ^ 0xa001 };
            }
        }
        crc
    };
    assert_eq!(expect_read(exchange.step(ExchangeEvent::Read(ReadEvent::Received(reply[..3].to_vec())))), 2000);
    let mut rest = reply[3..].to_vec();
    rest.extend_from_slice(&crc.to_le_bytes());
    assert_eq!(expect_read(exchange.step(ExchangeEvent::Read(ReadEvent::Received(rest)))), 2000);
    assert_eq!(
        expect_done(exchange.step(ExchangeEvent::Read(ReadEvent::TimedOut))),
        Ok(ModbusDataType::F32(0x4248_0000))
    );
}

#[test]
fn exchange_ignores_a_failed_drain() {
    let (mut exchange, _) = RtuExchange::start(request(), 100, 1);
    assert!(matches!(exchange.step(ExchangeEvent::Read(ReadEvent::Failed)), ExchangeAction::Write(_)));
}

#[test]
fn exchange_reports_write_and_flush_failures() {
    let (mut exchange, _) = RtuExchange::start(request(), 100, 1);
    let _ = exchange.step(ExchangeEvent::Read(ReadEvent::TimedOut));
    assert_eq!(expect_done(exchange.step(ExchangeEvent::Written(false))), Err(ModbusError::ModbusWriteError));

    let (mut exchange, _) = RtuExchange::start(request(), 100, 1);
    let _ = exchange.step(ExchangeEvent::Read(ReadEvent::TimedOut));
    let _ = exchange.step(ExchangeEvent::Written(true));
    assert_eq!(expect_done(exchange.step(ExchangeEvent::Flushed(false))), Err(ModbusError::ModbusWriteError));
}

#[test]
fn exchange_reports_read_failures() {
    let (mut exchange, _) = RtuExchange::start(request(), 100, 1);
    let _ = exchange.step(ExchangeEvent::Read(ReadEvent::TimedOut));
    let _ = exchange.step(ExchangeEvent::Written(true));
    let _ = exchange.step(ExchangeEvent::Flushed(true));
    assert_eq!(
        expect_done(exchange.step(ExchangeEvent::Read(ReadEvent::TimedOut))),
        Err(ModbusError::ModbusReadTimeout)
    );

    let (mut exchange, _) = RtuExchange::start(request(), 100, 1);
    let _ = exchange.step(ExchangeEvent::Read(ReadEvent::TimedOut));
    let _ = exchange.step(ExchangeEvent::Written(true));
    let _ = exchange.step(ExchangeEvent::Flushed(true));
    let _ = exchange.step(ExchangeEvent::Read(ReadEvent::Received(vec![1, 2, 3])));
    assert_eq!(
        expect_done(exchange.step(ExchangeEvent::Read(ReadEvent::TimedOut))),
        Err(ModbusError::FrameIntegrityError)
    );
}
