use modbus_mqtt_bridge::configuration::{
    DataBits, Parity, SerialConfiguration, StopBits, UartSettings,
};

fn serial(data_bits: u8, parity: Parity, stop_bits: u8) -> SerialConfiguration {
    SerialConfiguration { baud_rate: 9600, data_bits, parity, stop_bits }
}

#[test]
fn uart_settings_keep_what_the_uart_has() {
    assert_eq!(
        serial(7, Parity::Even, 2).uart_settings(),
        UartSettings {
            baud_rate: 9600,
            data_bits: DataBits::Seven,
            parity: Parity::Even,
            stop_bits: StopBits::Two
        }
    );
    assert_eq!(serial(5, Parity::Odd, 1).uart_settings().data_bits, DataBits::Five);
    assert_eq!(serial(6, Parity::Odd, 1).uart_settings().data_bits, DataBits::Six);
    assert_eq!(serial(6, Parity::Odd, 1).uart_settings().parity, Parity::Odd);
}

#[test]
fn uart_settings_default_to_eight_data_bits_and_one_stop_bit() {
    let settings = serial(9, Parity::NoParity, 3).uart_settings();
    assert_eq!(settings.data_bits, DataBits::Eight);
    assert_eq!(settings.stop_bits, StopBits::One);
    assert_eq!(settings.parity, Parity::NoParity);
    assert_eq!(serial(8, Parity::NoParity, 0).uart_settings().data_bits, DataBits::Eight);
}
