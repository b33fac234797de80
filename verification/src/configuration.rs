//! The bridge's configuration, and the serial line settings it asks for.
use vstd::prelude::*;

verus! {

/// Where and as whom the bridge publishes.
#[derive(Debug)]
pub struct MqttConfiguration<'a> {
    pub endpoint: &'a str,
    pub username: &'a str,
    pub password: &'a str,
    pub device_id: &'a str,
}

/// The wireless network the bridge joins.
#[derive(Debug)]
pub struct NetworkConfiguration<'a> {
    pub name: &'a str,
    pub password: &'a str,
}

/// Parity of the serial line (`N`, `O` or `E` in the configuration file).
#[derive(Debug, Clone, Copy, PartialEq, Eq, Structural)]
pub enum Parity {
    NoParity,
    Odd,
    Even,
}

/// The serial line to the Modbus devices, as configured.
#[derive(Debug)]
pub struct SerialConfiguration {
    pub baud_rate: u32,
    pub data_bits: u8,
    pub parity: Parity,
    pub stop_bits: u8,
}

/// The whole configuration of the bridge. Times are in milliseconds.
#[derive(Debug)]
pub struct Configuration<'a> {
    pub mqtt: MqttConfiguration<'a>,
    pub network: NetworkConfiguration<'a>,
    pub serial: SerialConfiguration,
    pub polling_interval: u64,
    pub reconnect_delay: u64,
    pub inter_request_delay: Option<u64>,
}

/// The configuration of the bridge when it runs as a service on a computer:
/// the bridge's own, and the serial device to open.
#[derive(Debug)]
pub struct PcConfiguration<'a> {
    pub bridge: Configuration<'a>,
    pub device_tty: &'a str,
}

/// Data bits per character that a UART can be set to.
#[derive(Debug, Clone, Copy, PartialEq, Eq, Structural)]
pub enum DataBits {
    Five,
    Six,
    Seven,
    Eight,
}

/// Stop bits that a UART can be set to.
#[derive(Debug, Clone, Copy, PartialEq, Eq, Structural)]
pub enum StopBits {
    One,
    Two,
}

/// The settings to open the serial line with.
#[derive(Debug, Clone, Copy, PartialEq, Eq, Structural)]
pub struct UartSettings {
    pub baud_rate: u32,
    pub data_bits: DataBits,
    pub parity: Parity,
    pub stop_bits: StopBits,
}

/// 5, 6 and 7 data bits are taken as given; anything else is 8.
pub open spec fn data_bits_setting(data_bits: u8) -> DataBits {
    if data_bits == 5 {
        DataBits::Five
    } else if data_bits == 6 {
        DataBits::Six
    } else if data_bits == 7 {
        DataBits::Seven
    } else {
        DataBits::Eight
    }
}

/// 2 stop bits are taken as given; anything else is 1.
pub open spec fn stop_bits_setting(stop_bits: u8) -> StopBits {
    if stop_bits == 2 {
        StopBits::Two
    } else {
        StopBits::One
    }
}

/// The UART gets two stop bits exactly when two are configured, and one
/// otherwise (so one for one); it gets 5, 6 or 7 data bits exactly when that
/// many are configured, and 8 otherwise (so 8 for 8).
pub proof fn lemma_line_settings(data_bits: u8, stop_bits: u8)
    ensures
        (stop_bits_setting(stop_bits) == StopBits::Two) == (stop_bits == 2),
        (stop_bits_setting(stop_bits) == StopBits::One) == (stop_bits != 2),
        (data_bits_setting(data_bits) == DataBits::Five) == (data_bits == 5),
        (data_bits_setting(data_bits) == DataBits::Six) == (data_bits == 6),
        (data_bits_setting(data_bits) == DataBits::Seven) == (data_bits == 7),
        (data_bits_setting(data_bits) == DataBits::Eight) == (data_bits != 5 && data_bits != 6
            && data_bits != 7),
{
}

impl SerialConfiguration {
    /// The UART settings for this configuration: its baud rate and parity,
    /// and its data and stop bits where the UART has them (8 data bits and 1
    /// stop bit otherwise).
    pub fn uart_settings(&self) -> (r: UartSettings)
        ensures
            r == (UartSettings {
                baud_rate: self.baud_rate,
                data_bits: data_bits_setting(self.data_bits),
                parity: self.parity,
                stop_bits: stop_bits_setting(self.stop_bits),
            }),
            r.baud_rate == self.baud_rate,
            r.parity == self.parity,
            (r.stop_bits == StopBits::Two) == (self.stop_bits == 2),
            (r.stop_bits == StopBits::One) == (self.stop_bits != 2),
            (r.data_bits == DataBits::Five) == (self.data_bits == 5),
            (r.data_bits == DataBits::Six) == (self.data_bits == 6),
            (r.data_bits == DataBits::Seven) == (self.data_bits == 7),
            (r.data_bits == DataBits::Eight) == (self.data_bits != 5 && self.data_bits != 6
                && self.data_bits != 7),
    {
        proof {
            lemma_line_settings(self.data_bits, self.stop_bits);
        }
        let parity = match self.parity {
            Parity::Even => Parity::Even,
            Parity::Odd => Parity::Odd,
            _ => Parity::NoParity,
        };
        let stop_bits = match self.stop_bits {
            2 => StopBits::Two,
            _ => StopBits::One,
        };
        let data_bits = match self.data_bits {
            7 => DataBits::Seven,
            6 => DataBits::Six,
            5 => DataBits::Five,
            _ => DataBits::Eight,
        };
        UartSettings { baud_rate: self.baud_rate, data_bits, parity, stop_bits }
    }
}

} // verus!
