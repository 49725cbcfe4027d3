//! From the line coding that a USB host asks for to the settings of the UART
//! behind the bridge.

use vstd::prelude::*;

verus! {

/// Stop bits, as a CDC-ACM line coding gives them.
#[derive(Clone, Copy, Debug, PartialEq, Eq, Structural)]
pub enum CdcStopBits {
    One,
    OnePointFive,
    Two,
}

/// Parity, as a CDC-ACM line coding gives it.
#[derive(Clone, Copy, Debug, PartialEq, Eq, Structural)]
pub enum CdcParity {
    NoParity,
    Odd,
    Even,
    Mark,
    Space,
}

/// The line coding that the host has set.
#[derive(Clone, Copy, Debug, PartialEq, Eq, Structural)]
pub struct LineCoding {
    pub data_rate: u32,
    pub data_bits: u8,
    pub stop_bits: CdcStopBits,
    pub parity_type: CdcParity,
}

/// The word lengths that the UART offers.
#[derive(Clone, Copy, Debug, PartialEq, Eq, Structural)]
pub enum DataBits {
    DataBits7,
    DataBits8,
    DataBits9,
}

/// The stop bits that the bridge sets on the UART.
#[derive(Clone, Copy, Debug, PartialEq, Eq, Structural)]
pub enum StopBits {
    Stop1,
    Stop1P5,
    Stop2,
}

/// The parities that the UART offers.
#[derive(Clone, Copy, Debug, PartialEq, Eq, Structural)]
pub enum Parity {
    ParityNone,
    ParityOdd,
    ParityEven,
}

/// The settings of the UART that a line coding decides.
#[derive(Clone, Copy, Debug, PartialEq, Eq, Structural)]
pub struct UartConfig {
    pub baudrate: u32,
    pub data_bits: DataBits,
    pub stop_bits: StopBits,
    pub parity: Parity,
}

/// Seven and nine data bits are taken as asked; any other number gives
/// eight.
pub open spec fn data_bits_for(bits: u8) -> DataBits {
    if bits == 7 {
        DataBits::DataBits7
    } else if bits == 9 {
        DataBits::DataBits9
    } else {
        DataBits::DataBits8
    }
}

/// Each number of stop bits has its own setting.
pub open spec fn stop_bits_for(stop_bits: CdcStopBits) -> StopBits {
    match stop_bits {
        CdcStopBits::One => StopBits::Stop1,
        CdcStopBits::OnePointFive => StopBits::Stop1P5,
        CdcStopBits::Two => StopBits::Stop2,
    }
}

/// Odd and even parity are taken as asked. The UART has no mark or space
/// parity: they give none.
pub open spec fn parity_for(parity: CdcParity) -> Parity {
    match parity {
        CdcParity::Odd => Parity::ParityOdd,
        CdcParity::Even => Parity::ParityEven,
        _ => Parity::ParityNone,
    }
}

/// The UART settings for a line coding: its data rate as the baud rate, and
/// the nearest word length, stop bits and parity that the UART offers.
pub fn line_coding_to_uart_config(line_coding: &LineCoding) -> (config: UartConfig)
    ensures
        config.baudrate == line_coding.data_rate,
        config.data_bits == data_bits_for(line_coding.data_bits),
        config.stop_bits == stop_bits_for(line_coding.stop_bits),
        config.parity == parity_for(line_coding.parity_type),
{
    let data_bits = match line_coding.data_bits {
        7 => DataBits::DataBits7,
        8 => DataBits::DataBits8,
        9 => DataBits::DataBits9,
        _ => DataBits::DataBits8,
    };
    let stop_bits = match line_coding.stop_bits {
        CdcStopBits::One => StopBits::Stop1,
        CdcStopBits::OnePointFive => StopBits::Stop1P5,
        CdcStopBits::Two => StopBits::Stop2,
    };
    let parity = match line_coding.parity_type {
        CdcParity::NoParity | CdcParity::Mark | CdcParity::Space => Parity::ParityNone,
        CdcParity::Odd => Parity::ParityOdd,
        CdcParity::Even => Parity::ParityEven,
    };
    UartConfig { baudrate: line_coding.data_rate, data_bits, stop_bits, parity }
}

} // verus!
