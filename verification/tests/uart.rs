use geiger_core::uart::{
    line_coding_to_uart_config, CdcParity, CdcStopBits, DataBits, LineCoding, Parity, StopBits,
    UartConfig,
};

fn coding(data_bits: u8, stop_bits: CdcStopBits, parity_type: CdcParity) -> LineCoding {
    LineCoding { data_rate: 115_200, data_bits, stop_bits, parity_type }
}

#[test]
fn default_line_coding_gives_eight_none_one() {
    let host = LineCoding {
        data_rate: 8_000,
        data_bits: 8,
        stop_bits: CdcStopBits::One,
        parity_type: CdcParity::NoParity,
    };
    assert_eq!(
        line_coding_to_uart_config(&host),
        UartConfig {
            baudrate: 8_000,
            data_bits: DataBits::DataBits8,
            stop_bits: StopBits::Stop1,
            parity: Parity::ParityNone,
        }
    );
}

#[test]
fn data_rate_becomes_the_baud_rate() {
    for rate in [0u32, 300, 9_600, 115_200, u32::MAX] {
        let host = LineCoding {
            data_rate: rate,
            data_bits: 8,
            stop_bits: CdcStopBits::One,
            parity_type: CdcParity::NoParity,
        };
        assert_eq!(line_coding_to_uart_config(&host).baudrate, rate);
    }
}

#[test]
fn data_bits_outside_seven_to_nine_give_eight() {
    let bits = |n: u8| {
        line_coding_to_uart_config(&coding(n, CdcStopBits::One, CdcParity::NoParity)).data_bits
    };
    assert_eq!(bits(7), DataBits::DataBits7);
    assert_eq!(bits(8), DataBits::DataBits8);
    assert_eq!(bits(9), DataBits::DataBits9);
    assert_eq!(bits(0), DataBits::DataBits8);
    assert_eq!(bits(5), DataBits::DataBits8);
    assert_eq!(bits(6), DataBits::DataBits8);
    assert_eq!(bits(10), DataBits::DataBits8);
    assert_eq!(bits(16), DataBits::DataBits8);
    assert_eq!(bits(255), DataBits::DataBits8);
}

#[test]
fn stop_bits_map_one_to_one() {
    let stop = |s: CdcStopBits| {
        line_coding_to_uart_config(&coding(8, s, CdcParity::NoParity)).stop_bits
    };
    assert_eq!(stop(CdcStopBits::One), StopBits::Stop1);
    assert_eq!(stop(CdcStopBits::OnePointFive), StopBits::Stop1P5);
    assert_eq!(stop(CdcStopBits::Two), StopBits::Stop2);
}

#[test]
fn mark_and_space_parity_give_none() {
    let parity =
        |p: CdcParity| line_coding_to_uart_config(&coding(8, CdcStopBits::One, p)).parity;
    assert_eq!(parity(CdcParity::NoParity), Parity::ParityNone);
    assert_eq!(parity(CdcParity::Odd), Parity::ParityOdd);
    assert_eq!(parity(CdcParity::Even), Parity::ParityEven);
    assert_eq!(parity(CdcParity::Mark), Parity::ParityNone);
    assert_eq!(parity(CdcParity::Space), Parity::ParityNone);
}
