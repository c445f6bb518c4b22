use sm4::serial::{baud_rate_divisor, control3_bits, dma_bits, frame_format_bits, rx_read, Config, DmaConfig, Error, InvalidConfig, Parity, RxOutcome, RxStatus, StopBits, WordLength};
use sm4::timing::{blink_period, control_period, failsafe_tick_period, heartbeat_tick_period, monitoring_period, ramping_period};

#[test]
fn default_configuration() {
    let c = Config::default();
    assert_eq!(c.baudrate, 19_200);
    assert_eq!(c.wordlength, WordLength::DataBits8);
    assert_eq!(c.parity, Parity::ParityNone);
    assert_eq!(c.stopbits, StopBits::STOP1);
    assert_eq!(c.dma, DmaConfig::NoDma);
    assert!(!c.half_duplex);
}

#[test]
fn configuration_builders() {
    let c = Config::default().baudrate(115_200).parity_odd().wordlength_9().stopbits(StopBits::STOP2).half_duplex();
    assert_eq!(c.baudrate, 115_200);
    assert_eq!(c.parity, Parity::ParityOdd);
    assert_eq!(c.wordlength, WordLength::DataBits9);
    assert_eq!(c.stopbits, StopBits::STOP2);
    assert!(c.half_duplex);
    assert_eq!(frame_format_bits(&c), (true, true, true));
    let c = c.parity_even().wordlength_8();
    assert_eq!(frame_format_bits(&c), (false, true, false));
    assert_eq!(frame_format_bits(&c.parity_none()), (false, false, false));
    assert_eq!(dma_bits(DmaConfig::Tx), (true, false));
    assert_eq!(dma_bits(DmaConfig::Rx), (false, true));
    assert_eq!(dma_bits(DmaConfig::TxRx), (true, true));
    assert_eq!(dma_bits(DmaConfig::NoDma), (false, false));
}

#[test]
fn baud_rate_divisors() {
    // 16 times oversampling: the divisor is rounded to the nearest integer
    assert_eq!(baud_rate_divisor(42_000_000, 19_200), Ok((false, 2188)));
    assert_eq!(baud_rate_divisor(84_000_000, 115_200), Ok((false, 729)));
    // 8 times oversampling: 20 is 0x14, whose fraction 4 moves to 2
    assert_eq!(baud_rate_divisor(1_000_000, 100_000), Ok((true, 18)));
    // out of reach
    assert_eq!(baud_rate_divisor(1_000_000, 200_000), Err(InvalidConfig));
}

#[test]
fn task_periods() {
    assert_eq!(blink_period(), 1_680_000);
    assert_eq!(monitoring_period(), 16_800_000);
    assert_eq!(ramping_period(), 168_000);
    assert_eq!(control_period(), 1_680_000);
    assert_eq!(failsafe_tick_period(), 16_800_000);
    assert_eq!(heartbeat_tick_period(), 84_000_000);
}

#[test]
fn control3_dma_clears_half_duplex() {
    let half = Config::default().half_duplex();
    assert_eq!(control3_bits(&half), (true, false, false));
    let mut with_dma = half;
    with_dma.dma = DmaConfig::TxRx;
    assert_eq!(control3_bits(&with_dma), (false, true, true));
    assert_eq!(control3_bits(&Config::default()), (false, false, false));
}

#[test]
fn receiver_reads() {
    let none = RxStatus { parity_error: false, framing_error: false, noise: false, overrun: false, rx_not_empty: false };
    assert_eq!(rx_read(none, 7), RxOutcome::WouldBlock);
    assert_eq!(rx_read(RxStatus { rx_not_empty: true, ..none }, 0x41), RxOutcome::Word(0x41));
    assert_eq!(
        rx_read(RxStatus { rx_not_empty: true, overrun: true, framing_error: true, ..none }, 0x41),
        RxOutcome::Failed(Error::Framing)
    );
    assert_eq!(rx_read(RxStatus { parity_error: true, noise: true, ..none }, 0), RxOutcome::Failed(Error::Parity));
    assert_eq!(rx_read(RxStatus { noise: true, ..none }, 0), RxOutcome::Failed(Error::Noise));
}
