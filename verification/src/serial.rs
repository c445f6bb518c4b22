//! Configuration of the UART/USART peripherals: the frame format, the baud rate and
//! the baud rate divisor that the peripheral is programmed with.
//!
//! By default the peripheral uses 19200 baud, 8 data bits, no parity and one stop bit.

use vstd::prelude::*;

verus! {

/// A serial error.
#[derive(Copy, Clone, Debug, PartialEq, Eq, Structural)]
pub enum Error {
    /// Framing error
    Framing,
    /// Noise error
    Noise,
    /// RX buffer overrun
    Overrun,
    /// Parity check error
    Parity,
}

/// An interrupt event.
#[derive(Copy, Clone, Debug, PartialEq, Eq, Structural)]
pub enum Event {
    /// New data has been received
    Rxne,
    /// New data can be sent
    Txe,
    /// Idle line state detected
    Idle,
}

/// The number of data bits of a frame.
#[derive(Copy, Clone, Debug, PartialEq, Eq, Structural)]
pub enum WordLength {
    DataBits8,
    DataBits9,
}

/// The parity of a frame.
#[derive(Copy, Clone, Debug, PartialEq, Eq, Structural)]
pub enum Parity {
    ParityNone,
    ParityEven,
    ParityOdd,
}

/// The number of stop bits of a frame.
#[derive(Copy, Clone, Debug, PartialEq, Eq, Structural)]
pub enum StopBits {
    /// 1 stop bit
    STOP1,
    /// 0.5 stop bits
    STOP0P5,
    /// 2 stop bits
    STOP2,
    /// 1.5 stop bits
    STOP1P5,
}

/// The directions in which the peripheral uses DMA.
#[derive(Copy, Clone, Debug, PartialEq, Eq, Structural)]
pub enum DmaConfig {
    NoDma,
    Tx,
    Rx,
    TxRx,
}

/// The configuration of a serial peripheral.
#[derive(Copy, Clone, Debug, PartialEq, Eq, Structural)]
pub struct Config {
    /// The baud rate, in bits per second.
    pub baudrate: u32,
    pub wordlength: WordLength,
    pub parity: Parity,
    pub stopbits: StopBits,
    pub dma: DmaConfig,
    pub half_duplex: bool,
}

/// The baud rate cannot be reached with the peripheral clock.
#[derive(Copy, Clone, Debug, PartialEq, Eq, Structural)]
pub struct InvalidConfig;

impl Config {
    /// 19200 baud, 8 data bits, no parity, one stop bit, no DMA, full duplex.
    pub fn default() -> (c: Config)
        ensures
            c == (Config {
                baudrate: 19_200,
                wordlength: WordLength::DataBits8,
                parity: Parity::ParityNone,
                stopbits: StopBits::STOP1,
                dma: DmaConfig::NoDma,
                half_duplex: false,
            }),
    {
        Config {
            baudrate: 19_200,
            wordlength: WordLength::DataBits8,
            parity: Parity::ParityNone,
            stopbits: StopBits::STOP1,
            dma: DmaConfig::NoDma,
            half_duplex: false,
        }
    }

    /// The configuration with the given baud rate.
    pub fn baudrate(self, baudrate: u32) -> (c: Self)
        ensures
            c == (Config { baudrate, ..self }),
    {
        Config { baudrate, ..self }
    }

    /// The configuration without parity.
    pub fn parity_none(self) -> (c: Self)
        ensures
            c == (Config { parity: Parity::ParityNone, ..self }),
    {
        Config { parity: Parity::ParityNone, ..self }
    }

    /// The configuration with even parity.
    pub fn parity_even(self) -> (c: Self)
        ensures
            c == (Config { parity: Parity::ParityEven, ..self }),
    {
        Config { parity: Parity::ParityEven, ..self }
    }

    /// The configuration with odd parity.
    pub fn parity_odd(self) -> (c: Self)
        ensures
            c == (Config { parity: Parity::ParityOdd, ..self }),
    {
        Config { parity: Parity::ParityOdd, ..self }
    }

    /// The configuration with 8 data bits.
    pub fn wordlength_8(self) -> (c: Self)
        ensures
            c == (Config { wordlength: WordLength::DataBits8, ..self }),
    {
        Config { wordlength: WordLength::DataBits8, ..self }
    }

    /// The configuration with 9 data bits.
    pub fn wordlength_9(self) -> (c: Self)
        ensures
            c == (Config { wordlength: WordLength::DataBits9, ..self }),
    {
        Config { wordlength: WordLength::DataBits9, ..self }
    }

    /// The configuration with the given stop bits.
    pub fn stopbits(self, stopbits: StopBits) -> (c: Self)
        ensures
            c == (Config { stopbits, ..self }),
    {
        Config { stopbits, ..self }
    }

    /// The configuration for half-duplex operation.
    pub fn half_duplex(self) -> (c: Self)
        ensures
            c == (Config { half_duplex: true, ..self }),
    {
        Config { half_duplex: true, ..self }
    }
}

/// The divisor of a 16-times oversampling peripheral: the clock divided by the baud
/// rate, rounded to the nearest integer.
pub open spec fn divisor_over16(pclk_freq: u32, baud: u32) -> u32 {
    ((pclk_freq + baud / 2) / (baud as int)) as u32
}

/// The divisor of an 8-times oversampling peripheral: twice the clock divided by the
/// baud rate, rounded, with its four fractional bits moved right by one.
pub open spec fn divisor_over8(pclk_freq: u32, baud: u32) -> u32 {
    let div = ((pclk_freq * 2 + baud / 2) / (baud as int)) as u32;
    (div & !0xFu32) | ((div & 0xF) >> 1)
}

/// The oversampling mode and the divisor for a baud rate: 16-times oversampling where
/// the clock allows it, else 8-times oversampling, else the rate is out of reach.
pub open spec fn baud_rate_setting(pclk_freq: u32, baud: u32) -> Result<(bool, u32), InvalidConfig> {
    if pclk_freq / 16 >= baud {
        Ok((false, divisor_over16(pclk_freq, baud)))
    } else if pclk_freq / 8 >= baud {
        Ok((true, divisor_over8(pclk_freq, baud)))
    } else {
        Err(InvalidConfig)
    }
}

/// Computes the oversampling mode (`true` for 8-times oversampling) and the value of the
/// baud rate register for a peripheral clock `pclk_freq` and a baud rate `baud`.
pub fn baud_rate_divisor(pclk_freq: u32, baud: u32) -> (r: Result<(bool, u32), InvalidConfig>)
    requires
        baud > 0,
        pclk_freq / 16 >= baud ==> pclk_freq + baud / 2 <= u32::MAX,
        pclk_freq / 16 < baud && pclk_freq / 8 >= baud ==> pclk_freq * 2 + baud / 2 <= u32::MAX,
    ensures
        r == baud_rate_setting(pclk_freq, baud),
{
    if (pclk_freq / 16) >= baud {
        let div = (pclk_freq + (baud / 2)) / baud;
        Ok((false, div))
    } else if (pclk_freq / 8) >= baud {
        let div = ((pclk_freq * 2) + (baud / 2)) / baud;
        let frac = div & 0xF;
        let div = (div & !0xF) | (frac >> 1);
        Ok((true, div))
    } else {
        Err(InvalidConfig)
    }
}

/// The frame format bits of the control register: word length 9 (M), parity enabled
/// (PCE) and odd parity (PS).
pub fn frame_format_bits(config: &Config) -> (bits: (bool, bool, bool))
    ensures
        bits.0 == (config.wordlength == WordLength::DataBits9),
        bits.1 == (config.parity != Parity::ParityNone),
        bits.2 == (config.parity == Parity::ParityOdd),
{
    (
        match config.wordlength {
            WordLength::DataBits8 => false,
            WordLength::DataBits9 => true,
        },
        match config.parity {
            Parity::ParityNone => false,
            _ => true,
        },
        match config.parity {
            Parity::ParityOdd => true,
            _ => false,
        },
    )
}

/// The DMA enable bits of the third control register: transmitter (DMAT) and
/// receiver (DMAR).
pub fn dma_bits(dma: DmaConfig) -> (bits: (bool, bool))
    ensures
        bits.0 == (dma == DmaConfig::Tx || dma == DmaConfig::TxRx),
        bits.1 == (dma == DmaConfig::Rx || dma == DmaConfig::TxRx),
{
    match dma {
        DmaConfig::Tx => (true, false),
        DmaConfig::Rx => (false, true),
        DmaConfig::TxRx => (true, true),
        DmaConfig::NoDma => (false, false),
    }
}

/// With 16-times oversampling the divisor is the clock divided by the baud rate, rounded
/// to the nearest integer: it misses the exact quotient by at most half the baud rate.
pub proof fn lemma_divisor_rounds_to_nearest(pclk_freq: u32, baud: u32)
    requires
        baud > 0,
        pclk_freq + baud / 2 <= u32::MAX,
    ensures
        ({
            let div = divisor_over16(pclk_freq, baud) as int;
            &&& div * baud <= pclk_freq + baud / 2
            &&& pclk_freq + baud / 2 < div * baud + baud
        }),
{
    let n = pclk_freq + baud / 2;
    let div = n / (baud as int);
    assert(div * baud <= n && n < div * baud + baud) by (nonlinear_arith)
        requires
            baud > 0,
            div == n / (baud as int),
            n >= 0,
    {
        vstd::arithmetic::div_mod::lemma_fundamental_div_mod(n, baud as int);
    }
}

/// The bits that configuration leaves in the third control register: the half-duplex
/// selection, the transmit DMA enable and the receive DMA enable. A DMA setting rewrites
/// the whole register after the half-duplex selection, so it clears that selection.
pub fn control3_bits(config: &Config) -> (bits: (bool, bool, bool))
    ensures
        bits.0 == (config.half_duplex && config.dma == DmaConfig::NoDma),
        bits.1 == (config.dma == DmaConfig::Tx || config.dma == DmaConfig::TxRx),
        bits.2 == (config.dma == DmaConfig::Rx || config.dma == DmaConfig::TxRx),
{
    let half_duplex = config.half_duplex;
    match config.dma {
        DmaConfig::NoDma => (half_duplex, false, false),
        _ => {
            let (tx, rx) = dma_bits(config.dma);
            (false, tx, rx)
        },
    }
}

/// The receive flags of the status register.
#[derive(Copy, Clone, Debug, PartialEq, Eq, Structural)]
pub struct RxStatus {
    pub parity_error: bool,
    pub framing_error: bool,
    pub noise: bool,
    pub overrun: bool,
    pub rx_not_empty: bool,
}

/// What a read of the receiver gives.
#[derive(Copy, Clone, Debug, PartialEq, Eq, Structural)]
pub enum RxOutcome {
    /// The received word.
    Word(u16),
    /// A receive error; the data register was read to clear it.
    Failed(Error),
    /// Nothing was received yet.
    WouldBlock,
}

/// Whether reading the receiver reads the data register: to clear an error, or to take
/// a received word.
pub open spec fn reads_data_register(status: RxStatus) -> bool {
    status.parity_error || status.framing_error || status.noise || status.overrun || status.rx_not_empty
}

/// The outcome of a read of the receiver with the given flags, where `data` is the
/// value of the data register when it is read: an error wins over a received word, in
/// the order parity, framing, noise, overrun.
pub open spec fn rx_outcome(status: RxStatus, data: u16) -> RxOutcome {
    if status.parity_error {
        RxOutcome::Failed(Error::Parity)
    } else if status.framing_error {
        RxOutcome::Failed(Error::Framing)
    } else if status.noise {
        RxOutcome::Failed(Error::Noise)
    } else if status.overrun {
        RxOutcome::Failed(Error::Overrun)
    } else if status.rx_not_empty {
        RxOutcome::Word(data)
    } else {
        RxOutcome::WouldBlock
    }
}

/// Decides a read of the receiver from its flags; `data` is the value of the data
/// register, which the caller reads where `reads_data_register` says so.
pub fn rx_read(status: RxStatus, data: u16) -> (r: RxOutcome)
    ensures
        r == rx_outcome(status, data),
{
    if status.parity_error {
        RxOutcome::Failed(Error::Parity)
    } else if status.framing_error {
        RxOutcome::Failed(Error::Framing)
    } else if status.noise {
        RxOutcome::Failed(Error::Noise)
    } else if status.overrun {
        RxOutcome::Failed(Error::Overrun)
    } else if status.rx_not_empty {
        RxOutcome::Word(data)
    } else {
        RxOutcome::WouldBlock
    }
}

} // verus!
