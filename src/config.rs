//! Link parameters of a serial port, and their mapping onto the native
//! settings values of the `serial2` driver.

use vstd::prelude::*;

verus! {

// serial2's settings enums, declared with their variants so that verified
// code can build and match them.

/// serial2::CharSize: the driver's character size, 5 to 8 bits.
#[verifier::external_type_specification]
pub struct ExCharSize(serial2::CharSize);

/// serial2::Parity: none, odd or even.
#[verifier::external_type_specification]
pub struct ExParity(serial2::Parity);

/// serial2::StopBits: one or two.
#[verifier::external_type_specification]
pub struct ExStopBits(serial2::StopBits);

/// serial2::FlowControl: none, XON/XOFF or RTS/CTS.
#[verifier::external_type_specification]
pub struct ExFlowControl(serial2::FlowControl);

/// Baud rate used when none is given.
pub const DEFAULT_BAUD_RATE: u32 = 115200;

/// Number of data bits in one character.
#[derive(Clone, Copy, Debug, PartialEq, Eq, Structural)]
pub enum DataBits {
    Five,
    Six,
    Seven,
    Eight,
}

/// Parity check added to each character.
#[derive(Clone, Copy, Debug, PartialEq, Eq, Structural)]
pub enum ParityCheck {
    Off,
    Odd,
    Even,
}

/// Number of stop bits after each character.
#[derive(Clone, Copy, Debug, PartialEq, Eq, Structural)]
pub enum StopBitCount {
    One,
    Two,
}

/// Pacing of data between the two ends of the link.
#[derive(Clone, Copy, Debug, PartialEq, Eq, Structural)]
pub enum Handshake {
    Off,
    /// XON/XOFF characters in the data stream.
    Software,
    /// RTS/CTS lines.
    Hardware,
}

/// The full set of link parameters handed to a connect operation.
#[derive(Clone, Copy, Debug, PartialEq, Eq, Structural)]
pub struct SerialConfig {
    pub baud_rate: u32,
    pub data_bits: DataBits,
    pub parity: ParityCheck,
    pub stop_bits: StopBitCount,
    pub flow_control: Handshake,
}

/// The same parameters in the driver's own vocabulary, set verbatim on the
/// port's settings when it is opened.
#[derive(Clone, Copy, Debug)]
pub struct NativeSettings {
    pub baud_rate: u32,
    pub char_size: serial2::CharSize,
    pub parity: serial2::Parity,
    pub stop_bits: serial2::StopBits,
    pub flow_control: serial2::FlowControl,
}

impl SerialConfig {
    /// A configuration is legal when its baud rate is positive; every
    /// enumerated field is legal by construction.
    pub open spec fn is_valid(self) -> bool {
        self.baud_rate > 0
    }

    pub open spec fn spec_default() -> SerialConfig {
        SerialConfig {
            baud_rate: DEFAULT_BAUD_RATE,
            data_bits: DataBits::Eight,
            parity: ParityCheck::Off,
            stop_bits: StopBitCount::One,
            flow_control: Handshake::Off,
        }
    }
}

impl Default for SerialConfig {
    /// 115200 baud, 8 data bits, no parity, one stop bit, no flow control.
    fn default() -> (r: SerialConfig)
        ensures
            r == SerialConfig::spec_default(),
    {
        SerialConfig {
            baud_rate: DEFAULT_BAUD_RATE,
            data_bits: DataBits::Eight,
            parity: ParityCheck::Off,
            stop_bits: StopBitCount::One,
            flow_control: Handshake::Off,
        }
    }
}

pub open spec fn char_size_of(d: DataBits) -> serial2::CharSize {
    match d {
        DataBits::Five => serial2::CharSize::Bits5,
        DataBits::Six => serial2::CharSize::Bits6,
        DataBits::Seven => serial2::CharSize::Bits7,
        DataBits::Eight => serial2::CharSize::Bits8,
    }
}

pub open spec fn data_bits_of(c: serial2::CharSize) -> DataBits {
    match c {
        serial2::CharSize::Bits5 => DataBits::Five,
        serial2::CharSize::Bits6 => DataBits::Six,
        serial2::CharSize::Bits7 => DataBits::Seven,
        serial2::CharSize::Bits8 => DataBits::Eight,
    }
}

pub open spec fn native_parity_of(p: ParityCheck) -> serial2::Parity {
    match p {
        ParityCheck::Off => serial2::Parity::None,
        ParityCheck::Odd => serial2::Parity::Odd,
        ParityCheck::Even => serial2::Parity::Even,
    }
}

pub open spec fn parity_of(p: serial2::Parity) -> ParityCheck {
    match p {
        serial2::Parity::None => ParityCheck::Off,
        serial2::Parity::Odd => ParityCheck::Odd,
        serial2::Parity::Even => ParityCheck::Even,
    }
}

pub open spec fn native_stop_bits_of(s: StopBitCount) -> serial2::StopBits {
    match s {
        StopBitCount::One => serial2::StopBits::One,
        StopBitCount::Two => serial2::StopBits::Two,
    }
}

pub open spec fn stop_bits_of(s: serial2::StopBits) -> StopBitCount {
    match s {
        serial2::StopBits::One => StopBitCount::One,
        serial2::StopBits::Two => StopBitCount::Two,
    }
}

pub open spec fn native_flow_control_of(f: Handshake) -> serial2::FlowControl {
    match f {
        Handshake::Off => serial2::FlowControl::None,
        Handshake::Software => serial2::FlowControl::XonXoff,
        Handshake::Hardware => serial2::FlowControl::RtsCts,
    }
}

pub open spec fn flow_control_of(f: serial2::FlowControl) -> Handshake {
    match f {
        serial2::FlowControl::None => Handshake::Off,
        serial2::FlowControl::XonXoff => Handshake::Software,
        serial2::FlowControl::RtsCts => Handshake::Hardware,
    }
}

/// Field-by-field image of a configuration in the driver's vocabulary.
pub open spec fn native_of(c: SerialConfig) -> NativeSettings {
    NativeSettings {
        baud_rate: c.baud_rate,
        char_size: char_size_of(c.data_bits),
        parity: native_parity_of(c.parity),
        stop_bits: native_stop_bits_of(c.stop_bits),
        flow_control: native_flow_control_of(c.flow_control),
    }
}

/// Field-by-field reading of native settings back into a configuration.
pub open spec fn config_of(n: NativeSettings) -> SerialConfig {
    SerialConfig {
        baud_rate: n.baud_rate,
        data_bits: data_bits_of(n.char_size),
        parity: parity_of(n.parity),
        stop_bits: stop_bits_of(n.stop_bits),
        flow_control: flow_control_of(n.flow_control),
    }
}

impl SerialConfig {
    /// The native settings that the driver is opened with.
    pub fn to_native(&self) -> (r: NativeSettings)
        ensures
            r == native_of(*self),
    {
        NativeSettings {
            baud_rate: self.baud_rate,
            char_size: match self.data_bits {
                DataBits::Five => serial2::CharSize::Bits5,
                DataBits::Six => serial2::CharSize::Bits6,
                DataBits::Seven => serial2::CharSize::Bits7,
                DataBits::Eight => serial2::CharSize::Bits8,
            },
            parity: match self.parity {
                ParityCheck::Off => serial2::Parity::None,
                ParityCheck::Odd => serial2::Parity::Odd,
                ParityCheck::Even => serial2::Parity::Even,
            },
            stop_bits: match self.stop_bits {
                StopBitCount::One => serial2::StopBits::One,
                StopBitCount::Two => serial2::StopBits::Two,
            },
            flow_control: match self.flow_control {
                Handshake::Off => serial2::FlowControl::None,
                Handshake::Software => serial2::FlowControl::XonXoff,
                Handshake::Hardware => serial2::FlowControl::RtsCts,
            },
        }
    }

    /// Reads native settings back into a configuration.
    pub fn from_native(n: &NativeSettings) -> (r: SerialConfig)
        ensures
            r == config_of(*n),
    {
        SerialConfig {
            baud_rate: n.baud_rate,
            data_bits: match n.char_size {
                serial2::CharSize::Bits5 => DataBits::Five,
                serial2::CharSize::Bits6 => DataBits::Six,
                serial2::CharSize::Bits7 => DataBits::Seven,
                serial2::CharSize::Bits8 => DataBits::Eight,
            },
            parity: match n.parity {
                serial2::Parity::None => ParityCheck::Off,
                serial2::Parity::Odd => ParityCheck::Odd,
                serial2::Parity::Even => ParityCheck::Even,
            },
            stop_bits: match n.stop_bits {
                serial2::StopBits::One => StopBitCount::One,
                serial2::StopBits::Two => StopBitCount::Two,
            },
            flow_control: match n.flow_control {
                serial2::FlowControl::None => Handshake::Off,
                serial2::FlowControl::XonXoff => Handshake::Software,
                serial2::FlowControl::RtsCts => Handshake::Hardware,
            },
        }
    }
}

/// Converting a configuration to native settings and back yields the same
/// baud rate, data bits, parity, stop bits and flow control.
pub proof fn lemma_native_round_trip(c: SerialConfig)
    ensures
        config_of(native_of(c)) == c,
{
}

/// Reading native settings into a configuration and converting it back
/// yields the same native settings: no two configurations share an image.
pub proof fn lemma_native_round_trip_reverse(n: NativeSettings)
    ensures
        native_of(config_of(n)) == n,
{
}

} // verus!
