//! The command-line boundary: the parsers that turn each option's text into
//! a legal value, and the defaults for options left out.

use vstd::prelude::*;
use crate::config::{DataBits, ParityCheck, StopBitCount, Handshake, SerialConfig, DEFAULT_BAUD_RATE};

verus! {

/// Which front-end to start.
#[derive(Clone, Copy, Debug, PartialEq, Eq, Structural)]
pub enum AppType {
    Tui,
    Gui,
}

fn is_word(s: &str, word: &str) -> (r: bool)
    ensures
        r == (s@ == word@),
{
    String::from_str(s) == String::from_str(word)
}

fn help(text: &str) -> (r: String)
    ensures
        r@ == text@,
{
    String::from_str(text)
}

pub open spec fn baud_rate_named(s: Seq<char>) -> Option<u32> {
    if s == "1200"@ {
        Some(1200u32)
    } else if s == "2400"@ {
        Some(2400u32)
    } else if s == "4800"@ {
        Some(4800u32)
    } else if s == "9600"@ {
        Some(9600u32)
    } else if s == "19200"@ {
        Some(19200u32)
    } else if s == "38400"@ {
        Some(38400u32)
    } else if s == "57600"@ {
        Some(57600u32)
    } else if s == "115200"@ {
        Some(115200u32)
    } else if s == "1000000"@ {
        Some(1000000u32)
    } else {
        None
    }
}

pub open spec fn data_bits_named(s: Seq<char>) -> Option<DataBits> {
    if s == "5"@ {
        Some(DataBits::Five)
    } else if s == "6"@ {
        Some(DataBits::Six)
    } else if s == "7"@ {
        Some(DataBits::Seven)
    } else if s == "8"@ {
        Some(DataBits::Eight)
    } else {
        None
    }
}

pub open spec fn parity_named(s: Seq<char>) -> Option<ParityCheck> {
    if s == "none"@ {
        Some(ParityCheck::Off)
    } else if s == "odd"@ {
        Some(ParityCheck::Odd)
    } else if s == "even"@ {
        Some(ParityCheck::Even)
    } else {
        None
    }
}

pub open spec fn flow_control_named(s: Seq<char>) -> Option<Handshake> {
    if s == "none"@ {
        Some(Handshake::Off)
    } else if s == "software"@ {
        Some(Handshake::Software)
    } else if s == "hardware"@ {
        Some(Handshake::Hardware)
    } else {
        None
    }
}

pub open spec fn stop_bits_named(s: Seq<char>) -> Option<StopBitCount> {
    if s == "1"@ {
        Some(StopBitCount::One)
    } else if s == "2"@ {
        Some(StopBitCount::Two)
    } else {
        None
    }
}

/// Parses a baud rate; only the listed common rates are accepted.
pub fn possible_baudrates(s: &str) -> (r: Result<u32, String>)
    ensures
        match baud_rate_named(s@) {
            Some(b) => r == Ok::<u32, String>(b),
            None => r matches Err(m) && m@
                == "Possible values: 1200, 2400, 4800, 9600, 19200, 38400, 57600, 115200, 1000000 | default = 115200"@,
        },
        r matches Ok(b) ==> b > 0,
{
    if is_word(s, "1200") {
        Ok(1200)
    } else if is_word(s, "2400") {
        Ok(2400)
    } else if is_word(s, "4800") {
        Ok(4800)
    } else if is_word(s, "9600") {
        Ok(9600)
    } else if is_word(s, "19200") {
        Ok(19200)
    } else if is_word(s, "38400") {
        Ok(38400)
    } else if is_word(s, "57600") {
        Ok(57600)
    } else if is_word(s, "115200") {
        Ok(115200)
    } else if is_word(s, "1000000") {
        Ok(1000000)
    } else {
        Err(
            help(
                "Possible values: 1200, 2400, 4800, 9600, 19200, 38400, 57600, 115200, 1000000 | default = 115200",
            ),
        )
    }
}

/// Parses the number of data bits: 5, 6, 7 or 8.
pub fn possible_data_bits(s: &str) -> (r: Result<DataBits, String>)
    ensures
        match data_bits_named(s@) {
            Some(d) => r == Ok::<DataBits, String>(d),
            None => r matches Err(m) && m@ == "Possible values: 5, 6, 7, 8 | default = 8"@,
        },
{
    if is_word(s, "5") {
        Ok(DataBits::Five)
    } else if is_word(s, "6") {
        Ok(DataBits::Six)
    } else if is_word(s, "7") {
        Ok(DataBits::Seven)
    } else if is_word(s, "8") {
        Ok(DataBits::Eight)
    } else {
        Err(help("Possible values: 5, 6, 7, 8 | default = 8"))
    }
}

/// Parses the parity: none, odd or even.
pub fn possible_parity(s: &str) -> (r: Result<ParityCheck, String>)
    ensures
        match parity_named(s@) {
            Some(p) => r == Ok::<ParityCheck, String>(p),
            None => r matches Err(m) && m@ == "Possible values: none, odd, even | default = none"@,
        },
{
    if is_word(s, "none") {
        Ok(ParityCheck::Off)
    } else if is_word(s, "odd") {
        Ok(ParityCheck::Odd)
    } else if is_word(s, "even") {
        Ok(ParityCheck::Even)
    } else {
        Err(help("Possible values: none, odd, even | default = none"))
    }
}

/// Parses the flow control: none, software or hardware.
pub fn possible_flow_control(s: &str) -> (r: Result<Handshake, String>)
    ensures
        match flow_control_named(s@) {
            Some(f) => r == Ok::<Handshake, String>(f),
            None => r matches Err(m) && m@
                == "Possible values: none, software, hardware | default = none"@,
        },
{
    if is_word(s, "none") {
        Ok(Handshake::Off)
    } else if is_word(s, "software") {
        Ok(Handshake::Software)
    } else if is_word(s, "hardware") {
        Ok(Handshake::Hardware)
    } else {
        Err(help("Possible values: none, software, hardware | default = none"))
    }
}

/// Parses the number of stop bits: 1 or 2.
pub fn possible_stop_bits(s: &str) -> (r: Result<StopBitCount, String>)
    ensures
        match stop_bits_named(s@) {
            Some(b) => r == Ok::<StopBitCount, String>(b),
            None => r matches Err(m) && m@ == "Possible values: 1, 2 | default = 1"@,
        },
{
    if is_word(s, "1") {
        Ok(StopBitCount::One)
    } else if is_word(s, "2") {
        Ok(StopBitCount::Two)
    } else {
        Err(help("Possible values: 1, 2 | default = 1"))
    }
}

/// The front-end, device name and configuration that the parsed options
/// select; each option left out takes its default.
pub fn resolve_options(
    no_gui: bool,
    device: Option<String>,
    baud_rate: Option<u32>,
    data_bits: Option<DataBits>,
    parity: Option<ParityCheck>,
    flow_control: Option<Handshake>,
    stop_bits: Option<StopBitCount>,
) -> (r: (AppType, String, SerialConfig))
    ensures
        r.0 == (if no_gui { AppType::Tui } else { AppType::Gui }),
        r.1@ == match device {
            Some(d) => d@,
            None => Seq::<char>::empty(),
        },
        r.2 == (SerialConfig {
            baud_rate: match baud_rate {
                Some(b) => b,
                None => DEFAULT_BAUD_RATE,
            },
            data_bits: match data_bits {
                Some(d) => d,
                None => DataBits::Eight,
            },
            parity: match parity {
                Some(p) => p,
                None => ParityCheck::Off,
            },
            stop_bits: match stop_bits {
                Some(b) => b,
                None => StopBitCount::One,
            },
            flow_control: match flow_control {
                Some(f) => f,
                None => Handshake::Off,
            },
        }),
        (baud_rate matches Some(b) ==> b > 0) ==> r.2.is_valid(),
{
    let device = match device {
        Some(d) => d,
        None => String::new(),
    };
    let config = SerialConfig {
        baud_rate: match baud_rate {
            Some(b) => b,
            None => DEFAULT_BAUD_RATE,
        },
        data_bits: match data_bits {
            Some(d) => d,
            None => DataBits::Eight,
        },
        parity: match parity {
            Some(p) => p,
            None => ParityCheck::Off,
        },
        stop_bits: match stop_bits {
            Some(b) => b,
            None => StopBitCount::One,
        },
        flow_control: match flow_control {
            Some(f) => f,
            None => Handshake::Off,
        },
    };
    let app = if no_gui {
        AppType::Tui
    } else {
        AppType::Gui
    };
    (app, device, config)
}

} // verus!
