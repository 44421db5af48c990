//! The front-end's state and how each message changes it. Work that needs
//! the world outside (opening the port, the clipboard, a file dialog, the
//! recording file, the window) is handed back as an `Effect` for the caller
//! to perform; its outcome comes back through the methods below.

use vstd::prelude::*;
use crate::config::{DataBits, Handshake, ParityCheck, SerialConfig, StopBitCount};
use crate::logger::entry_line;
use crate::messages::Message;
use crate::session::{after_send, after_stop, Serial};
use crate::ui::{decimal, decimal_text, select_device, terminator_of, with_line_end, LineEnd};

verus! {

/// Outside work that a message calls for.
pub enum Effect {
    Nothing,
    /// Open `current_serial_device` with `serial_config` and hand the outcome
    /// to `Serial::start`.
    OpenPort,
    /// Put this text on the clipboard.
    CopyText(String),
    /// Read the clipboard and hand the text to `paste`.
    RequestPaste,
    /// Ask for a file to record into and hand its name to `record_to`.
    PickRecordingFile,
    /// Append this text to the recording file.
    Record(String),
    /// Put the tabs back in their default layout.
    ResetLayout,
    /// Close the application.
    Close,
    /// List the serial ports and hand the names to `ports_found`.
    ListPorts,
}

/// The front-end's state.
pub struct Console {
    pub current_serial_device: String,
    pub serial_devices: Vec<String>,
    pub serial_config: SerialConfig,
    pub recording_started: bool,
    pub log_file_name: String,
    /// Whether received text is preceded by the time it arrived.
    pub timestamp: bool,
    pub lock_scrolling: bool,
    pub show_about: bool,
    pub transmit_text: String,
    pub terminal_text: String,
    pub log_text: String,
    pub line_end: LineEnd,
    /// Bytes sent, saturating at the largest `u32`.
    pub tx_cnt: u32,
    /// Bytes received, saturating at the largest `u32`.
    pub rx_cnt: u32,
}

/// Number of bytes in the UTF-8 encoding of a text, as `str::len`
/// reports it.
pub open spec fn byte_len(s: Seq<char>) -> nat {
    (vstd::utf8::encode_utf8(s).len() as usize) as nat
}

pub open spec fn saturating_count(count: u32, more: nat) -> u32 {
    if count + more > u32::MAX {
        u32::MAX
    } else {
        (count + more) as u32
    }
}

fn add_bytes(count: u32, text: &str) -> (r: u32)
    ensures
        r == saturating_count(count, byte_len(text@)),
{
    let n = text.len();
    if n > (u32::MAX - count) as usize {
        u32::MAX
    } else {
        count + n as u32
    }
}

impl Console {
    /// The starting state: the requested device, else the first port found.
    pub fn new(device: &str, ports: Vec<String>, config: SerialConfig) -> (r: Console)
        ensures
            requested_device_chosen(device@, ports@, r.current_serial_device@),
            r.serial_devices@ == ports@,
            r.serial_config == config,
            !r.recording_started && !r.timestamp && r.lock_scrolling && !r.show_about,
            r.transmit_text@.len() == 0 && r.terminal_text@.len() == 0 && r.log_text@.len() == 0,
            r.log_file_name@.len() == 0,
            r.line_end == LineEnd::LF,
            r.tx_cnt == 0 && r.rx_cnt == 0,
    {
        let current = select_device(device, &ports);
        Console {
            current_serial_device: current,
            serial_devices: ports,
            serial_config: config,
            recording_started: false,
            log_file_name: String::new(),
            timestamp: false,
            lock_scrolling: true,
            show_about: false,
            transmit_text: String::new(),
            terminal_text: String::new(),
            log_text: String::new(),
            line_end: LineEnd::LF,
            tx_cnt: 0,
            rx_cnt: 0,
        }
    }

    /// The text to send for the current input line: the line and its ending.
    pub fn outgoing_text(&self) -> (r: String)
        ensures
            r@ == self.transmit_text@ + terminator_of(self.line_end),
    {
        with_line_end(self.transmit_text.as_str(), self.line_end)
    }

    fn transmit(&mut self, serial: &mut Serial, text: &str)
        ensures
            old(serial)@.connected ==> *final(self) == (Console {
                tx_cnt: saturating_count(old(self).tx_cnt, byte_len(text@)),
                ..*old(self)
            }),
            !old(serial)@.connected ==> *final(self) == *old(self),
            final(serial)@ == after_send(old(serial)@, text@),
    {
        if serial.is_connected() {
            self.tx_cnt = add_bytes(self.tx_cnt, text);
            serial.send(text);
        }
    }

    /// Applies one message. `stamp` is the arrival time to show before
    /// received text when `timestamp` is on.
    pub fn handle(&mut self, serial: &mut Serial, message: Message, stamp: &str) -> (r: Effect)
        ensures
            match message {
                Message::Connect => {
                    &&& *final(self) == *old(self)
                    &&& final(serial)@ == old(serial)@
                    &&& if old(serial)@.connected { r is Nothing } else { r is OpenPort }
                },
                Message::Disconnect => {
                    &&& *final(self) == *old(self)
                    &&& final(serial)@ == after_stop(old(serial)@)
                    &&& r is Nothing
                },
                Message::DataForTransmit(t) | Message::MacroClicked(t) => {
                    &&& old(serial)@.connected ==> *final(self) == (Console {
                        tx_cnt: saturating_count(old(self).tx_cnt, byte_len(t@)),
                        ..*old(self)
                    })
                    &&& !old(serial)@.connected ==> *final(self) == *old(self)
                    &&& final(serial)@ == after_send(old(serial)@, t@)
                    &&& r is Nothing
                },
                Message::DataReceived(t) => {
                    &&& *final(self) == (Console {
                        terminal_text: final(self).terminal_text,
                        rx_cnt: saturating_count(old(self).rx_cnt, byte_len(t@)),
                        ..*old(self)
                    })
                    &&& final(self).terminal_text@ == old(self).terminal_text@ + (if old(self).timestamp {
                        stamp@
                    } else {
                        Seq::<char>::empty()
                    }) + t@
                    &&& final(serial)@ == old(serial)@
                    &&& if old(self).recording_started {
                        r matches Effect::Record(x) && x@ == t@
                    } else {
                        r is Nothing
                    }
                },
                Message::RecordingData(t) => {
                    &&& *final(self) == *old(self)
                    &&& final(serial)@ == old(serial)@
                    &&& if old(self).recording_started {
                        r matches Effect::Record(x) && x@ == t@
                    } else {
                        r is Nothing
                    }
                },
                Message::Log(e) => {
                    &&& *final(self) == (Console { log_text: final(self).log_text, ..*old(self) })
                    &&& final(self).log_text@ == old(self).log_text@ + entry_line(e)
                    &&& final(serial)@ == old(serial)@
                    &&& r is Nothing
                },
                Message::Copy => {
                    &&& *final(self) == *old(self)
                    &&& final(serial)@ == old(serial)@
                    &&& r matches Effect::CopyText(x) && x@ == old(self).terminal_text@
                },
                Message::Cut => {
                    &&& *final(self) == (Console {
                        terminal_text: final(self).terminal_text,
                        ..*old(self)
                    })
                    &&& final(self).terminal_text@.len() == 0
                    &&& final(serial)@ == old(serial)@
                    &&& r matches Effect::CopyText(x) && x@ == old(self).terminal_text@
                },
                Message::ClearTerminalText => {
                    &&& *final(self) == (Console {
                        terminal_text: final(self).terminal_text,
                        ..*old(self)
                    })
                    &&& final(self).terminal_text@.len() == 0
                    &&& final(serial)@ == old(serial)@
                    &&& r is Nothing
                },
                Message::ClearLogText => {
                    &&& *final(self) == (Console { log_text: final(self).log_text, ..*old(self) })
                    &&& final(self).log_text@.len() == 0
                    &&& final(serial)@ == old(serial)@
                    &&& r is Nothing
                },
                Message::ShowAbout => {
                    &&& *final(self) == (Console { show_about: true, ..*old(self) })
                    &&& final(serial)@ == old(serial)@
                    &&& r is Nothing
                },
                Message::CloseAbout => {
                    &&& *final(self) == (Console { show_about: false, ..*old(self) })
                    &&& final(serial)@ == old(serial)@
                    &&& r is Nothing
                },
                Message::StopRecording => {
                    &&& *final(self) == (Console { recording_started: false, ..*old(self) })
                    &&& final(serial)@ == old(serial)@
                    &&& r is Nothing
                },
                Message::Paste => {
                    &&& *final(self) == *old(self)
                    &&& final(serial)@ == old(serial)@
                    &&& r is RequestPaste
                },
                Message::StartRecording => {
                    &&& *final(self) == *old(self)
                    &&& final(serial)@ == old(serial)@
                    &&& r is PickRecordingFile
                },
                Message::SetDefaultUi => {
                    &&& *final(self) == *old(self)
                    &&& final(serial)@ == old(serial)@
                    &&& r is ResetLayout
                },
                Message::CloseApplication => {
                    &&& *final(self) == *old(self)
                    &&& final(serial)@ == old(serial)@
                    &&& r is Close
                },
                Message::RefreshSerialDevices => {
                    &&& *final(self) == *old(self)
                    &&& final(serial)@ == old(serial)@
                    &&& r is ListPorts
                },
            },
    {
        match message {
            Message::Connect => {
                if serial.is_connected() {
                    Effect::Nothing
                } else {
                    Effect::OpenPort
                }
            },
            Message::Disconnect => {
                // Not being connected is the state that was asked for.
                let _ = serial.stop();
                Effect::Nothing
            },
            Message::DataForTransmit(text) => {
                self.transmit(serial, text.as_str());
                Effect::Nothing
            },
            Message::MacroClicked(text) => {
                self.transmit(serial, text.as_str());
                Effect::Nothing
            },
            Message::DataReceived(text) => {
                if self.timestamp {
                    self.terminal_text.append(stamp);
                }
                self.rx_cnt = add_bytes(self.rx_cnt, text.as_str());
                self.terminal_text.append(text.as_str());
                if self.recording_started {
                    Effect::Record(text)
                } else {
                    Effect::Nothing
                }
            },
            Message::RecordingData(text) => {
                if self.recording_started {
                    Effect::Record(text)
                } else {
                    Effect::Nothing
                }
            },
            Message::Log(entry) => {
                entry.format(&mut self.log_text);
                Effect::Nothing
            },
            Message::Copy => Effect::CopyText(self.terminal_text.clone()),
            Message::Cut => {
                let text = self.terminal_text.clone();
                self.terminal_text = String::new();
                Effect::CopyText(text)
            },
            Message::ClearTerminalText => {
                self.terminal_text = String::new();
                Effect::Nothing
            },
            Message::ClearLogText => {
                self.log_text = String::new();
                Effect::Nothing
            },
            Message::ShowAbout => {
                self.show_about = true;
                Effect::Nothing
            },
            Message::CloseAbout => {
                self.show_about = false;
                Effect::Nothing
            },
            Message::StopRecording => {
                self.recording_started = false;
                Effect::Nothing
            },
            Message::Paste => Effect::RequestPaste,
            Message::StartRecording => Effect::PickRecordingFile,
            Message::SetDefaultUi => Effect::ResetLayout,
            Message::CloseApplication => Effect::Close,
            Message::RefreshSerialDevices => Effect::ListPorts,
        }
    }

    /// Appends clipboard text to the input line.
    pub fn paste(&mut self, text: &str)
        ensures
            *final(self) == (Console { transmit_text: final(self).transmit_text, ..*old(self) }),
            final(self).transmit_text@ == old(self).transmit_text@ + text@,
    {
        self.transmit_text.append(text);
    }

    /// Starts recording received text into the named file.
    pub fn record_to(&mut self, file_name: String)
        ensures
            *final(self) == (Console { log_file_name: file_name, recording_started: true, ..*old(self) }),
    {
        self.log_file_name = file_name;
        self.recording_started = true;
    }

    /// Takes a fresh list of ports; the first one becomes the current
    /// device, or none when the list is empty.
    pub fn ports_found(&mut self, ports: Vec<String>)
        ensures
            *final(self) == (Console {
                serial_devices: ports,
                current_serial_device: final(self).current_serial_device,
                ..*old(self)
            }),
            requested_device_chosen(Seq::empty(), ports@, final(self).current_serial_device@),
    {
        proof {
            reveal_strlit("");
        }
        self.current_serial_device = select_device("", &ports);
        self.serial_devices = ports;
    }
}

pub open spec fn data_bits_digit(d: DataBits) -> Seq<char> {
    match d {
        DataBits::Five => "5"@,
        DataBits::Six => "6"@,
        DataBits::Seven => "7"@,
        DataBits::Eight => "8"@,
    }
}

pub open spec fn parity_letter(p: ParityCheck) -> Seq<char> {
    match p {
        ParityCheck::Off => "N"@,
        ParityCheck::Odd => "O"@,
        ParityCheck::Even => "E"@,
    }
}

pub open spec fn stop_bits_digit(s: StopBitCount) -> Seq<char> {
    match s {
        StopBitCount::One => "1"@,
        StopBitCount::Two => "2"@,
    }
}

pub open spec fn handshake_name(f: Handshake) -> Seq<char> {
    match f {
        Handshake::Off => "none"@,
        Handshake::Software => "software"@,
        Handshake::Hardware => "hardware"@,
    }
}

/// The status bar: device and whether it is open, the line settings in
/// short form (`115200, 8N1`), flow control, the byte counters, and the
/// recording file when one is in use.
pub open spec fn status_text(c: Console, connected: bool) -> Seq<char> {
    c.current_serial_device@ + (if connected {
        " OPENED"@
    } else {
        " CLOSED"@
    }) + " | "@ + decimal(c.serial_config.baud_rate as nat) + ", "@ + data_bits_digit(
        c.serial_config.data_bits,
    ) + parity_letter(c.serial_config.parity) + stop_bits_digit(c.serial_config.stop_bits)
        + " flow control: "@ + handshake_name(c.serial_config.flow_control) + " | TX: "@ + decimal(
        c.tx_cnt as nat,
    ) + " / RX: "@ + decimal(c.rx_cnt as nat) + (if c.recording_started {
        " | Logging to: "@ + c.log_file_name@
    } else {
        Seq::<char>::empty()
    })
}

fn data_bits_text(d: DataBits) -> (r: &'static str)
    ensures
        r@ == data_bits_digit(d),
{
    match d {
        DataBits::Five => "5",
        DataBits::Six => "6",
        DataBits::Seven => "7",
        DataBits::Eight => "8",
    }
}

fn parity_text(p: ParityCheck) -> (r: &'static str)
    ensures
        r@ == parity_letter(p),
{
    match p {
        ParityCheck::Off => "N",
        ParityCheck::Odd => "O",
        ParityCheck::Even => "E",
    }
}

fn stop_bits_text(s: StopBitCount) -> (r: &'static str)
    ensures
        r@ == stop_bits_digit(s),
{
    match s {
        StopBitCount::One => "1",
        StopBitCount::Two => "2",
    }
}

fn handshake_text(f: Handshake) -> (r: &'static str)
    ensures
        r@ == handshake_name(f),
{
    match f {
        Handshake::Off => "none",
        Handshake::Software => "software",
        Handshake::Hardware => "hardware",
    }
}

impl Console {
    /// The status bar text, given whether the session is connected.
    pub fn status_line(&self, connected: bool) -> (r: String)
        ensures
            r@ == status_text(*self, connected),
    {
        let mut s = self.current_serial_device.clone();
        s.append(
            if connected {
                " OPENED"
            } else {
                " CLOSED"
            },
        );
        s.append(" | ");
        s.append(decimal_text(self.serial_config.baud_rate).as_str());
        s.append(", ");
        s.append(data_bits_text(self.serial_config.data_bits));
        s.append(parity_text(self.serial_config.parity));
        s.append(stop_bits_text(self.serial_config.stop_bits));
        s.append(" flow control: ");
        s.append(handshake_text(self.serial_config.flow_control));
        s.append(" | TX: ");
        s.append(decimal_text(self.tx_cnt).as_str());
        s.append(" / RX: ");
        s.append(decimal_text(self.rx_cnt).as_str());
        if self.recording_started {
            s.append(" | Logging to: ");
            s.append(self.log_file_name.as_str());
        }
        proof {
            assert(s@ =~= status_text(*self, connected));
        }
        s
    }
}

/// The device choice of `select_device`: the requested name when there is
/// one, else the first port, else the empty name.
pub open spec fn requested_device_chosen(requested: Seq<char>, ports: Seq<String>, chosen: Seq<char>) -> bool {
    if requested.len() > 0 {
        chosen == requested
    } else if ports.len() > 0 {
        chosen == ports[0]@
    } else {
        chosen.len() == 0
    }
}

} // verus!
