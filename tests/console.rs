use rustcom::config::SerialConfig;
use rustcom::console::{Console, Effect};
use rustcom::logger::Entry;
use rustcom::messages::Message;
use rustcom::session::Serial;
use rustcom::ui::LineEnd;

fn console() -> Console {
    Console::new("", vec!["/dev/ttyS0".to_string()], SerialConfig::default())
}

#[test]
fn new_console_picks_the_first_port() {
    let c = console();
    assert_eq!(c.current_serial_device, "/dev/ttyS0");
    assert!(c.lock_scrolling);
    assert_eq!(c.tx_cnt, 0);
    let d = Console::new("COM7", vec!["/dev/ttyS0".to_string()], SerialConfig::default());
    assert_eq!(d.current_serial_device, "COM7");
}

#[test]
fn connect_asks_for_the_port_only_when_disconnected() {
    let mut c = console();
    let mut serial = Serial::new();
    assert!(matches!(c.handle(&mut serial, Message::Connect, ""), Effect::OpenPort));
    let _tasks = serial.start(Ok(())).ok().unwrap();
    assert!(matches!(c.handle(&mut serial, Message::Connect, ""), Effect::Nothing));
    assert!(matches!(c.handle(&mut serial, Message::Disconnect, ""), Effect::Nothing));
    assert!(!serial.is_connected());
    assert!(matches!(c.handle(&mut serial, Message::Disconnect, ""), Effect::Nothing));
}

#[test]
fn transmit_counts_bytes_only_while_connected() {
    let mut c = console();
    let mut serial = Serial::new();
    c.handle(&mut serial, Message::DataForTransmit("abc".to_string()), "");
    assert_eq!(c.tx_cnt, 0);
    let tasks = serial.start(Ok(())).ok().unwrap();
    c.handle(&mut serial, Message::DataForTransmit("h\u{e9}".to_string()), "");
    assert_eq!(c.tx_cnt, 3);
    c.handle(&mut serial, Message::MacroClicked("xy".to_string()), "");
    assert_eq!(c.tx_cnt, 5);
    assert_eq!(tasks.writer.next_outbound(), Some("h\u{e9}".to_string()));
    assert_eq!(tasks.writer.next_outbound(), Some("xy".to_string()));
}

#[test]
fn transmit_counter_saturates() {
    let mut c = console();
    c.tx_cnt = u32::MAX - 1;
    let mut serial = Serial::new();
    let _tasks = serial.start(Ok(())).ok().unwrap();
    c.handle(&mut serial, Message::DataForTransmit("abc".to_string()), "");
    assert_eq!(c.tx_cnt, u32::MAX);
}

#[test]
fn received_text_is_appended_with_optional_stamp() {
    let mut c = console();
    let mut serial = Serial::new();
    assert!(matches!(c.handle(&mut serial, Message::DataReceived("ab".to_string()), " 10:00:00> "), Effect::Nothing));
    c.timestamp = true;
    c.handle(&mut serial, Message::DataReceived("cd".to_string()), " 10:00:01> ");
    assert_eq!(c.terminal_text, "ab 10:00:01> cd");
    assert_eq!(c.rx_cnt, 4);
}

#[test]
fn recording_hands_back_received_text() {
    let mut c = console();
    let mut serial = Serial::new();
    assert!(matches!(c.handle(&mut serial, Message::StartRecording, ""), Effect::PickRecordingFile));
    c.record_to("capture.txt".to_string());
    assert!(c.recording_started);
    assert_eq!(c.log_file_name, "capture.txt");
    match c.handle(&mut serial, Message::DataReceived("xyz".to_string()), "") {
        Effect::Record(t) => assert_eq!(t, "xyz"),
        _ => panic!("expected text to record"),
    }
    c.handle(&mut serial, Message::StopRecording, "");
    assert!(!c.recording_started);
    assert!(matches!(c.handle(&mut serial, Message::RecordingData("q".to_string()), ""), Effect::Nothing));
}

#[test]
fn clipboard_messages() {
    let mut c = console();
    let mut serial = Serial::new();
    c.handle(&mut serial, Message::DataReceived("keep".to_string()), "");
    match c.handle(&mut serial, Message::Copy, "") {
        Effect::CopyText(t) => assert_eq!(t, "keep"),
        _ => panic!("expected text to copy"),
    }
    assert_eq!(c.terminal_text, "keep");
    match c.handle(&mut serial, Message::Cut, "") {
        Effect::CopyText(t) => assert_eq!(t, "keep"),
        _ => panic!("expected text to copy"),
    }
    assert_eq!(c.terminal_text, "");
    assert!(matches!(c.handle(&mut serial, Message::Paste, ""), Effect::RequestPaste));
    c.transmit_text = "AT".to_string();
    c.paste("+GMR");
    assert_eq!(c.transmit_text, "AT+GMR");
    c.line_end = LineEnd::CrLf;
    assert_eq!(c.outgoing_text(), "AT+GMR\r\n");
}

#[test]
fn log_and_clear_messages() {
    let mut c = console();
    let mut serial = Serial::new();
    let e = Entry {
        timestamp: "08:00:00".to_string(),
        level: "INFO".to_string(),
        target: "t".to_string(),
        args: "hello".to_string(),
    };
    c.handle(&mut serial, Message::Log(e), "");
    assert_eq!(c.log_text, "[08:00:00] INFO hello\n");
    c.handle(&mut serial, Message::ClearLogText, "");
    assert_eq!(c.log_text, "");
    c.handle(&mut serial, Message::DataReceived("z".to_string()), "");
    c.handle(&mut serial, Message::ClearTerminalText, "");
    assert_eq!(c.terminal_text, "");
}

#[test]
fn window_messages() {
    let mut c = console();
    let mut serial = Serial::new();
    c.handle(&mut serial, Message::ShowAbout, "");
    assert!(c.show_about);
    c.handle(&mut serial, Message::CloseAbout, "");
    assert!(!c.show_about);
    assert!(matches!(c.handle(&mut serial, Message::SetDefaultUi, ""), Effect::ResetLayout));
    assert!(matches!(c.handle(&mut serial, Message::CloseApplication, ""), Effect::Close));
    assert!(matches!(c.handle(&mut serial, Message::RefreshSerialDevices, ""), Effect::ListPorts));
}

#[test]
fn refreshed_ports_replace_the_list() {
    let mut c = console();
    c.ports_found(vec!["/dev/ttyACM0".to_string(), "/dev/ttyACM1".to_string()]);
    assert_eq!(c.current_serial_device, "/dev/ttyACM0");
    assert_eq!(c.serial_devices.len(), 2);
    c.ports_found(Vec::new());
    assert_eq!(c.current_serial_device, "");
    assert!(c.serial_devices.is_empty());
}

#[test]
fn status_line_summarises_the_link() {
    let mut c = console();
    assert_eq!(c.status_line(false), "/dev/ttyS0 CLOSED | 115200, 8N1 flow control: none | TX: 0 / RX: 0");
    c.serial_config.baud_rate = 9600;
    c.serial_config.data_bits = rustcom::config::DataBits::Seven;
    c.serial_config.parity = rustcom::config::ParityCheck::Even;
    c.serial_config.stop_bits = rustcom::config::StopBitCount::Two;
    c.serial_config.flow_control = rustcom::config::Handshake::Hardware;
    c.tx_cnt = 42;
    c.rx_cnt = u32::MAX;
    c.record_to("cap.txt".to_string());
    assert_eq!(
        c.status_line(true),
        "/dev/ttyS0 OPENED | 9600, 7E2 flow control: hardware | TX: 42 / RX: 4294967295 | Logging to: cap.txt"
    );
}
