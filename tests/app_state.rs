use rustcom::macros::{delay_step_down, delay_step_up, repeat_action, Macro, Macros, RepeatAction};
use rustcom::messages::{init, send, try_receive, Message};
use rustcom::ui::{decimal_text, select_device, with_line_end, LineEnd, LogTab, Protocol, SettingsTab, Tabs, TerminalTab};

#[test]
fn empty_port_list_selects_no_device() {
    let ports: Vec<String> = Vec::new();
    assert_eq!(select_device("", &ports), "");
}

#[test]
fn requested_device_wins_then_first_port() {
    let ports = vec!["/dev/ttyS0".to_string(), "/dev/ttyUSB0".to_string()];
    assert_eq!(select_device("COM3", &ports), "COM3");
    assert_eq!(select_device("", &ports), "/dev/ttyS0");
    assert_eq!(select_device("COM3", &Vec::new()), "COM3");
}

#[test]
fn line_endings_frame_outgoing_text() {
    assert_eq!(with_line_end("AT", LineEnd::LF), "AT\n");
    assert_eq!(with_line_end("AT", LineEnd::CR), "AT\r");
    assert_eq!(with_line_end("AT", LineEnd::CrLf), "AT\r\n");
    assert_eq!(with_line_end("AT", LineEnd::NoEnd), "AT");
    assert_eq!(with_line_end("", LineEnd::default()), "\n");
}

#[test]
fn line_end_labels() {
    assert_eq!(LineEnd::LF.label(), "LF");
    assert_eq!(LineEnd::CR.label(), "CR");
    assert_eq!(LineEnd::CrLf.label(), "CR + LF");
    assert_eq!(LineEnd::NoEnd.label(), "None");
}

#[test]
fn names_and_titles() {
    assert_eq!(Protocol::default().name(), "Plain");
    assert_eq!(Protocol::XModem.name(), "XModem");
    assert_eq!(Protocol::YModem.name(), "YModem");
    assert_eq!(Tabs::Terminal.name(), "Terminal");
    assert_eq!(Tabs::Log.name(), "Log");
    assert_eq!(Tabs::Settings.name(), "Settings");
    assert_eq!(TerminalTab.title(), "Terminal");
    assert_eq!(LogTab.title(), "Log");
    assert_eq!(SettingsTab.title(), "Settings");
}

#[test]
fn macros_start_as_sixteen_defaults() {
    let m = Macros::new();
    assert!(!m.is_window_open());
    for i in 0..16 {
        let slot = m.get_macro(i).unwrap();
        assert_eq!(slot.text, "");
        assert_eq!(slot.delay, 1000);
        assert!(!slot.repeat);
    }
    assert!(m.get_macro(16).is_none());
}

#[test]
fn macros_can_be_replaced_and_window_toggled() {
    let mut m = Macros::new();
    assert!(m.set_macro(3, Macro { text: "ping".to_string(), delay: 250, repeat: true }));
    assert!(!m.set_macro(16, Macro::default()));
    let slot = m.get_macro(3).unwrap();
    assert_eq!(slot.text, "ping");
    assert_eq!(slot.delay, 250);
    assert!(slot.repeat);
    m.set_open(true);
    assert!(m.is_window_open());
    m.set_open(false);
    assert!(!m.is_window_open());
}

#[test]
fn repeat_timer_decisions() {
    assert_eq!(repeat_action(true, false), RepeatAction::Start);
    assert_eq!(repeat_action(false, true), RepeatAction::Halt);
    assert_eq!(repeat_action(true, true), RepeatAction::Keep);
    assert_eq!(repeat_action(false, false), RepeatAction::Keep);
}

#[test]
fn delay_steps_saturate() {
    assert_eq!(delay_step_up(1000, 10, u32::MAX), 1010);
    assert_eq!(delay_step_up(u32::MAX - 5, 10, u32::MAX), u32::MAX);
    assert_eq!(delay_step_up(95, 10, 100), 100);
    assert_eq!(delay_step_down(1000, 10, 0), 990);
    assert_eq!(delay_step_down(5, 10, 0), 0);
    assert_eq!(delay_step_down(15, 10, 8), 8);
}

#[test]
fn message_bus_is_first_in_first_out() {
    let bus = init();
    assert!(try_receive(&bus).is_none());
    send(&bus, Message::Connect);
    send(&bus, Message::DataForTransmit("x".to_string()));
    bus.sender().send(Message::Disconnect).unwrap();
    assert!(matches!(try_receive(&bus), Some(Message::Connect)));
    assert!(matches!(try_receive(&bus), Some(Message::DataForTransmit(t)) if t == "x"));
    assert!(matches!(try_receive(&bus), Some(Message::Disconnect)));
    assert!(try_receive(&bus).is_none());
}

#[test]
fn decimal_numerals() {
    assert_eq!(decimal_text(0), "0");
    assert_eq!(decimal_text(7), "7");
    assert_eq!(decimal_text(10), "10");
    assert_eq!(decimal_text(115200), "115200");
    assert_eq!(decimal_text(u32::MAX), "4294967295");
}
