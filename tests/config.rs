use rustcom::config::{DataBits, Handshake, ParityCheck, SerialConfig, StopBitCount};

fn all_configs() -> Vec<SerialConfig> {
    let mut out = Vec::new();
    for baud_rate in [1u32, 9600, 115200, u32::MAX] {
        for data_bits in [DataBits::Five, DataBits::Six, DataBits::Seven, DataBits::Eight] {
            for parity in [ParityCheck::Off, ParityCheck::Odd, ParityCheck::Even] {
                for stop_bits in [StopBitCount::One, StopBitCount::Two] {
                    for flow_control in [Handshake::Off, Handshake::Software, Handshake::Hardware] {
                        out.push(SerialConfig { baud_rate, data_bits, parity, stop_bits, flow_control });
                    }
                }
            }
        }
    }
    out
}

#[test]
fn native_round_trip_keeps_every_field() {
    for c in all_configs() {
        let n = c.to_native();
        assert_eq!(SerialConfig::from_native(&n), c);
    }
}

#[test]
fn native_values_match_the_driver_names() {
    let c = SerialConfig {
        baud_rate: 9600,
        data_bits: DataBits::Seven,
        parity: ParityCheck::Even,
        stop_bits: StopBitCount::Two,
        flow_control: Handshake::Hardware,
    };
    let n = c.to_native();
    assert_eq!(n.baud_rate, 9600);
    assert_eq!(n.char_size, serial2::CharSize::Bits7);
    assert_eq!(n.parity, serial2::Parity::Even);
    assert_eq!(n.stop_bits, serial2::StopBits::Two);
    assert_eq!(n.flow_control, serial2::FlowControl::RtsCts);
    let s = SerialConfig { flow_control: Handshake::Software, ..c }.to_native();
    assert_eq!(s.flow_control, serial2::FlowControl::XonXoff);
}

#[test]
fn default_config_is_115200_8n1_without_flow_control() {
    let c = SerialConfig::default();
    assert_eq!(c.baud_rate, 115200);
    assert_eq!(c.data_bits, DataBits::Eight);
    assert_eq!(c.parity, ParityCheck::Off);
    assert_eq!(c.stop_bits, StopBitCount::One);
    assert_eq!(c.flow_control, Handshake::Off);
}
