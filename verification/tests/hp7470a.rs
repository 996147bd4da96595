use hpgl::hp7470a::{DeviceControlInstruction, HandshakeConfig, HandshakeMode, PlotterConfig};
use hpgl::PlotterWriteable;

#[test]
fn config_hardshaking_monmode1() {
    let mut buf: Vec<u8> = Vec::new();
    let instruction = DeviceControlInstruction::SetPlotterConfig(PlotterConfig {
        hw_handshake: true,
        mon_mode_ctl: true,
        mon_mode_ena: true,
    });
    instruction.write(&mut buf);

    assert_eq!(buf, b"\x1b.@;13:");
}

#[test]
fn config_softshaking_nomon() {
    let mut buf: Vec<u8> = Vec::new();
    let instruction = DeviceControlInstruction::SetPlotterConfig(Default::default());
    instruction.write(&mut buf);

    assert_eq!(buf, b"\x1b.@;0:");
}

#[test]
fn mode2_xon_handshaking() {
    let mut buf: Vec<u8> = Vec::new();
    let instruction = DeviceControlInstruction::SetHandshakeMode(
        HandshakeMode::Mode2,
        HandshakeConfig::XonXoff {
            xoff_threshold: 81,
            xon_trigger_chars: b"\x11".to_vec(), // DC1
        },
    );
    instruction.write(&mut buf);

    assert_eq!(buf, b"\x1b.I81;;17:");
}

#[test]
fn mode1_enqack_handshaking() {
    let mut buf: Vec<u8> = Vec::new();
    let instruction = DeviceControlInstruction::SetHandshakeMode(
        HandshakeMode::Mode1,
        HandshakeConfig::EnqAck {
            block_size: 132,
            enq_char: 0x13,
            ack_string: [0x14, 0x07].to_vec(),
        },
    );
    instruction.write(&mut buf);

    assert_eq!(buf, b"\x1b.H132;19;20;7:");
}

#[test]
fn xoff_trigger_char() {
    let mut buf: Vec<u8> = Vec::new();
    let instruction = DeviceControlInstruction::SetExtHandshakeOptions {
        interchar_delay: None,
        xoff_trigger_chars: b"\x13".to_vec(),
    };
    instruction.write(&mut buf);

    assert_eq!(buf, b"\x1b.N;19:");
}

#[test]
fn config_value_is_sum_of_weights_for_every_combination() {
    // Weights: hardwire handshake 1, monitor mode select 4, monitor mode
    // enable 8; the packed value is the sum of the set bits' weights.
    for mask in 0u8..8 {
        let hw = mask & 1 != 0;
        let ctl = mask & 2 != 0;
        let ena = mask & 4 != 0;
        let config = PlotterConfig {
            hw_handshake: hw,
            mon_mode_ctl: ctl,
            mon_mode_ena: ena,
        };
        let expected: u8 =
            (if hw { 1 } else { 0 }) + (if ctl { 4 } else { 0 }) + (if ena { 8 } else { 0 });
        assert_eq!(config.bits(), expected);

        let mut buf: Vec<u8> = Vec::new();
        DeviceControlInstruction::SetPlotterConfig(config).write(&mut buf);
        let expected_frame = format!("\x1b.@;{}:", expected);
        assert_eq!(buf, expected_frame.as_bytes());
    }
}

#[test]
fn enqack_empty_ack_string() {
    let mut buf: Vec<u8> = Vec::new();
    let instruction = DeviceControlInstruction::SetHandshakeMode(
        HandshakeMode::Mode1,
        HandshakeConfig::EnqAck {
            block_size: 80,
            enq_char: 0x05,
            ack_string: Vec::new(),
        },
    );
    instruction.write(&mut buf);

    assert_eq!(buf, b"\x1b.H80;5;:");
}

#[test]
fn xon_multiple_trigger_chars() {
    let mut buf: Vec<u8> = Vec::new();
    let instruction = DeviceControlInstruction::SetHandshakeMode(
        HandshakeMode::Mode2,
        HandshakeConfig::XonXoff {
            xoff_threshold: 255,
            xon_trigger_chars: vec![0x11, 0x0d, 0x00],
        },
    );
    instruction.write(&mut buf);

    assert_eq!(buf, b"\x1b.I255;;17;13;0:");
}

#[test]
fn ext_handshake_with_interchar_delay() {
    let mut buf: Vec<u8> = Vec::new();
    let instruction = DeviceControlInstruction::SetExtHandshakeOptions {
        interchar_delay: Some(65535),
        xoff_trigger_chars: vec![0x13, 0x11],
    };
    instruction.write(&mut buf);

    assert_eq!(buf, b"\x1b.N65535;19;17:");
}
