use rs1553_net::devices::gps::{GpsTelemetry, GpsTime, Position, Velocity};
use rs1553_net::devices::power::{
    process_command_message, Fault, Power, PowerCommand, PowerMode, PowerParseError,
    PowerTelemetry, PowerTelemetryError,
};
use rs1553_net::protocol::{CmdWord, CommandMessage, DataWord, StatusWord, Subaddress, TxRx};

#[test]
fn mode_and_fault_codes() {
    assert_eq!(PowerMode::Idle.encode(), 0);
    assert_eq!(PowerMode::Charging.encode(), 1);
    assert_eq!(PowerMode::Discharging.encode(), 2);
    assert_eq!(PowerMode::decode(2), Ok(PowerMode::Discharging));
    assert_eq!(PowerMode::decode(3), Err(PowerParseError::UnknownMode(3)));
    assert_eq!(Fault::OverTemp.encode(), 1);
    assert_eq!(Fault::decode(0), Ok(Fault::NoFault));
    assert_eq!(Fault::decode(9), Err(PowerParseError::UnknownFault(9)));
}

#[test]
fn mode_fault_and_command_text() {
    assert_eq!(PowerMode::Charging.to_string(), "Charging");
    assert_eq!(Fault::NoFault.to_string(), "None");
    assert_eq!(PowerCommand::SetMode(PowerMode::Idle).to_string(), "Set Mode: Idle");
    assert_eq!(PowerCommand::ClearFault.to_string(), "Clear Fault");
    assert_eq!(
        PowerCommand::InjectFault(Fault::UnderVoltage).to_string(),
        "Inject Fault: UnderVoltage"
    );
}

#[test]
fn power_command_bytes_and_words() {
    assert_eq!(PowerCommand::SetMode(PowerMode::Charging).to_be_bytes(), [0, 1]);
    assert_eq!(PowerCommand::ClearFault.to_be_bytes(), [1, 0]);
    assert_eq!(PowerCommand::InjectFault(Fault::OverTemp).to_be_bytes(), [2, 1]);
    assert_eq!(PowerCommand::InjectFault(Fault::OverTemp).to_data_words(), vec![DataWord(0x0201)]);
    for c in [
        PowerCommand::SetMode(PowerMode::Idle),
        PowerCommand::SetMode(PowerMode::Discharging),
        PowerCommand::ClearFault,
        PowerCommand::InjectFault(Fault::UnderVoltage),
    ] {
        assert_eq!(PowerCommand::from_be_bytes(&c.to_be_bytes()), Ok(c));
        assert_eq!(PowerCommand::from_data_words(&c.to_data_words()), Ok(c));
    }
}

#[test]
fn power_command_errors() {
    assert_eq!(
        PowerCommand::from_be_bytes(&[0, 1, 2]),
        Err(PowerParseError::InvalidLength { expected: 2, actual: 3 })
    );
    assert_eq!(PowerCommand::from_be_bytes(&[7, 0]), Err(PowerParseError::UnknownCommand(7)));
    assert_eq!(PowerCommand::from_be_bytes(&[0, 5]), Err(PowerParseError::UnknownMode(5)));
    assert_eq!(PowerCommand::from_be_bytes(&[2, 5]), Err(PowerParseError::UnknownFault(5)));
    assert_eq!(
        PowerCommand::from_data_words(&[DataWord(1), DataWord(2)]),
        Err(PowerParseError::InvalidLength { expected: 2, actual: 4 })
    );
}

fn sample_telemetry() -> PowerTelemetry {
    PowerTelemetry {
        mode: PowerMode::Discharging,
        charge_percent: 97,
        temperature_bits: 22.5f32.to_bits(),
        fault: Fault::OverTemp,
    }
}

#[test]
fn power_telemetry_bytes() {
    let t = sample_telemetry();
    let t_bytes = 22.5f32.to_be_bytes();
    assert_eq!(
        t.to_be_bytes(),
        [0x21, 97, t_bytes[0], t_bytes[1], t_bytes[2], t_bytes[3]]
    );
    assert_eq!(PowerTelemetry::from_be_bytes(&t.to_be_bytes()), Ok(t));
    let words = t.to_data_words();
    assert_eq!(words.len(), 3);
    assert_eq!(words[0], DataWord(0x2161));
    assert_eq!(PowerTelemetry::from_data_words(&words), Ok(t));
}

#[test]
fn power_telemetry_errors() {
    assert_eq!(
        PowerTelemetry::from_be_bytes(&[0; 5]),
        Err(PowerParseError::InvalidLength { expected: 6, actual: 5 })
    );
    // unknown mode is reported before unknown fault
    assert_eq!(
        PowerTelemetry::from_be_bytes(&[0x33, 0, 0, 0, 0, 0]),
        Err(PowerParseError::UnknownMode(3))
    );
    assert_eq!(
        PowerTelemetry::from_be_bytes(&[0x13, 0, 0, 0, 0, 0]),
        Err(PowerParseError::UnknownFault(3))
    );
}

#[test]
fn power_commands_change_mode_and_fault() {
    let mut p = Power { mode: PowerMode::Discharging, fault: Fault::NoFault };
    p.handle_command(PowerCommand::SetMode(PowerMode::Charging));
    assert_eq!(p.mode, PowerMode::Charging);
    p.handle_command(PowerCommand::InjectFault(Fault::OverTemp));
    assert_eq!(p, Power { mode: PowerMode::Idle, fault: Fault::OverTemp });
    // a mode change is refused while faulted
    p.handle_command(PowerCommand::SetMode(PowerMode::Discharging));
    assert_eq!(p.mode, PowerMode::Idle);
    p.handle_command(PowerCommand::ClearFault);
    assert_eq!(p.fault, Fault::NoFault);
    p.handle_command(PowerCommand::SetMode(PowerMode::Discharging));
    assert_eq!(p.mode, PowerMode::Discharging);
}

#[test]
fn power_update_rules() {
    let mut p = Power { mode: PowerMode::Discharging, fault: Fault::NoFault };
    p.update(false, false);
    assert_eq!(p, Power { mode: PowerMode::Discharging, fault: Fault::NoFault });
    p.update(true, false);
    assert_eq!(p, Power { mode: PowerMode::Idle, fault: Fault::OverTemp });
    let mut q = Power { mode: PowerMode::Discharging, fault: Fault::NoFault };
    q.update(true, true);
    assert_eq!(q, Power { mode: PowerMode::Idle, fault: Fault::UnderVoltage });
    // low charge while charging is no fault
    let mut c = Power { mode: PowerMode::Charging, fault: Fault::NoFault };
    c.update(false, true);
    assert_eq!(c, Power { mode: PowerMode::Charging, fault: Fault::NoFault });
}

fn idle_status(rt: u8) -> StatusWord {
    StatusWord {
        rt_addr: rt,
        msg_error: false,
        service_req: false,
        broadcast_received: false,
        busy_bit: false,
        subsystem_flag: false,
        dyn_bus_accept: false,
        terminal_flag: false,
    }
}

#[test]
fn power_terminal_serves_commands_and_telemetry() {
    let status = idle_status(5);
    let mut p = Power { mode: PowerMode::Discharging, fault: Fault::NoFault };
    let cmd = CommandMessage {
        word: CmdWord::new(5, Subaddress { address: 5, tr: TxRx::R }, 1),
        data: PowerCommand::InjectFault(Fault::OverTemp).to_data_words(),
    };
    let r = process_command_message(&mut p, status, cmd, 50, 0);
    assert_eq!(r.word, status);
    assert!(r.data.is_empty());
    assert_eq!(p, Power { mode: PowerMode::Idle, fault: Fault::OverTemp });

    let req = CommandMessage {
        word: CmdWord::new(5, Subaddress { address: 7, tr: TxRx::T }, 3),
        data: Vec::new(),
    };
    let r = process_command_message(&mut p, status, req, 50, 22.0f32.to_bits());
    let t = PowerTelemetry::from_data_words(&r.data).unwrap();
    assert_eq!(t.mode, PowerMode::Idle);
    assert_eq!(t.fault, Fault::OverTemp);
    assert_eq!(t.charge_percent, 50);
    assert_eq!(f32::from_bits(t.temperature_bits), 22.0);

    // a command that does not parse is dropped, the status word still goes back
    let bad = CommandMessage {
        word: CmdWord::new(5, Subaddress { address: 5, tr: TxRx::R }, 1),
        data: vec![DataWord(0x0900)],
    };
    let before = p;
    let r = process_command_message(&mut p, status, bad, 0, 0);
    assert_eq!(p, before);
    assert!(r.data.is_empty());
}

fn sample_gps() -> GpsTelemetry {
    GpsTelemetry {
        time: GpsTime { week: 5, seconds_of_week_bits: 12345.67f32.to_bits() },
        position: Position { x_bits: 0, y_bits: 1.5f32.to_bits(), z_bits: (-2.0f32).to_bits() },
        velocity: Velocity { x_bits: 0.5f32.to_bits(), y_bits: 0, z_bits: 0.7f32.to_bits() },
    }
}

#[test]
fn gps_bytes_and_words() {
    let g = sample_gps();
    let bytes = g.to_be_bytes();
    assert_eq!(bytes.len(), 30);
    assert_eq!(&bytes[0..2], &[0u8, 5]);
    assert_eq!(&bytes[2..6], &12345.67f32.to_be_bytes());
    assert_eq!(&bytes[26..30], &0.7f32.to_be_bytes());
    assert_eq!(GpsTelemetry::from_be_bytes(&bytes), g);
    let words = g.to_data_words();
    assert_eq!(words.len(), 15);
    assert_eq!(words[0], DataWord(5));
    assert_eq!(GpsTelemetry::from_data_words(&words), g);
    assert_eq!(GpsTime::from_be_bytes(&g.time.to_be_bytes()), g.time);
    assert_eq!(Position::from_be_bytes(&g.position.to_be_bytes()), g.position);
    assert_eq!(Velocity::from_be_bytes(&g.velocity.to_be_bytes()), g.velocity);
}

#[test]
fn telemetry_read_from_the_leading_bytes_of_a_longer_buffer() {
    let t = sample_telemetry();
    let mut bytes = t.to_be_bytes().to_vec();
    bytes.push(0xff);
    assert_eq!(PowerTelemetry::from_be_bytes(&bytes), Err(PowerParseError::InvalidLength { expected: 6, actual: 7 }));
    assert_eq!(PowerTelemetry::from_leading_bytes(&bytes), Ok(t));
    assert_eq!(PowerTelemetry::from_leading_bytes(&bytes[..6]), Ok(t));

    let mut bad_mode = bytes.clone();
    bad_mode[0] = 0x31;
    assert_eq!(PowerTelemetry::from_leading_bytes(&bad_mode), Err(PowerTelemetryError::UnknownMode(3)));
    let mut bad_fault = bytes.clone();
    bad_fault[0] = 0x17;
    assert_eq!(PowerTelemetry::from_leading_bytes(&bad_fault), Err(PowerTelemetryError::UnknownFault(7)));
    let mut both_bad = bytes.clone();
    both_bad[0] = 0xff;
    assert_eq!(PowerTelemetry::from_leading_bytes(&both_bad), Err(PowerTelemetryError::UnknownMode(15)));

    let mut words = t.to_data_words();
    words.push(DataWord(0xabcd));
    assert_eq!(PowerTelemetry::from_leading_words(&words), Ok(t));
}
