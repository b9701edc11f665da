use rs1553_net::control::panel::CommandPanel;
use rs1553_net::control::schedule::{periodic_commands, Poll};
use rs1553_net::control::station::{power_command_message, read_reply, App, Reply};
use rs1553_net::devices::gps::{GpsTelemetry, GpsTime, Position, Velocity};
use rs1553_net::devices::power::{Fault, PowerCommand, PowerMode, PowerTelemetry};
use rs1553_net::net::bus_controller::{
    classify_heartbeat_reply, data_bytes_len, heartbeat_bytes, heartbeat_command, reply_data_words,
    HeartbeatReply, HeartbeatTimer,
};
use rs1553_net::net::relay::{relay_step, RelayAction, RelayEvent};
use rs1553_net::net::rt::{
    acknowledge, gps_reply, is_gps_request, plan_read, repeated_words, test_rt_response,
    AckDecision, ReadPlan,
};
use rs1553_net::protocol::{
    CmdWord, CommandMessage, DataWord, StatusMessage, StatusWord, Subaddress, Transaction, TxRx,
};
use rs1553_net::ui::key::Key;

fn idle_status(rt: u8) -> StatusWord {
    StatusWord {
        rt_addr: rt,
        msg_error: false,
        service_req: false,
        broadcast_received: false,
        busy_bit: false,
        subsystem_flag: false,
        dyn_bus_accept: false,
        terminal_flag: false,
    }
}

#[test]
fn panel_cursor_moves_like_a_list() {
    let mut panel = CommandPanel::default();
    assert_eq!(panel.selection(), Some(0));
    assert_eq!(panel.selected(), Some(PowerCommand::SetMode(PowerMode::Idle)));
    panel.previous();
    assert_eq!(panel.selection(), Some(0));
    for _ in 0..8 {
        panel.next();
    }
    assert_eq!(panel.selection(), Some(8));
    panel.set_selection(Some(5));
    assert_eq!(panel.selection(), Some(5));
    assert_eq!(panel.selected(), Some(PowerCommand::InjectFault(Fault::UnderVoltage)));
    panel.set_selection(None);
    assert_eq!(panel.selected(), None);
    panel.previous();
    assert_eq!(panel.selection(), Some(usize::MAX));
    panel.set_selection(None);
    panel.next();
    assert_eq!(panel.selection(), Some(0));
    let labels = panel.list_commands();
    assert_eq!(labels.len(), 6);
    assert_eq!(labels[3], "Clear Fault");
    assert_eq!(labels[4], "Inject Fault: OverTemp");
}

#[test]
fn station_keys() {
    let mut app = App::new();
    assert!(app.handle_key(Key::Char('j')).is_none());
    assert!(app.handle_key(Key::Char('j')).is_none());
    let msg = app.handle_key(Key::Enter).unwrap();
    assert_eq!(msg.word, CmdWord::new(5, Subaddress { address: 5, tr: TxRx::R }, 1));
    assert_eq!(msg.data, vec![DataWord(0x0002)]);
    assert!(!app.exit);
    assert!(app.handle_key(Key::Char('k')).is_none());
    assert_eq!(app.power_commands.selection(), Some(1));
    assert!(app.handle_key(Key::Char('x')).is_none());
    assert!(app.exit);
}

fn gps_sample() -> GpsTelemetry {
    GpsTelemetry {
        time: GpsTime { week: 7, seconds_of_week_bits: 3 },
        position: Position { x_bits: 1, y_bits: 2, z_bits: 3 },
        velocity: Velocity { x_bits: 4, y_bits: 5, z_bits: 6 },
    }
}

#[test]
fn station_keeps_telemetry_from_transactions() {
    let mut app = App::new();
    let telemetry = PowerTelemetry {
        mode: PowerMode::Charging,
        charge_percent: 40,
        temperature_bits: 0,
        fault: Fault::NoFault,
    };
    let t = Transaction {
        command: CommandMessage {
            word: CmdWord::new(5, Subaddress { address: 7, tr: TxRx::T }, 3),
            data: Vec::new(),
        },
        status: StatusMessage { word: idle_status(5), data: telemetry.to_data_words() },
    };
    app.handle_transaction(&t);
    assert_eq!(app.power_telemetry, Some(telemetry));

    let g = gps_sample();
    let t = Transaction {
        command: CommandMessage {
            word: CmdWord::new(13, Subaddress { address: 13, tr: TxRx::T }, 15),
            data: Vec::new(),
        },
        status: StatusMessage { word: idle_status(13), data: g.to_data_words() },
    };
    app.handle_transaction(&t);
    assert_eq!(app.gps_telemetry, Some(g));

    // telemetry that does not read keeps the previous one
    let bad = Transaction {
        command: CommandMessage {
            word: CmdWord::new(5, Subaddress { address: 7, tr: TxRx::T }, 3),
            data: Vec::new(),
        },
        status: StatusMessage { word: idle_status(5), data: vec![DataWord(0xffff)] },
    };
    assert!(matches!(read_reply(&bad), Reply::Power(Err(_))));
    app.handle_transaction(&bad);
    assert_eq!(app.power_telemetry, Some(telemetry));

    let unknown = Transaction {
        command: CommandMessage { word: CmdWord::from(9u16 << 11), data: Vec::new() },
        status: StatusMessage { word: idle_status(9), data: Vec::new() },
    };
    assert!(matches!(read_reply(&unknown), Reply::UnknownRt(9)));
    let ack = Transaction {
        command: power_command_message(PowerCommand::ClearFault),
        status: StatusMessage { word: idle_status(5), data: Vec::new() },
    };
    assert!(matches!(read_reply(&ack), Reply::Acknowledged));
}

#[test]
fn schedules() {
    let p = periodic_commands();
    assert_eq!(p.len(), 2);
    assert_eq!(p[0].interval_secs, 1);
    assert_eq!(p[0].command.word, CmdWord::new(5, Subaddress { address: 7, tr: TxRx::T }, 3));
    assert_eq!(p[1].interval_secs, 2);
    assert_eq!(p[1].command.word, CmdWord::new(13, Subaddress { address: 13, tr: TxRx::T }, 15));
    assert_eq!(Poll::InjectOverTemp.interval_secs(), 7);
    assert_eq!(Poll::GpsTelemetry.interval_secs(), 3);
    assert_eq!(Poll::InjectOverTemp.command_message().data, vec![DataWord(0x0201)]);
    assert_eq!(Poll::PowerTelemetry.command_message().word.word_count, 3);
}

#[test]
fn bus_controller_decisions() {
    let t = CmdWord::new(5, Subaddress { address: 7, tr: TxRx::T }, 3);
    let r = CmdWord::new(5, Subaddress { address: 5, tr: TxRx::R }, 1);
    assert_eq!(reply_data_words(&t), 3);
    assert_eq!(reply_data_words(&r), 0);
    assert_eq!(data_bytes_len(15), 30);
    assert_eq!(u16::from(heartbeat_command(5)), (5 << 11) | (5 << 5));
    assert_eq!(classify_heartbeat_reply(&[0u8; 4], 0, 5), HeartbeatReply::Closed);
    assert_eq!(classify_heartbeat_reply(&[0u8; 4], 1, 5), HeartbeatReply::TooShort);
    assert_eq!(classify_heartbeat_reply(&[40u8, 0, 0], 3, 5), HeartbeatReply::Matched);
    assert_eq!(classify_heartbeat_reply(&[40u8, 0], 2, 13), HeartbeatReply::Mismatched);
}

#[test]
fn remote_terminal_decisions() {
    let other = CmdWord::new(13, Subaddress { address: 13, tr: TxRx::T }, 15);
    assert_eq!(plan_read(5, &other), ReadPlan::Discard(32));
    let rx = CmdWord::new(5, Subaddress { address: 5, tr: TxRx::R }, 1);
    assert_eq!(plan_read(5, &rx), ReadPlan::Accept(1));
    let tx = CmdWord::new(5, Subaddress { address: 7, tr: TxRx::T }, 3);
    assert_eq!(plan_read(5, &tx), ReadPlan::Accept(0));

    assert_eq!(acknowledge(&[0u8; 8], 0, 5), AckDecision::Closed);
    assert_eq!(acknowledge(&[0u8; 8], 1, 5), AckDecision::TooShort);
    assert_eq!(acknowledge(&[10u8, 205, 0], 3, 5), AckDecision::NotForThisRt);
    assert_eq!(acknowledge(&[10u8, 205], 2, 1), AckDecision::Acknowledge(idle_status(1)));

    assert_eq!(repeated_words(7, 3), vec![DataWord(7); 3]);
    let status = idle_status(5);
    let m = test_rt_response(status, &CommandMessage { word: tx, data: Vec::new() }).unwrap();
    assert_eq!(m.data, vec![DataWord(7); 3]);
    let m = test_rt_response(status, &CommandMessage { word: rx, data: vec![DataWord(1)] }).unwrap();
    assert!(m.data.is_empty());
    let m = test_rt_response(status, &CommandMessage { word: other, data: Vec::new() }).unwrap();
    assert_eq!(m.data, vec![DataWord(13); 15]);
    let odd = CmdWord::new(5, Subaddress { address: 9, tr: TxRx::T }, 2);
    assert!(test_rt_response(status, &CommandMessage { word: odd, data: Vec::new() }).is_none());

    assert!(is_gps_request(&other));
    assert!(!is_gps_request(&tx));
    let g = gps_sample();
    let reply = gps_reply(idle_status(13), &g);
    assert_eq!(GpsTelemetry::from_data_words(&reply.data), g);
}

#[test]
fn relay_passes_bytes_on_to_the_other_clients() {
    assert_eq!(relay_step(RelayEvent::Read(0)), RelayAction::Disconnect);
    assert_eq!(relay_step(RelayEvent::Read(5)), RelayAction::Publish(5));
    assert_eq!(relay_step(RelayEvent::ReadFailed), RelayAction::StopOnReadError);
    assert_eq!(relay_step(RelayEvent::Delivered { from_self: true }), RelayAction::Skip);
    assert_eq!(relay_step(RelayEvent::Delivered { from_self: false }), RelayAction::Forward);
    assert_eq!(relay_step(RelayEvent::Lagged(3)), RelayAction::ReportLag(3));
    assert_eq!(relay_step(RelayEvent::ChannelClosed), RelayAction::Stop);
}

#[test]
fn heartbeats_write_one_command_word() {
    assert_eq!(heartbeat_bytes(HeartbeatTimer::Rt5), [40, 160]);
    assert_eq!(heartbeat_bytes(HeartbeatTimer::Rt13), [105, 160]);
    assert_eq!(HeartbeatTimer::Rt5.rt(), 5);
    assert_eq!(HeartbeatTimer::Rt13.rt(), 13);
    assert_eq!(HeartbeatTimer::Rt5.period_millis(), 333);
    assert_eq!(HeartbeatTimer::Rt13.period_millis(), 1000);
}
