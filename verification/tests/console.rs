use rs1553_net::console::{CommandConsole, EchoBuffer, LedAction};

fn type_line(c: &mut CommandConsole, text: &str, led_on: bool) -> LedAction {
    let mut action = LedAction::Keep;
    for &b in text.as_bytes() {
        action = c.handle_cmd_byte(b, led_on);
    }
    action
}

fn drain(c: &mut CommandConsole) -> Vec<u8> {
    let mut out = Vec::new();
    while let Some(b) = c.next_tx_byte() {
        out.push(b);
    }
    out
}

#[test]
fn console_commands() {
    let mut c = CommandConsole::new();
    assert_eq!(type_line(&mut c, "on\r", false), LedAction::On);
    assert_eq!(drain(&mut c), b"\r\nCMD: LED ON RCVD\r\n".to_vec());
    assert_eq!(type_line(&mut c, "off\r", true), LedAction::Off);
    assert_eq!(drain(&mut c), b"\r\nCMD: LED OFF RCVD\r\n".to_vec());
    assert_eq!(type_line(&mut c, "toggle\r", true), LedAction::Toggle);
    assert_eq!(drain(&mut c), b"\r\nCMD: LED TOGGLE RCVD\r\n".to_vec());
    assert_eq!(type_line(&mut c, "status\r", true), LedAction::Keep);
    assert_eq!(drain(&mut c), b"\r\nCMD: LED STATE: LED is ON\r\n".to_vec());
    assert_eq!(type_line(&mut c, "status\r", false), LedAction::Keep);
    assert_eq!(drain(&mut c), b"\r\nCMD: LED STATE: LED is OFF\r\n".to_vec());
    assert_eq!(type_line(&mut c, "blink\r", false), LedAction::Keep);
    assert_eq!(drain(&mut c), b"\r\nUnknown Command: blink\r\n".to_vec());
}

#[test]
fn console_long_line_and_full_queue() {
    let mut c = CommandConsole::new();
    let long = "x".repeat(40) + "\r";
    assert_eq!(type_line(&mut c, &long, false), LedAction::Keep);
    assert_eq!(drain(&mut c), b"\r\nError: command too long\r\n".to_vec());
    // the line starts over after a carriage return
    assert_eq!(type_line(&mut c, "on\r", false), LedAction::On);
    drain(&mut c);
    // the unknown-command reply is cut at the queue's 32 bytes
    type_line(&mut c, "abcdefghijklmnopqrstuvwxyz\r", false);
    let out = drain(&mut c);
    assert_eq!(out.len(), 32);
    assert_eq!(&out[..], &b"\r\nUnknown Command: abcdefghijklmnopqrstuvwxyz\r\n"[..32]);
    // echo drops bytes once the queue is full
    for b in 0..40u8 {
        c.echo_byte(b);
    }
    let out = drain(&mut c);
    assert_eq!(out, (0..32u8).collect::<Vec<u8>>());
    c.buffer_tx_bytes(b"hi");
    assert_eq!(drain(&mut c), b"hi".to_vec());
}

#[test]
fn echo_buffer() {
    let mut e = EchoBuffer::new();
    e.received(b'a');
    e.timer_tick();
    let mut out = Vec::new();
    while let Some(b) = e.next_tx_byte() {
        out.push(b);
    }
    assert_eq!(out, b"a\r\nTimer!\r\n".to_vec());
    assert_eq!(e.next_tx_byte(), None);
}
