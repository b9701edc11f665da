use rs1553_net::protocol::message::{words_from_bytes, words_to_bytes};
use rs1553_net::protocol::support::{extract_field, extract_flag};
use rs1553_net::protocol::{
    CmdWord, CommandMessage, DataWord, ProtocolWord, StatusMessage, StatusWord, Subaddress, TxRx,
};

#[test]
fn data_word_to_be_bytes_works_correctly() {
    assert_eq!(DataWord(2765_u16).to_be_bytes(), [10_u8, 205])
}

#[test]
fn data_word_from_be_bytes_and_from_u16() {
    assert_eq!(DataWord::from_be_bytes([10_u8, 205]), DataWord(2765));
    assert_eq!(DataWord::from(0xbeef_u16), DataWord(0xbeef));
    let w = DataWord(0x1234);
    assert_eq!(DataWord::from_be_bytes(w.to_be_bytes()), w);
}

#[test]
fn pack_status_word_correctly() {
    let status_word: u16 = StatusWord {
        rt_addr: 5,
        msg_error: false,
        service_req: true,
        broadcast_received: false,
        busy_bit: true,
        subsystem_flag: true,
        dyn_bus_accept: false,
        terminal_flag: false,
    }
    .into();
    assert_eq!(status_word, 10508)
}

#[test]
fn status_word_to_be_bytes_works_correctly() {
    assert_eq!(
        [40u8, 0],
        StatusWord {
            rt_addr: 5,
            msg_error: false,
            service_req: false,
            broadcast_received: false,
            busy_bit: false,
            subsystem_flag: false,
            dyn_bus_accept: false,
            terminal_flag: false
        }
        .to_be_bytes()
    );
}

#[test]
fn build_status_word_from_bytes_correctly() {
    assert_eq!(
        StatusWord::from([40u8, 0]),
        StatusWord {
            rt_addr: 5,
            msg_error: false,
            service_req: false,
            broadcast_received: false,
            busy_bit: false,
            subsystem_flag: false,
            dyn_bus_accept: false,
            terminal_flag: false
        }
    );
}

#[test]
fn build_status_word_from_byte_slice_correctly() {
    let bytes = [40u8, 0, 13, 52, 4];
    assert_eq!(
        StatusWord::try_from(&bytes[0..2]).unwrap(),
        StatusWord {
            rt_addr: 5,
            msg_error: false,
            service_req: false,
            broadcast_received: false,
            busy_bit: false,
            subsystem_flag: false,
            dyn_bus_accept: false,
            terminal_flag: false
        }
    );
}

#[test]
fn status_word_slice_of_wrong_length_is_refused() {
    let bytes = [40u8, 0, 13];
    assert!(StatusWord::try_from(&bytes[..]).is_err());
    assert!(StatusWord::try_from(&bytes[..1]).is_err());
}

#[test]
fn status_word_drops_reserved_and_instrumentation_bits() {
    // all bits set: bits 5..7 and 9 are not carried
    let s = StatusWord::from(0xffff_u16);
    assert_eq!(s.rt_addr, 31);
    assert!(s.msg_error && s.service_req && s.terminal_flag);
    assert_eq!(u16::from(s), 0xfd1f);
}

#[test]
fn status_word_survives_a_wire_round_trip() {
    for rt_addr in 0u8..32 {
        for flags in 0u8..128 {
            let s = StatusWord {
                rt_addr,
                msg_error: flags & 1 != 0,
                service_req: flags & 2 != 0,
                broadcast_received: flags & 4 != 0,
                busy_bit: flags & 8 != 0,
                subsystem_flag: flags & 16 != 0,
                dyn_bus_accept: flags & 32 != 0,
                terminal_flag: flags & 64 != 0,
            };
            let bytes = s.to_be_bytes();
            assert_eq!(StatusWord::from(bytes), s);
            assert_eq!(StatusWord::try_from(&bytes[..]).unwrap(), s);
        }
    }
}

#[test]
fn pack_cmd_word_correctly() {
    let cmd_word: u16 = CmdWord::new(
        1,
        Subaddress {
            address: 22,
            tr: TxRx::R,
        },
        13,
    )
    .into();

    assert_eq!(cmd_word, 2765);
}

#[test]
fn cmd_word_to_be_bytes_works_correctly() {
    assert_eq!(
        [10u8, 205],
        CmdWord::new(
            1,
            Subaddress {
                address: 22,
                tr: TxRx::R
            },
            13
        )
        .to_be_bytes()
    );
}

#[test]
fn build_cmd_word_from_bytes_correctly() {
    assert_eq!(
        CmdWord::from([10u8, 205]),
        CmdWord::new(
            1,
            Subaddress {
                address: 22,
                tr: TxRx::R
            },
            13
        )
    );
}

#[test]
fn build_cmd_word_from_byte_slice_correctly() {
    let bytes = [10u8, 205, 12, 100, 24];
    assert_eq!(
        CmdWord::try_from(&bytes[0..2]).unwrap(),
        CmdWord::new(
            1,
            Subaddress {
                address: 22,
                tr: TxRx::R
            },
            13
        )
    );
}

#[test]
fn cmd_word_count_of_32_is_sent_as_zero() {
    let w = CmdWord::new(5, Subaddress { address: 7, tr: TxRx::T }, 32);
    let x: u16 = w.into();
    assert_eq!(x, (5 << 11) | (1 << 10) | (7 << 5));
    assert_eq!(CmdWord::from(x), w);
    // a word count of 0 cannot be sent: it reads back as 32
    let zero = CmdWord::new(5, Subaddress { address: 7, tr: TxRx::T }, 0);
    assert_eq!(CmdWord::from(u16::from(zero)).word_count, 32);
}

#[test]
fn every_u16_survives_a_cmd_word_round_trip() {
    for x in [0u16, 1, 31, 32, 1024, 2765, 0x8000, 0xffff] {
        assert_eq!(u16::from(CmdWord::from(x)), x);
    }
}

#[test]
fn tx_rx_from_bool() {
    assert_eq!(TxRx::from(true), TxRx::T);
    assert_eq!(TxRx::from(false), TxRx::R);
    assert_eq!(TxRx::T.bit(), 1);
    assert_eq!(TxRx::R.bit(), 0);
}

#[test]
fn extracting_flags_and_fields() {
    assert!(extract_flag(0b100, 2));
    assert!(!extract_flag(0b100, 1));
    assert_eq!(extract_field(2765, 11, 0b1_1111), 1);
    assert_eq!(extract_field(2765, 5, 0b1_1111), 22);
    assert_eq!(extract_field(2765, 0, 0b1_1111), 13);
}

#[test]
fn encode_works_correctly() {
    // Did not check that the "number of data words" field in the command
    // message actually corresponds to the number in the data words in the
    // assert block. Just checking the byte arrays.
    assert_eq!(
        CommandMessage {
            word: CmdWord::from([105_u8, 73]),
            data: vec![
                DataWord(u16::from_be_bytes([0_u8, 15])),
                DataWord(u16::from_be_bytes([27_u8, 81])),
                DataWord(u16::from_be_bytes([212_u8, 124])),
            ]
        }
        .encode(),
        [105_u8, 73, 0, 15, 27, 81, 212, 124]
    );

    assert_eq!(
        StatusMessage {
            word: StatusWord::from([92u8, 12]),
            data: vec![
                DataWord(u16::from_be_bytes([98_u8, 243])),
                DataWord(u16::from_be_bytes([167_u8, 192])),
                DataWord(u16::from_be_bytes([51_u8, 0])),
                DataWord(u16::from_be_bytes([86_u8, 69])),
                DataWord(u16::from_be_bytes([15_u8, 162])),
            ]
        }
        .encode(),
        [92_u8, 12, 98, 243, 167, 192, 51, 0, 86, 69, 15, 162]
    );
}

#[test]
fn empty_message_encodes_to_its_word() {
    let m = StatusMessage::empty(StatusWord::from(10508u16));
    assert!(m.data.is_empty());
    assert_eq!(m.encode(), vec![41u8, 12]);
}

#[test]
fn message_clone_keeps_word_and_data() {
    let m = CommandMessage {
        word: CmdWord::from(2765u16),
        data: vec![DataWord(1), DataWord(2)],
    };
    let c = m.clone();
    assert_eq!(c.word, m.word);
    assert_eq!(c.data, m.data);
}

#[test]
fn data_words_to_bytes_and_back() {
    let words = vec![DataWord(0x0102), DataWord(0xa0b0)];
    let bytes = words_to_bytes(&words);
    assert_eq!(bytes, vec![1u8, 2, 0xa0, 0xb0]);
    assert_eq!(words_from_bytes(&bytes), words);
    // a trailing odd byte is not a word
    assert_eq!(words_from_bytes(&[1u8, 2, 3]), vec![DataWord(0x0102)]);
}
