//! The power subsystem: its modes and faults, the commands it accepts, the
//! telemetry it reports, and the rules that decide its mode and fault.

use vstd::prelude::*;
use vstd::string::*;
use crate::protocol::bytes::{
    be_bytes32, be_value, be_value32, lemma_be32_roundtrip, lemma_be_roundtrip,
    u16_from_be_bytes, u32_from_be_bytes, u32_to_be_bytes,
};
use crate::protocol::message::{bytes_words, words_bytes, words_from_bytes, words_to_bytes};
use crate::protocol::{CommandMessage, DataWord, StatusMessage, StatusWord, TxRx};

verus! {

/// Why a power command or power telemetry could not be read.
#[derive(Debug, Clone, Copy, PartialEq, Eq, Structural)]
pub enum PowerParseError {
    InvalidLength { expected: usize, actual: usize },
    UnknownMode(u8),
    UnknownFault(u8),
    UnknownCommand(u8),
}

/// Operating mode of the power subsystem.
#[derive(Debug, Clone, Copy, PartialEq, Eq, Structural)]
pub enum PowerMode {
    Idle,
    Charging,
    Discharging,
}

/// Wire code of a mode.
pub open spec fn mode_code(mode: PowerMode) -> u8 {
    match mode {
        PowerMode::Idle => 0,
        PowerMode::Charging => 1,
        PowerMode::Discharging => 2,
    }
}

/// The mode a wire code stands for, or the unknown-mode error.
pub open spec fn mode_from_code(byte: u8) -> Result<PowerMode, PowerParseError> {
    if byte == 0 {
        Ok(PowerMode::Idle)
    } else if byte == 1 {
        Ok(PowerMode::Charging)
    } else if byte == 2 {
        Ok(PowerMode::Discharging)
    } else {
        Err(PowerParseError::UnknownMode(byte))
    }
}

/// Display name of a mode.
pub open spec fn mode_label(mode: PowerMode) -> Seq<char> {
    match mode {
        PowerMode::Idle => "Idle"@,
        PowerMode::Charging => "Charging"@,
        PowerMode::Discharging => "Discharging"@,
    }
}

impl PowerMode {
    pub const IDLE: u8 = 0;
    pub const CHARGING: u8 = 1;
    pub const DISCHARGING: u8 = 2;

    /// The wire code of this mode.
    pub fn encode(self) -> (r: u8)
        ensures
            r == mode_code(self),
    {
        match self {
            Self::Idle => Self::IDLE,
            Self::Charging => Self::CHARGING,
            Self::Discharging => Self::DISCHARGING,
        }
    }

    /// The mode with wire code `byte`; any other code is an unknown mode.
    pub fn decode(byte: u8) -> (r: Result<Self, PowerParseError>)
        ensures
            r == mode_from_code(byte),
    {
        if byte == Self::IDLE {
            Ok(Self::Idle)
        } else if byte == Self::CHARGING {
            Ok(Self::Charging)
        } else if byte == Self::DISCHARGING {
            Ok(Self::Discharging)
        } else {
            Err(PowerParseError::UnknownMode(byte))
        }
    }

    /// The display name of this mode.
    pub fn as_str(&self) -> (r: &'static str)
        ensures
            r@ == mode_label(*self),
    {
        match self {
            Self::Idle => "Idle",
            Self::Charging => "Charging",
            Self::Discharging => "Discharging",
        }
    }

    /// The display name of this mode, as an owned string.
    pub fn to_string(&self) -> (r: String)
        ensures
            r@ == mode_label(*self),
    {
        String::from_str(self.as_str())
    }
}

/// Fault state of the power subsystem.
#[derive(Debug, Clone, Copy, PartialEq, Eq, Structural)]
pub enum Fault {
    /// No fault is present (shown as "None").
    NoFault,
    OverTemp,
    UnderVoltage,
}

/// Wire code of a fault.
pub open spec fn fault_code(fault: Fault) -> u8 {
    match fault {
        Fault::NoFault => 0,
        Fault::OverTemp => 1,
        Fault::UnderVoltage => 2,
    }
}

/// The fault a wire code stands for, or the unknown-fault error.
pub open spec fn fault_from_code(byte: u8) -> Result<Fault, PowerParseError> {
    if byte == 0 {
        Ok(Fault::NoFault)
    } else if byte == 1 {
        Ok(Fault::OverTemp)
    } else if byte == 2 {
        Ok(Fault::UnderVoltage)
    } else {
        Err(PowerParseError::UnknownFault(byte))
    }
}

/// Display name of a fault.
pub open spec fn fault_label(fault: Fault) -> Seq<char> {
    match fault {
        Fault::NoFault => "None"@,
        Fault::OverTemp => "OverTemp"@,
        Fault::UnderVoltage => "UnderVoltage"@,
    }
}

impl Fault {
    pub const NONE: u8 = 0;
    pub const OVERTEMP: u8 = 1;
    pub const UNDERVOLTAGE: u8 = 2;

    /// The wire code of this fault.
    pub fn encode(self) -> (r: u8)
        ensures
            r == fault_code(self),
    {
        match self {
            Self::NoFault => Self::NONE,
            Self::OverTemp => Self::OVERTEMP,
            Self::UnderVoltage => Self::UNDERVOLTAGE,
        }
    }

    /// The fault with wire code `byte`; any other code is an unknown fault.
    pub fn decode(byte: u8) -> (r: Result<Self, PowerParseError>)
        ensures
            r == fault_from_code(byte),
    {
        if byte == Self::NONE {
            Ok(Self::NoFault)
        } else if byte == Self::OVERTEMP {
            Ok(Self::OverTemp)
        } else if byte == Self::UNDERVOLTAGE {
            Ok(Self::UnderVoltage)
        } else {
            Err(PowerParseError::UnknownFault(byte))
        }
    }

    /// The display name of this fault.
    pub fn as_str(&self) -> (r: &'static str)
        ensures
            r@ == fault_label(*self),
    {
        match self {
            Self::NoFault => "None",
            Self::OverTemp => "OverTemp",
            Self::UnderVoltage => "UnderVoltage",
        }
    }

    /// The display name of this fault, as an owned string.
    pub fn to_string(&self) -> (r: String)
        ensures
            r@ == fault_label(*self),
    {
        String::from_str(self.as_str())
    }
}

/// Decoding the wire code of a mode or of a fault gives it back.
pub proof fn lemma_mode_fault_codes_roundtrip(mode: PowerMode, fault: Fault)
    ensures
        mode_from_code(mode_code(mode)) == Ok::<PowerMode, PowerParseError>(mode),
        fault_from_code(fault_code(fault)) == Ok::<Fault, PowerParseError>(fault),
{
}

/// A command for the power subsystem.
#[derive(Debug, Clone, Copy, PartialEq, Eq, Structural)]
pub enum PowerCommand {
    SetMode(PowerMode),
    ClearFault,
    InjectFault(Fault),
}

/// The two bytes of a command: its code, then its argument.
pub open spec fn command_bytes(command: PowerCommand) -> Seq<u8> {
    match command {
        PowerCommand::SetMode(mode) => seq![0u8, mode_code(mode)],
        PowerCommand::ClearFault => seq![1u8, 0u8],
        PowerCommand::InjectFault(fault) => seq![2u8, fault_code(fault)],
    }
}

/// The command held by `bytes`: exactly two bytes, a known command code and,
/// for the commands that take one, a known argument.
pub open spec fn command_from_bytes(bytes: Seq<u8>) -> Result<PowerCommand, PowerParseError> {
    if bytes.len() != 2 {
        Err(PowerParseError::InvalidLength { expected: 2, actual: bytes.len() as usize })
    } else if bytes[0] == 0 {
        match mode_from_code(bytes[1]) {
            Ok(mode) => Ok(PowerCommand::SetMode(mode)),
            Err(e) => Err(e),
        }
    } else if bytes[0] == 1 {
        Ok(PowerCommand::ClearFault)
    } else if bytes[0] == 2 {
        match fault_from_code(bytes[1]) {
            Ok(fault) => Ok(PowerCommand::InjectFault(fault)),
            Err(e) => Err(e),
        }
    } else {
        Err(PowerParseError::UnknownCommand(bytes[0]))
    }
}

/// Display text of a command.
pub open spec fn command_label(command: PowerCommand) -> Seq<char> {
    match command {
        PowerCommand::SetMode(mode) => "Set Mode: "@ + mode_label(mode),
        PowerCommand::ClearFault => "Clear Fault"@,
        PowerCommand::InjectFault(fault) => "Inject Fault: "@ + fault_label(fault),
    }
}

impl PowerCommand {
    pub const SIZE: usize = 2;
    pub const SET_MODE: u8 = 0;
    pub const CLEAR_FAULT: u8 = 1;
    pub const INJECT_FAULT: u8 = 2;

    /// The two bytes of this command.
    pub fn to_be_bytes(&self) -> (r: [u8; 2])
        ensures
            r@ == command_bytes(*self),
    {
        let r = match self {
            Self::SetMode(mode) => [Self::SET_MODE, mode.encode()],
            Self::ClearFault => [Self::CLEAR_FAULT, 0],
            Self::InjectFault(fault) => [Self::INJECT_FAULT, fault.encode()],
        };
        assert(r@ =~= command_bytes(*self));
        r
    }

    /// This command as the single data word that carries it.
    pub fn to_data_words(&self) -> (r: Vec<DataWord>)
        ensures
            r@ == seq![DataWord(be_value(command_bytes(*self)[0], command_bytes(*self)[1]))],
            words_bytes(r@) == command_bytes(*self),
    {
        let b = self.to_be_bytes();
        let word = DataWord(u16_from_be_bytes(b));
        proof {
            lemma_be_roundtrip(0, b@[0], b@[1]);
        }
        let mut r: Vec<DataWord> = Vec::new();
        r.push(word);
        assert(r@ =~= seq![DataWord(be_value(command_bytes(*self)[0], command_bytes(*self)[1]))]);
        assert(words_bytes(r@) =~= command_bytes(*self));
        r
    }

    /// Reads a command from exactly two bytes.
    pub fn from_be_bytes(bytes: &[u8]) -> (r: Result<Self, PowerParseError>)
        ensures
            r == command_from_bytes(bytes@),
    {
        if bytes.len() != Self::SIZE {
            return Err(PowerParseError::InvalidLength { expected: Self::SIZE, actual: bytes.len() });
        }
        if bytes[0] == Self::SET_MODE {
            match PowerMode::decode(bytes[1]) {
                Ok(mode) => Ok(Self::SetMode(mode)),
                Err(e) => Err(e),
            }
        } else if bytes[0] == Self::CLEAR_FAULT {
            Ok(Self::ClearFault)
        } else if bytes[0] == Self::INJECT_FAULT {
            match Fault::decode(bytes[1]) {
                Ok(fault) => Ok(Self::InjectFault(fault)),
                Err(e) => Err(e),
            }
        } else {
            Err(PowerParseError::UnknownCommand(bytes[0]))
        }
    }

    /// Reads a command from the bytes of the given data words.
    pub fn from_data_words(words: &[DataWord]) -> (r: Result<Self, PowerParseError>)
        requires
            2 * words@.len() <= usize::MAX,
        ensures
            r == command_from_bytes(words_bytes(words@)),
    {
        let bytes = words_to_bytes(words);
        Self::from_be_bytes(bytes.as_slice())
    }

    /// The display text of this command.
    pub fn to_string(&self) -> (r: String)
        ensures
            r@ == command_label(*self),
    {
        match self {
            Self::SetMode(mode) => {
                let mut s = String::from_str("Set Mode: ");
                s.append(mode.as_str());
                s
            },
            Self::ClearFault => String::from_str("Clear Fault"),
            Self::InjectFault(fault) => {
                let mut s = String::from_str("Inject Fault: ");
                s.append(fault.as_str());
                s
            },
        }
    }
}

/// Reading back the bytes of a command gives the command.
pub proof fn lemma_command_bytes_roundtrip(command: PowerCommand)
    ensures
        command_from_bytes(command_bytes(command)) == Ok::<PowerCommand, PowerParseError>(command),
{
}

/// Reading back the single data word that carries a command gives the command.
pub proof fn lemma_command_words_roundtrip(command: PowerCommand)
    ensures
        command_from_bytes(
            words_bytes(seq![DataWord(be_value(command_bytes(command)[0], command_bytes(command)[1]))]),
        ) == Ok::<PowerCommand, PowerParseError>(command),
{
    let b = command_bytes(command);
    let w = seq![DataWord(be_value(b[0], b[1]))];
    lemma_be_roundtrip(0, b[0], b[1]);
    assert(words_bytes(w) =~= b);
}

/// Telemetry reported by the power subsystem. The temperature in degrees
/// Celsius is a 32-bit float, held here as its IEEE-754 bit pattern.
#[derive(Debug, Clone, Copy, PartialEq, Eq, Structural)]
pub struct PowerTelemetry {
    pub mode: PowerMode,
    pub charge_percent: u8,
    pub temperature_bits: u32,
    pub fault: Fault,
}

/// The six bytes of a telemetry report: mode code in the high nibble and fault
/// code in the low nibble of the first byte, then the charge, then the
/// temperature big-endian.
pub open spec fn telemetry_bytes(t: PowerTelemetry) -> Seq<u8> {
    seq![(mode_code(t.mode) << 4u8) | fault_code(t.fault), t.charge_percent] + be_bytes32(
        t.temperature_bits,
    )
}

/// The telemetry held by `bytes`: exactly six bytes with known mode and fault
/// codes; an unknown mode is reported before an unknown fault.
pub open spec fn telemetry_from_bytes(bytes: Seq<u8>) -> Result<PowerTelemetry, PowerParseError> {
    if bytes.len() != 6 {
        Err(PowerParseError::InvalidLength { expected: 6, actual: bytes.len() as usize })
    } else {
        match mode_from_code((bytes[0] >> 4u8) & 0xfu8) {
            Err(e) => Err(e),
            Ok(mode) => match fault_from_code(bytes[0] & 0xfu8) {
                Err(e) => Err(e),
                Ok(fault) => Ok(
                    PowerTelemetry {
                        mode,
                        charge_percent: bytes[1],
                        temperature_bits: be_value32(bytes[2], bytes[3], bytes[4], bytes[5]),
                        fault,
                    },
                ),
            },
        }
    }
}

impl PowerTelemetry {
    pub const SIZE: usize = 6;

    /// The six bytes of this report.
    pub fn to_be_bytes(&self) -> (r: [u8; 6])
        ensures
            r@ == telemetry_bytes(*self),
    {
        let first_byte = (self.mode.encode() << 4u8) | self.fault.encode();
        let temp_bytes = u32_to_be_bytes(self.temperature_bits);
        let r = [
            first_byte,
            self.charge_percent,
            temp_bytes[0],
            temp_bytes[1],
            temp_bytes[2],
            temp_bytes[3],
        ];
        assert(r@ =~= telemetry_bytes(*self));
        r
    }

    /// This report as the three data words that carry its bytes.
    pub fn to_data_words(&self) -> (r: Vec<DataWord>)
        ensures
            r@ == bytes_words(telemetry_bytes(*self)),
            words_bytes(r@) == telemetry_bytes(*self),
    {
        let bytes = self.to_be_bytes();
        let r = words_from_bytes(&bytes);
        proof {
            lemma_bytes_words_roundtrip_six(telemetry_bytes(*self));
        }
        r
    }

    /// Reads a report from exactly six bytes.
    pub fn from_be_bytes(bytes: &[u8]) -> (r: Result<Self, PowerParseError>)
        ensures
            r == telemetry_from_bytes(bytes@),
    {
        if bytes.len() != Self::SIZE {
            return Err(PowerParseError::InvalidLength { expected: Self::SIZE, actual: bytes.len() });
        }
        let mode = match PowerMode::decode((bytes[0] >> 4u8) & 0b1111) {
            Ok(mode) => mode,
            Err(e) => return Err(e),
        };
        let charge_percent = bytes[1];
        let temperature_bits = u32_from_be_bytes(bytes[2], bytes[3], bytes[4], bytes[5]);
        let fault = match Fault::decode(bytes[0] & 0b1111) {
            Ok(fault) => fault,
            Err(e) => return Err(e),
        };
        Ok(Self { mode, charge_percent, temperature_bits, fault })
    }

    /// Reads a report from the bytes of the given data words.
    pub fn from_data_words(words: &[DataWord]) -> (r: Result<Self, PowerParseError>)
        requires
            2 * words@.len() <= usize::MAX,
        ensures
            r == telemetry_from_bytes(words_bytes(words@)),
    {
        let bytes = words_to_bytes(words);
        Self::from_be_bytes(bytes.as_slice())
    }
}

/// Why a telemetry report read from the leading bytes of a longer buffer
/// could not be read: its mode code or its fault code is not known.
#[derive(Debug, Clone, Copy, PartialEq, Eq, Structural)]
pub enum PowerTelemetryError {
    UnknownMode(u8),
    UnknownFault(u8),
}

/// The report held by the first six bytes of `bytes` (later bytes are not
/// read): an unknown mode code is reported before an unknown fault code.
pub open spec fn telemetry_from_leading_bytes(bytes: Seq<u8>) -> Result<
    PowerTelemetry,
    PowerTelemetryError,
> {
    let mode_code = (bytes[0] >> 4u8) & 0xfu8;
    let fault_code = bytes[0] & 0xfu8;
    match mode_from_code(mode_code) {
        Err(_) => Err(PowerTelemetryError::UnknownMode(mode_code)),
        Ok(mode) => match fault_from_code(fault_code) {
            Err(_) => Err(PowerTelemetryError::UnknownFault(fault_code)),
            Ok(fault) => Ok(
                PowerTelemetry {
                    mode,
                    charge_percent: bytes[1],
                    temperature_bits: be_value32(bytes[2], bytes[3], bytes[4], bytes[5]),
                    fault,
                },
            ),
        },
    }
}

/// Reading the leading six bytes of a buffer gives what the six-byte reading
/// gives on those six bytes, with its unknown-mode and unknown-fault errors.
pub proof fn lemma_leading_bytes_agree(bytes: Seq<u8>)
    requires
        bytes.len() >= 6,
    ensures
        telemetry_from_bytes(bytes.take(6)) matches Ok(t) ==> telemetry_from_leading_bytes(bytes)
            == Ok::<PowerTelemetry, PowerTelemetryError>(t),
        telemetry_from_bytes(bytes.take(6)) matches Err(PowerParseError::UnknownMode(b))
            ==> telemetry_from_leading_bytes(bytes) == Err::<PowerTelemetry, PowerTelemetryError>(
            PowerTelemetryError::UnknownMode(b),
        ),
        telemetry_from_bytes(bytes.take(6)) matches Err(PowerParseError::UnknownFault(b))
            ==> telemetry_from_leading_bytes(bytes) == Err::<PowerTelemetry, PowerTelemetryError>(
            PowerTelemetryError::UnknownFault(b),
        ),
        telemetry_from_bytes(bytes.take(6)) is Ok || telemetry_from_bytes(bytes.take(6)) matches Err(
            PowerParseError::UnknownMode(_),
        ) || telemetry_from_bytes(bytes.take(6)) matches Err(PowerParseError::UnknownFault(_)),
{
    let six = bytes.take(6);
    assert(six.len() == 6);
    assert(six[0] == bytes[0] && six[1] == bytes[1] && six[2] == bytes[2] && six[3] == bytes[3]
        && six[4] == bytes[4] && six[5] == bytes[5]);
}

impl PowerTelemetry {
    /// Reads a report from the first six bytes of `bytes`, which may hold
    /// more; only an unknown mode or fault code is refused.
    pub fn from_leading_bytes(bytes: &[u8]) -> (r: Result<Self, PowerTelemetryError>)
        requires
            bytes@.len() >= 6,
        ensures
            r == telemetry_from_leading_bytes(bytes@),
            telemetry_from_bytes(bytes@.take(6)) matches Ok(t) ==> r
                == Ok::<PowerTelemetry, PowerTelemetryError>(t),
            telemetry_from_bytes(bytes@.take(6)) matches Err(PowerParseError::UnknownMode(b)) ==> r
                == Err::<PowerTelemetry, PowerTelemetryError>(PowerTelemetryError::UnknownMode(b)),
            telemetry_from_bytes(bytes@.take(6)) matches Err(PowerParseError::UnknownFault(b)) ==> r
                == Err::<PowerTelemetry, PowerTelemetryError>(PowerTelemetryError::UnknownFault(b)),
    {
        proof {
            lemma_leading_bytes_agree(bytes@);
        }
        let mode_code = (bytes[0] >> 4u8) & 0b1111;
        let mode = match PowerMode::decode(mode_code) {
            Ok(mode) => mode,
            Err(_) => return Err(PowerTelemetryError::UnknownMode(mode_code)),
        };
        let charge_percent = bytes[1];
        let temperature_bits = u32_from_be_bytes(bytes[2], bytes[3], bytes[4], bytes[5]);
        let fault_code = bytes[0] & 0b1111;
        let fault = match Fault::decode(fault_code) {
            Ok(fault) => fault,
            Err(_) => return Err(PowerTelemetryError::UnknownFault(fault_code)),
        };
        Ok(Self { mode, charge_percent, temperature_bits, fault })
    }

    /// Reads a report from the bytes of the given data words; at least three
    /// words are needed, and words after the third are not read.
    pub fn from_leading_words(words: &[DataWord]) -> (r: Result<Self, PowerTelemetryError>)
        requires
            words@.len() >= 3,
            2 * words@.len() <= usize::MAX,
        ensures
            r == telemetry_from_leading_bytes(words_bytes(words@)),
    {
        let bytes = words_to_bytes(words);
        Self::from_leading_bytes(bytes.as_slice())
    }
}

proof fn lemma_bytes_words_roundtrip_six(bytes: Seq<u8>)
    requires
        bytes.len() == 6,
    ensures
        words_bytes(bytes_words(bytes)) == bytes,
{
    crate::protocol::message::lemma_bytes_words_roundtrip(bytes);
}

/// Reading back the bytes of a telemetry report gives the report.
pub proof fn lemma_telemetry_bytes_roundtrip(t: PowerTelemetry)
    ensures
        telemetry_from_bytes(telemetry_bytes(t)) == Ok::<PowerTelemetry, PowerParseError>(t),
{
    let m = mode_code(t.mode);
    let f = fault_code(t.fault);
    assert(((m << 4u8) | f) >> 4u8 & 0xfu8 == m && ((m << 4u8) | f) & 0xfu8 == f) by (bit_vector)
        requires
            m < 3,
            f < 3,
    ;
    let b = telemetry_bytes(t);
    lemma_be32_roundtrip(t.temperature_bits, 0, 0, 0, 0);
    assert(b[2] == be_bytes32(t.temperature_bits)[0]);
    assert(b[3] == be_bytes32(t.temperature_bits)[1]);
    assert(b[4] == be_bytes32(t.temperature_bits)[2]);
    assert(b[5] == be_bytes32(t.temperature_bits)[3]);
}

/// Reading back the data words that carry a telemetry report gives the report.
pub proof fn lemma_telemetry_words_roundtrip(t: PowerTelemetry)
    ensures
        telemetry_from_bytes(words_bytes(bytes_words(telemetry_bytes(t))))
            == Ok::<PowerTelemetry, PowerParseError>(t),
{
    lemma_bytes_words_roundtrip_six(telemetry_bytes(t));
    lemma_telemetry_bytes_roundtrip(t);
}

/// The mode and fault of the simulated power subsystem. Its charge and
/// temperature are floating-point quantities kept by the caller, which hands
/// in what the rules below read of them.
#[derive(Debug, Clone, Copy, PartialEq, Eq, Structural)]
pub struct Power {
    pub mode: PowerMode,
    pub fault: Fault,
}

/// A faulted power subsystem is idle.
pub open spec fn power_consistent(p: Power) -> bool {
    p.fault != Fault::NoFault ==> p.mode == PowerMode::Idle
}

/// The mode and fault after a command: a mode change is refused while a
/// fault is present, clearing leaves the mode as it is, and an injected fault
/// also stops the subsystem.
pub open spec fn after_command(p: Power, command: PowerCommand) -> Power {
    match command {
        PowerCommand::SetMode(mode) => if p.fault == Fault::NoFault {
            Power { mode, ..p }
        } else {
            p
        },
        PowerCommand::ClearFault => Power { fault: Fault::NoFault, ..p },
        PowerCommand::InjectFault(fault) => Power { mode: PowerMode::Idle, fault },
    }
}

/// The mode and fault after a simulation step, given whether the temperature
/// went over its limit and whether the charge went under its limit: too hot
/// raises an over-temperature fault, too little charge while not charging
/// raises an under-voltage fault (which wins if both apply), and any fault
/// stops the subsystem.
pub open spec fn after_update(p: Power, over_temp: bool, low_charge: bool) -> Power {
    let fault = if low_charge && p.mode != PowerMode::Charging {
        Fault::UnderVoltage
    } else if over_temp {
        Fault::OverTemp
    } else {
        p.fault
    };
    Power {
        mode: if fault != Fault::NoFault {
            PowerMode::Idle
        } else {
            p.mode
        },
        fault,
    }
}

/// The fault rules of a simulation step. Low charge while not charging
/// always ends in an under-voltage fault with the subsystem idle, whatever
/// the mode and fault before. Otherwise too high a temperature ends in an
/// over-temperature fault with the subsystem idle. When neither applies the
/// fault stays as it was, and the mode stays too unless a fault is present,
/// in which case the subsystem is idle.
pub proof fn lemma_update_fault_rules(p: Power, over_temp: bool, low_charge: bool)
    ensures
        low_charge && p.mode != PowerMode::Charging ==> after_update(p, over_temp, low_charge)
            == (Power { mode: PowerMode::Idle, fault: Fault::UnderVoltage }),
        over_temp && !(low_charge && p.mode != PowerMode::Charging) ==> after_update(
            p,
            over_temp,
            low_charge,
        ) == (Power { mode: PowerMode::Idle, fault: Fault::OverTemp }),
        !over_temp && !(low_charge && p.mode != PowerMode::Charging) ==> {
            &&& after_update(p, over_temp, low_charge).fault == p.fault
            &&& p.fault == Fault::NoFault ==> after_update(p, over_temp, low_charge).mode == p.mode
            &&& p.fault != Fault::NoFault ==> after_update(p, over_temp, low_charge).mode
                == PowerMode::Idle
        },
        after_update(p, over_temp, low_charge).fault != Fault::NoFault ==> after_update(
            p,
            over_temp,
            low_charge,
        ).mode == PowerMode::Idle,
{
}

/// What each command does, whatever the state before: clearing the fault
/// always leaves no fault and the mode as it was; setting a mode takes
/// effect only when no fault is present and otherwise changes nothing;
/// injecting a fault sets that fault and stops the subsystem.
pub proof fn lemma_command_effects(p: Power, mode: PowerMode, fault: Fault)
    ensures
        after_command(p, PowerCommand::ClearFault) == (Power { mode: p.mode, fault: Fault::NoFault }),
        p.fault == Fault::NoFault ==> after_command(p, PowerCommand::SetMode(mode)) == (Power {
            mode,
            fault: Fault::NoFault,
        }),
        p.fault != Fault::NoFault ==> after_command(p, PowerCommand::SetMode(mode)) == p,
        after_command(p, PowerCommand::InjectFault(fault)) == (Power { mode: PowerMode::Idle, fault }),
{
}

/// A receive command to subaddress 5 whose single data word is 0x0100
/// clears the fault of the power terminal, whatever it was, and leaves its
/// mode; the terminal answers with its status word alone.
pub proof fn lemma_clear_fault_message(
    p: Power,
    status_word: StatusWord,
    cmd: CommandMessage,
    charge_percent: u8,
    temperature_bits: u32,
)
    requires
        cmd.word.subaddr.address == 5,
        cmd.word.subaddr.tr == TxRx::R,
        cmd.data@ == seq![DataWord(0x0100)],
    ensures
        command_response(p, status_word, cmd, charge_percent, temperature_bits) == (
            Power { mode: p.mode, fault: Fault::NoFault },
            Seq::<DataWord>::empty(),
        ),
{
    lemma_be_roundtrip(0x0100, 0, 0);
    assert((0x0100u16 >> 8u16) as u8 == 1u8 && (0x0100u16 & 0xffu16) as u8 == 0u8) by (bit_vector);
    assert(words_bytes(cmd.data@) =~= seq![1u8, 0u8]);
}

impl Power {
    /// Applies a command to the mode and fault.
    pub fn handle_command(&mut self, command: PowerCommand)
        ensures
            *final(self) == after_command(*old(self), command),
            power_consistent(*old(self)) ==> power_consistent(*final(self)),
    {
        match command {
            PowerCommand::SetMode(mode) => {
                if matches!(self.fault, Fault::NoFault) {
                    self.mode = mode;
                }
            },
            PowerCommand::ClearFault => {
                self.fault = Fault::NoFault;
            },
            PowerCommand::InjectFault(fault) => {
                self.fault = fault;
                self.mode = PowerMode::Idle;
            },
        }
    }

    /// Applies the fault rules of one simulation step: `over_temp` tells
    /// whether the temperature exceeds its limit, `low_charge` whether the
    /// charge is under its limit.
    pub fn update(&mut self, over_temp: bool, low_charge: bool)
        ensures
            *final(self) == after_update(*old(self), over_temp, low_charge),
            power_consistent(*final(self)),
    {
        if over_temp {
            self.fault = Fault::OverTemp;
        }
        if low_charge && !matches!(self.mode, PowerMode::Charging) {
            self.fault = Fault::UnderVoltage;
        }
        if !matches!(self.fault, Fault::NoFault) {
            self.mode = PowerMode::Idle;
        }
    }

    /// The telemetry report for the current mode and fault with the given
    /// charge (already reduced to a whole percent) and temperature bits.
    pub fn telemetry(&self, charge_percent: u8, temperature_bits: u32) -> (r: PowerTelemetry)
        ensures
            r == (PowerTelemetry {
                mode: self.mode,
                charge_percent,
                temperature_bits,
                fault: self.fault,
            }),
    {
        PowerTelemetry { mode: self.mode, charge_percent, temperature_bits, fault: self.fault }
    }
}

/// The response of the power terminal to a command message, and its state
/// afterwards.
pub open spec fn command_response(
    p: Power,
    status_word: StatusWord,
    cmd: CommandMessage,
    charge_percent: u8,
    temperature_bits: u32,
) -> (Power, Seq<DataWord>) {
    let sa = cmd.word.subaddr;
    if sa.address == 5 && sa.tr == TxRx::R {
        match command_from_bytes(words_bytes(cmd.data@)) {
            Ok(c) => (after_command(p, c), Seq::empty()),
            Err(_) => (p, Seq::empty()),
        }
    } else if sa.address == 7 && sa.tr == TxRx::T {
        (
            p,
            bytes_words(
                telemetry_bytes(
                    PowerTelemetry { mode: p.mode, charge_percent, temperature_bits, fault: p.fault },
                ),
            ),
        )
    } else {
        (p, Seq::empty())
    }
}

/// Serves one command message at the power terminal: subaddress 5 receive
/// carries a power command, which is applied when it parses (a command that
/// does not parse is dropped); subaddress 7 transmit asks for telemetry;
/// anything else gets a bare status word.
pub fn process_command_message(
    power_state: &mut Power,
    status_word: StatusWord,
    cmd_msg: CommandMessage,
    charge_percent: u8,
    temperature_bits: u32,
) -> (r: StatusMessage)
    requires
        2 * cmd_msg.data@.len() <= usize::MAX,
    ensures
        r.word == status_word,
        (*final(power_state), r.data@) == command_response(
            *old(power_state),
            status_word,
            cmd_msg,
            charge_percent,
            temperature_bits,
        ),
{
    let address = cmd_msg.word.subaddr.address;
    let tr = cmd_msg.word.subaddr.tr;
    if address == 5 && matches!(tr, TxRx::R) {
        match PowerCommand::from_data_words(cmd_msg.data.as_slice()) {
            Ok(cmd) => power_state.handle_command(cmd),
            Err(_) => {},
        }
        StatusMessage::empty(status_word)
    } else if address == 7 && matches!(tr, TxRx::T) {
        let data = power_state.telemetry(charge_percent, temperature_bits).to_data_words();
        StatusMessage { word: status_word, data }
    } else {
        StatusMessage::empty(status_word)
    }
}

} // verus!
