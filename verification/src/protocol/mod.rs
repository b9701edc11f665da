//! Wire formats: 16-bit command, status and data words, and messages made of
//! one command or status word followed by data words.

pub mod bytes;
pub mod support;
pub mod data_word;
pub mod protocol_word;
pub mod cmd_word;
pub mod status_word;
pub mod message;

pub use bytes::WORD_SIZE;
pub use cmd_word::{CmdWord, Subaddress, TxRx};
pub use data_word::DataWord;
pub use message::{CommandMessage, Message, StatusMessage, Transaction};
pub use protocol_word::ProtocolWord;
pub use status_word::StatusWord;
