//! Controller logic for a vending machine: a bank of stepper-motor
//! channels that share one step sequencer, and the turn-taking byte
//! protocol spoken with the front end.
pub mod motor;
pub mod session;
pub mod wire;

pub use motor::{Dir, Driver, DriverArray, Signal};
pub use session::{handle_msg, Inbound, Progress, ProtocolError, Session, Turn, TRIES};
pub use wire::{
    encode_server_msg, parse_client_msg, parse_server_msg, ClientMsg, ClientMsgType, Response,
    ServerMsg, ServerMsgType, WireError, RW,
};
