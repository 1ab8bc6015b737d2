//! Transport protocol for the niri compositor's socket: a request and reply
//! exchange over newline-delimited JSON, and the event feed that follows a
//! subscription.
//!
//! The library performs no input or output. It decides what is to be written
//! and read next, and what the bytes that came back mean; a driver carries the
//! writes and reads out on a connection of its choice.

pub mod error;
pub mod events;
pub mod exchange;
pub mod protocol;
pub mod socket;
pub mod wire;

pub use error::NiriReplyError;
pub use events::EventStream;
pub use exchange::{Exchange, ExchangeState};
pub use protocol::{Command, Completion, Progress};
pub use socket::{socket_path, Socket, Subscribing, Subscription};
