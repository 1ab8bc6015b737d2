//! What passes between the protocol and the driver that owns the connection:
//! the protocol issues a command, the driver carries it out and reports how
//! it went.

use vstd::prelude::*;

verus! {

/// Something the driver is asked to do on the connection.
pub enum Command {
    /// Write the whole text, or fail.
    Write(String),
    /// Read one line, newline included, onto the end of this buffer.
    ReadLine(String),
    /// Close the write direction; the read direction stays open.
    ShutdownWrite,
}

/// A command as contracts see it: what it does on the connection.
pub enum Effect {
    /// The text was handed over for writing.
    Write(Seq<char>),
    /// One line was asked for.
    ReadLine,
    /// The write direction was closed.
    ShutdownWrite,
}

impl View for Command {
    type V = Effect;

    open spec fn view(&self) -> Effect {
        match *self {
            Command::Write(text) => Effect::Write(text@),
            Command::ReadLine(_) => Effect::ReadLine,
            Command::ShutdownWrite => Effect::ShutdownWrite,
        }
    }
}

/// How a command went, as the driver reports it.
pub enum Completion {
    /// A write ended: all of the text was accepted, or the write failed.
    Written(Result<(), std::io::Error>),
    /// A read ended: the buffer as the read left it, and whether it failed.
    Line(String, Result<(), std::io::Error>),
    /// The write direction was closed, or the attempt was made.
    ShutDown,
}

/// Where an operation stands after a step.
pub enum Progress<T> {
    /// The driver is to carry out this command and report back.
    Pending(Command),
    /// The operation is over, with this result.
    Ready(T),
}

} // verus!
