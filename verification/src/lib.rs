//! Client side of the UDP control protocol of a family of live video
//! production switchers.
//!
//! The switcher streams its state changes as tagged records inside the
//! payload of a small reliable-over-UDP framing. This library frames and
//! unframes the packets, decides what the session owes the switcher for each
//! packet it receives, and decodes the records into commands. It touches no
//! socket: the caller receives and sends the datagrams.

pub mod buffer;
pub mod command;
pub mod multiview;
pub mod packet;
pub mod parser;
pub mod session;
pub mod source;
pub mod systeminfo;
pub mod tally;
pub mod transition;
pub mod upstreamkeyer;

use crate::command::Command;
use vstd::prelude::*;

verus! {

/// `std::io::Error`, carried along as it comes.
#[verifier::external_type_specification]
#[verifier::external_body]
pub struct ExIoError(std::io::Error);

/// What can go wrong in a session.
#[derive(Debug)]
pub enum Error {
    /// The address given for the switcher is none.
    AddrParseError,
    /// The socket failed; the session is over.
    SocketError(std::io::Error),
    /// A packet runs past the end of its datagram.
    TruncatedPacket,
    /// A record of a payload gave no command.
    CommandError(command::Error),
}

impl From<std::io::Error> for Error {
    fn from(e: std::io::Error) -> (r: Error) {
        Error::SocketError(e)
    }
}

impl vstd::std_specs::convert::FromSpecImpl<std::io::Error> for Error {
    open spec fn obeys_from_spec() -> bool {
        true
    }

    open spec fn from_spec(e: std::io::Error) -> Error {
        Error::SocketError(e)
    }
}

impl From<command::Error> for Error {
    fn from(e: command::Error) -> (r: Error) {
        Error::CommandError(e)
    }
}

impl vstd::std_specs::convert::FromSpecImpl<command::Error> for Error {
    open spec fn obeys_from_spec() -> bool {
        true
    }

    open spec fn from_spec(e: command::Error) -> Error {
        Error::CommandError(e)
    }
}

/// What the session tells its consumer, in the order in which it happened.
#[derive(Debug)]
pub enum Message {
    /// The session is open.
    Connected,
    /// The session is over, and why.
    Disconnected(Error),
    /// Something received gave no command; the session goes on.
    ParsingFailed(Error),
    /// The switcher reported a state change.
    Command(Command),
}

} // verus!
