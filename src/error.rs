use vstd::prelude::*;

verus! {

/// Failures of the market-data connection and of message decoding.
#[derive(Debug)]
pub enum WebSocketError {
    /// The endpoint could not be parsed or the handshake failed.
    ConnectionError(String),
    /// A payload did not match its schema: message, line, column.
    MsgParsing(String, usize, usize),
    /// A text payload carried none of the known type tags.
    UnknownMsgType(String),
    /// A frame kind that this protocol does not handle (binary, close).
    UnimplementedFrame,
    /// A text payload whose type tag is known but whose decoding is not
    /// supported (session metadata): the payload.
    UnsupportedMsgType(String),
    Misc(String),
}

/// Failures while building the contract reference table.
#[derive(Debug)]
pub enum TableError {
    /// The contract list request failed: status code and body.
    ClientError(u16, String),
    /// A record carries a derivative type that has no variant: its tag.
    UnimplementedContractType(String),
    /// An options record has no strike price: its id.
    MissingStrikePrice(u64),
    /// An options record has no call/put flag: its id.
    MissingCallFlag(u64),
    /// A date field is not in the venue's datetime format: its id and the text.
    BadDate(u64, String),
}

/// Failures of the order subsystem.
#[derive(Debug)]
pub enum OrderError {
    /// The venue answered an order request with an error status: code and body.
    Rejected(u16, String),
    /// The request did not reach the venue or its answer could not be read.
    Transport(String),
}

} // verus!
