//! The wire-level message types services use once they have discovered
//! one another, and the codec interface a transport implements.  The
//! registry itself never frames messages; these types sit at its
//! boundary for the services built on it.

use vstd::prelude::*;
use crate::errors::Status;

verus! {

/// What a message carries.
#[derive(Debug, Clone, PartialEq, Eq, Structural)]
pub enum MessageType {
    Error,
    Request,
    Response,
    Event,
}

/// Detailed information about one communication, likely followed by the
/// body.  In the case of an error the body may be empty.
#[derive(Debug)]
pub struct Message {
    pub id: String,
    pub kind: MessageType,
    pub target: String,
    pub method: String,
    pub endpoint: String,
    pub error: String,
    /// The header values read from the socket.
    pub header: Vec<(String, String)>,
    pub body: Vec<u8>,
}

/// A message codec: pairs a reader and a writer over one wire format.
/// Implementations live with the transport, outside this crate.
pub trait Codec {
    /// The decodable message.
    type Read;

    /// The encodable message.
    type Write;

    fn close(&mut self) -> Result<(), Status>;

    fn string() -> &'static str;
}

/// Reads messages of one wire format.
pub trait Reader {
    /// The type that is decoded.
    type Item;

    /// The type of unrecoverable frame decoding errors.
    type Error;

    fn read_header(&self, m: Message, mt: MessageType) -> Result<(), Self::Error>;

    fn read_body(&mut self, src: &mut Vec<u8>) -> Result<Option<Self::Item>, Self::Error>;
}

/// Writes messages of one wire format.
pub trait Writer {
    /// The type that is encoded.
    type Item;

    /// The type of unrecoverable frame encoding errors.
    type Error;

    fn write(&mut self, item: Self::Item, dst: &mut Vec<u8>) -> Result<(), Self::Error>;
}

} // verus!
