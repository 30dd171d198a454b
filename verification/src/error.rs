//! Error taxonomy of the server.

use rust_mc_proto::ProtocolError;
use vstd::prelude::*;

verus! {

/// The transport crate's error type, carried through as an opaque value.
#[verifier::external_type_specification]
#[verifier::external_body]
pub struct ExProtocolError(ProtocolError);

/// The failure kinds that the transport layer reports, as plain values.
#[derive(Debug, Clone, Copy, PartialEq, Eq, Structural)]
pub enum ProtocolFault {
    /// An address could not be resolved.
    AddressParse,
    /// A buffer ended before the requested data.
    DataRanOut,
    /// Text was not valid UTF-8.
    StringParse,
    /// The stream could not be connected.
    StreamConnect,
    /// A variable-length integer did not fit its target type.
    VarInt,
    /// Reading from the stream failed.
    Read,
    /// Writing to the stream failed.
    Write,
    /// Compressing or inflating failed.
    Zlib,
    /// The stream handle could not be duplicated.
    Clone,
    /// The peer closed the stream in an orderly way.
    ConnectionClosed,
}

/// Everything that can end a connection or spoil a packet.
#[derive(Debug, Clone, PartialEq, Eq)]
pub enum ServerError {
    /// A packet id arrived that the current phase does not allow.
    UnexpectedPacket(u8),
    /// A packet or frame was structurally broken.
    WrongPacket,
    /// The transport layer failed.
    Protocol(ProtocolFault),
    /// The peer closed the connection; never reported as a fault.
    ConnectionClosed,
    /// A text component could not be serialised.
    SerTextComponent,
    /// A text component could not be parsed.
    DeTextComponent,
    /// A tagged binary value could not be serialised.
    SerNbt,
    /// A tagged binary value could not be parsed.
    DeNbt,
    /// An operation was attempted in a phase where its packet is not legal.
    UnexpectedState,
    /// A variable-length integer ran past five bytes.
    VarIntTooBig,
    /// A length-prefixed string did not hold valid UTF-8.
    MalformedString,
    /// Fewer bytes remained than a field needs.
    UnexpectedEof,
    /// Anything else, described in words.
    Other(String),
}

/// The kind of fault that a transport error stands for.
pub uninterp spec fn fault_kind(error: ProtocolError) -> ProtocolFault;

/// Tells the variants of `rust_mc_proto::ProtocolError` apart: each variant is
/// mapped to the `ProtocolFault` of the same meaning, and nothing else is done.
#[verifier::external_body]
fn classify(error: ProtocolError) -> (fault: ProtocolFault)
    ensures
        fault == fault_kind(error),
{
    match error {
        ProtocolError::AddressParseError => ProtocolFault::AddressParse,
        ProtocolError::DataRanOutError => ProtocolFault::DataRanOut,
        ProtocolError::StringParseError => ProtocolFault::StringParse,
        ProtocolError::StreamConnectError => ProtocolFault::StreamConnect,
        ProtocolError::VarIntError => ProtocolFault::VarInt,
        ProtocolError::ReadError => ProtocolFault::Read,
        ProtocolError::WriteError => ProtocolFault::Write,
        ProtocolError::ZlibError => ProtocolFault::Zlib,
        ProtocolError::CloneError => ProtocolFault::Clone,
        ProtocolError::ConnectionClosedError => ProtocolFault::ConnectionClosed,
    }
}

impl ServerError {
    /// The server error that a transport fault becomes: an orderly close is
    /// kept apart from every other fault, which is wrapped unchanged.
    pub open spec fn of_fault(fault: ProtocolFault) -> ServerError {
        match fault {
            ProtocolFault::ConnectionClosed => ServerError::ConnectionClosed,
            other => ServerError::Protocol(other),
        }
    }

    /// Converts a transport fault into a server error.
    pub fn from_fault(fault: ProtocolFault) -> (error: ServerError)
        ensures
            error == Self::of_fault(fault),
    {
        match fault {
            ProtocolFault::ConnectionClosed => ServerError::ConnectionClosed,
            other => ServerError::Protocol(other),
        }
    }

    /// Whether this error is the silent, orderly end of a connection.
    pub fn is_closed(&self) -> (closed: bool)
        ensures
            closed == (*self == ServerError::ConnectionClosed),
    {
        match self {
            ServerError::ConnectionClosed => true,
            _ => false,
        }
    }
}

impl From<ProtocolError> for ServerError {
    fn from(error: ProtocolError) -> (converted: ServerError)
    {
        ServerError::from_fault(classify(error))
    }
}

impl vstd::std_specs::convert::FromSpecImpl<ProtocolError> for ServerError {
    open spec fn obeys_from_spec() -> bool {
        true
    }

    open spec fn from_spec(error: ProtocolError) -> ServerError {
        ServerError::of_fault(fault_kind(error))
    }
}

} // verus!
