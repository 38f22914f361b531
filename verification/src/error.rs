//! The errors of the server and of its sessions, and what a peer is told of them.
use std::io::Error as IoError;
use vstd::prelude::*;

verus! {

/// `std::io::Error` travels through the library's errors untouched.
#[verifier::external_type_specification]
#[verifier::external_body]
pub struct ExIoError(std::io::Error);

/// `bincode::ErrorKind` travels through the library's errors untouched.
#[verifier::external_type_specification]
#[verifier::external_body]
pub struct ExBincodeErrorKind(bincode::ErrorKind);

/// A nanomsg socket error, as the server reads it: its errno code and the
/// description text that nanomsg gives for that code.
#[derive(Debug, Clone, PartialEq)]
pub struct NanoError {
    pub code: i32,
    pub description: String,
}

/// A message could not be encoded or decoded.
#[derive(Debug)]
pub struct SerializationError(bincode::ErrorKind);

impl View for SerializationError {
    type V = bincode::ErrorKind;

    closed spec fn view(&self) -> bincode::ErrorKind {
        self.0
    }
}

impl vstd::std_specs::convert::FromSpecImpl<Box<bincode::ErrorKind>> for SerializationError {
    open spec fn obeys_from_spec() -> bool {
        true
    }

    closed spec fn from_spec(v: Box<bincode::ErrorKind>) -> SerializationError {
        SerializationError(*v)
    }
}

impl From<Box<bincode::ErrorKind>> for SerializationError {
    fn from(source: Box<bincode::ErrorKind>) -> (e: SerializationError)
        ensures
            e@ == *source,
    {
        SerializationError(*source)
    }
}

/// Why the server failed to serve a control request.
#[derive(Debug)]
pub enum ServerError {
    SocketError(NanoError),
    Serialization(SerializationError),
    PeerConnection,
    BufferOverflow,
    IoError(IoError),
    Unknown,
}

impl vstd::std_specs::convert::FromSpecImpl<NanoError> for ServerError {
    open spec fn obeys_from_spec() -> bool {
        true
    }

    open spec fn from_spec(v: NanoError) -> ServerError {
        ServerError::SocketError(v)
    }
}

impl From<NanoError> for ServerError {
    fn from(source: NanoError) -> (e: ServerError)
        ensures
            e == ServerError::SocketError(source),
    {
        ServerError::SocketError(source)
    }
}

impl vstd::std_specs::convert::FromSpecImpl<PeerError> for ServerError {
    open spec fn obeys_from_spec() -> bool {
        true
    }

    open spec fn from_spec(v: PeerError) -> ServerError {
        ServerError::PeerConnection
    }
}

impl From<PeerError> for ServerError {
    fn from(_source: PeerError) -> (e: ServerError)
        ensures
            e == ServerError::PeerConnection,
    {
        ServerError::PeerConnection
    }
}

impl vstd::std_specs::convert::FromSpecImpl<SerializationError> for ServerError {
    open spec fn obeys_from_spec() -> bool {
        true
    }

    open spec fn from_spec(v: SerializationError) -> ServerError {
        ServerError::Serialization(v)
    }
}

impl From<SerializationError> for ServerError {
    fn from(source: SerializationError) -> (e: ServerError)
        ensures
            e == ServerError::Serialization(source),
    {
        ServerError::Serialization(source)
    }
}

impl vstd::std_specs::convert::FromSpecImpl<IoError> for ServerError {
    open spec fn obeys_from_spec() -> bool {
        true
    }

    open spec fn from_spec(v: IoError) -> ServerError {
        ServerError::IoError(v)
    }
}

impl From<IoError> for ServerError {
    fn from(source: IoError) -> (e: ServerError)
        ensures
            e == ServerError::IoError(source),
    {
        ServerError::IoError(source)
    }
}

impl vstd::std_specs::convert::FromSpecImpl<()> for ServerError {
    open spec fn obeys_from_spec() -> bool {
        true
    }

    open spec fn from_spec(v: ()) -> ServerError {
        ServerError::Unknown
    }
}

impl From<()> for ServerError {
    fn from(_source: ()) -> (e: ServerError)
        ensures
            e == ServerError::Unknown,
    {
        ServerError::Unknown
    }
}

/// Why a session with a peer failed.
#[derive(Debug)]
pub enum PeerError {
    Socket(NanoError),
    Io(IoError),
    BufferOverflow,
    Serialization(SerializationError),
    BadMessage,
    Unknown,
}

impl vstd::std_specs::convert::FromSpecImpl<NanoError> for PeerError {
    open spec fn obeys_from_spec() -> bool {
        true
    }

    open spec fn from_spec(v: NanoError) -> PeerError {
        PeerError::Socket(v)
    }
}

impl From<NanoError> for PeerError {
    fn from(source: NanoError) -> (e: PeerError)
        ensures
            e == PeerError::Socket(source),
    {
        PeerError::Socket(source)
    }
}

impl vstd::std_specs::convert::FromSpecImpl<SerializationError> for PeerError {
    open spec fn obeys_from_spec() -> bool {
        true
    }

    open spec fn from_spec(v: SerializationError) -> PeerError {
        PeerError::Serialization(v)
    }
}

impl From<SerializationError> for PeerError {
    fn from(source: SerializationError) -> (e: PeerError)
        ensures
            e == PeerError::Serialization(source),
    {
        PeerError::Serialization(source)
    }
}

impl vstd::std_specs::convert::FromSpecImpl<IoError> for PeerError {
    open spec fn obeys_from_spec() -> bool {
        true
    }

    open spec fn from_spec(v: IoError) -> PeerError {
        PeerError::Io(v)
    }
}

impl From<IoError> for PeerError {
    fn from(source: IoError) -> (e: PeerError)
        ensures
            e == PeerError::Io(source),
    {
        PeerError::Io(source)
    }
}

/// What a client is told when the server could not create its socket.
#[derive(Debug, PartialEq, PartialOrd, Hash)]
pub enum ControlReplyError {
    Socket(String),
    PeerConnection,
    Internal,
}

impl Clone for ControlReplyError {
    fn clone(&self) -> (e: ControlReplyError)
        ensures
            e == *self,
    {
        match self {
            ControlReplyError::Socket(description) => ControlReplyError::Socket(
                description.clone(),
            ),
            ControlReplyError::PeerConnection => ControlReplyError::PeerConnection,
            ControlReplyError::Internal => ControlReplyError::Internal,
        }
    }
}

/// The error a client is told of for a server error: a socket error with
/// its description, a serialization or peer failure as `PeerConnection`,
/// anything else as `Internal`.
pub open spec fn control_reply_error_of(e: ServerError) -> ControlReplyError {
    match e {
        ServerError::SocketError(nano) => ControlReplyError::Socket(nano.description),
        ServerError::Serialization(_) | ServerError::PeerConnection => {
            ControlReplyError::PeerConnection
        },
        ServerError::Unknown | ServerError::BufferOverflow | ServerError::IoError(_) => {
            ControlReplyError::Internal
        },
    }
}

/// What a client is told of each server error: a socket error, whatever its
/// code, as `Socket` with its description; a serialization or peer failure as
/// `PeerConnection`; a buffer overflow, an I/O error or an unknown error as
/// `Internal`.
pub proof fn lemma_control_reply_error_table(nano: NanoError, e: ServerError)
    ensures
        control_reply_error_of(ServerError::SocketError(nano)) == ControlReplyError::Socket(
            nano.description,
        ),
        e is Serialization || e is PeerConnection ==> control_reply_error_of(e)
            == ControlReplyError::PeerConnection,
        e is BufferOverflow || e is IoError || e is Unknown ==> control_reply_error_of(e)
            == ControlReplyError::Internal,
        control_reply_error_of(e) is Socket <==> e is SocketError,
{
}

/// What a peer is told of each session error: the error of the same name.
pub proof fn lemma_peer_reply_error_table(e: PeerError)
    ensures
        e is Unknown <==> peer_reply_error_of(e) == PeerReplyError::Unknown,
        e is Socket <==> peer_reply_error_of(e) == PeerReplyError::Socket,
        e is BufferOverflow <==> peer_reply_error_of(e) == PeerReplyError::BufferOverflow,
        e is Serialization <==> peer_reply_error_of(e) == PeerReplyError::Serialization,
        e is BadMessage <==> peer_reply_error_of(e) == PeerReplyError::BadMessage,
        e is Io <==> peer_reply_error_of(e) == PeerReplyError::Io,
{
}

impl vstd::std_specs::convert::FromSpecImpl<ServerError> for ControlReplyError {
    open spec fn obeys_from_spec() -> bool {
        true
    }

    open spec fn from_spec(v: ServerError) -> ControlReplyError {
        control_reply_error_of(v)
    }
}

impl From<ServerError> for ControlReplyError {
    fn from(source: ServerError) -> (e: ControlReplyError)
        ensures
            e == control_reply_error_of(source),
    {
        match source {
            ServerError::SocketError(nano_error) => ControlReplyError::Socket(
                nano_error.description,
            ),
            ServerError::Serialization(_) | ServerError::PeerConnection => {
                ControlReplyError::PeerConnection
            },
            ServerError::Unknown | ServerError::BufferOverflow | ServerError::IoError(_) => {
                ControlReplyError::Internal
            },
        }
    }
}

/// What a peer is told when its request failed.
#[derive(Debug, Clone, Copy, PartialEq, Eq, PartialOrd, Hash)]
pub enum PeerReplyError {
    Unknown,
    Socket,
    BufferOverflow,
    Serialization,
    BadMessage,
    Io,
}

/// The error a peer is told of for a session error: the variant of the same
/// name, without its details.
pub open spec fn peer_reply_error_of(e: PeerError) -> PeerReplyError {
    match e {
        PeerError::Unknown => PeerReplyError::Unknown,
        PeerError::Socket(_) => PeerReplyError::Socket,
        PeerError::BufferOverflow => PeerReplyError::BufferOverflow,
        PeerError::Serialization(_) => PeerReplyError::Serialization,
        PeerError::BadMessage => PeerReplyError::BadMessage,
        PeerError::Io(_) => PeerReplyError::Io,
    }
}

impl vstd::std_specs::convert::FromSpecImpl<PeerError> for PeerReplyError {
    open spec fn obeys_from_spec() -> bool {
        true
    }

    open spec fn from_spec(v: PeerError) -> PeerReplyError {
        peer_reply_error_of(v)
    }
}

impl From<PeerError> for PeerReplyError {
    fn from(source: PeerError) -> (e: PeerReplyError)
        ensures
            e == peer_reply_error_of(source),
    {
        match source {
            PeerError::Unknown => PeerReplyError::Unknown,
            PeerError::Socket(_) => PeerReplyError::Socket,
            PeerError::BufferOverflow => PeerReplyError::BufferOverflow,
            PeerError::Serialization(_) => PeerReplyError::Serialization,
            PeerError::BadMessage => PeerReplyError::BadMessage,
            PeerError::Io(_) => PeerReplyError::Io,
        }
    }
}

} // verus!
