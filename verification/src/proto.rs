//! The messages exchanged with clients, on the control socket and on each
//! client's dedicated socket.
use crate::error::{ControlReplyError, PeerReplyError};
use vstd::prelude::*;

verus! {

/// Id of client connection
pub type ConnId = usize;

/// Id of a specific message
pub type MessageId = usize;

/// A request on the control socket.
#[derive(Debug, Copy, Clone, PartialEq)]
pub enum ControlRequest {
    /// A client wants to connect
    CreateSocket,
}

/// The answer to a control request.
#[derive(Debug, PartialEq)]
pub enum ControlReply {
    /// A dedicated Pair socket was created for this client
    SocketCreated(Result<(ConnId, String), ControlReplyError>),
}

/// A message from a client on its dedicated socket.
#[derive(Debug, Clone, PartialEq)]
pub enum PeerRequest {
    /// A Request schedule message
    Request(MessageId, Option<Vec<u8>>),
    /// Abort processing previously scheduled message
    Abort(MessageId),
    /// Connection will be closed
    CloseConnection,
    /// KeepAlive ping
    KeepAlive,
}

/// A message to a client on its dedicated socket.
#[derive(Debug, PartialEq)]
pub enum PeerReply {
    /// A reponse to a previously scheduled Request
    Response(MessageId, Result<Option<Vec<u8>>, PeerReplyError>),
    /// KeepAlive ping
    KeepAlive,
}

impl Clone for ControlReply {
    fn clone(&self) -> (reply: ControlReply)
        ensures
            reply == *self,
    {
        match self {
            ControlReply::SocketCreated(Ok((connid, url))) => ControlReply::SocketCreated(
                Ok((*connid, url.clone())),
            ),
            ControlReply::SocketCreated(Err(e)) => ControlReply::SocketCreated(Err(e.clone())),
        }
    }
}

impl Clone for PeerReply {
    fn clone(&self) -> (reply: PeerReply)
        ensures
            reply.view() == self.view(),
    {
        match self {
            PeerReply::Response(msgid, Ok(Some(body))) => PeerReply::Response(
                *msgid,
                Ok(Some(body.clone())),
            ),
            PeerReply::Response(msgid, Ok(None)) => PeerReply::Response(*msgid, Ok(None)),
            PeerReply::Response(msgid, Err(e)) => PeerReply::Response(*msgid, Err(*e)),
            PeerReply::KeepAlive => PeerReply::KeepAlive,
        }
    }
}

/// A reply with its body taken as a sequence of bytes.
pub enum PeerReplyView {
    Response(MessageId, Result<Option<Seq<u8>>, PeerReplyError>),
    KeepAlive,
}

impl View for PeerReply {
    type V = PeerReplyView;

    open spec fn view(&self) -> PeerReplyView {
        match self {
            PeerReply::Response(msgid, Ok(Some(body))) => PeerReplyView::Response(
                *msgid,
                Ok(Some(body@)),
            ),
            PeerReply::Response(msgid, Ok(None)) => PeerReplyView::Response(*msgid, Ok(None)),
            PeerReply::Response(msgid, Err(e)) => PeerReplyView::Response(*msgid, Err(*e)),
            PeerReply::KeepAlive => PeerReplyView::KeepAlive,
        }
    }
}

} // verus!
