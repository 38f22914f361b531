//! The decisions of a client session: when it ends, what it hands on of the
//! client's messages, and what becomes of a reply it sends.
use crate::duration::{duration_longer, duration_nanos, duration_secs, duration_subsec_nanos};
use crate::error::{PeerError, SerializationError};
use crate::proto::PeerRequest;
use std::io::Error as IoError;
use std::time::Duration;
use vstd::prelude::*;

verus! {

/// What polling a session's killswitch gave.
#[derive(Debug, Clone, Copy, PartialEq, Eq)]
pub enum KillswitchPoll {
    /// The server fired the killswitch.
    Fired,
    /// Nothing happened yet.
    Pending,
    /// The server dropped its end of the killswitch.
    Canceled,
}

/// Whether a session must end because of its killswitch: it was fired, or its
/// sending end is gone.
pub fn killswitch_activated(poll: KillswitchPoll) -> (activated: bool)
    ensures
        activated == (poll != KillswitchPoll::Pending),
{
    match poll {
        KillswitchPoll::Fired | KillswitchPoll::Canceled => true,
        KillswitchPoll::Pending => false,
    }
}

/// Whether a session has timed out: the idleness check is due (`tick`) and
/// the session has been idle for longer than its timeout.
pub fn gc_timeout_expired(tick: bool, idle: Duration, timeout: Duration) -> (expired: bool)
    ensures
        expired == (tick && duration_nanos(idle) > duration_nanos(timeout)),
        expired == (tick && (duration_secs(idle) > duration_secs(timeout) || (duration_secs(
            idle,
        ) == duration_secs(timeout) && duration_subsec_nanos(idle) > duration_subsec_nanos(
            timeout,
        )))),
{
    if tick {
        duration_longer(&idle, &timeout)
    } else {
        false
    }
}

/// Whether a session ends before its socket is read: its killswitch was
/// fired or dropped, or else its idleness check is due and it has been idle
/// longer than its timeout. The killswitch is looked at first: when it ends
/// the session, the idleness check is not consulted (`tick` is then false).
pub fn ends_before_socket(
    killswitch: KillswitchPoll,
    tick: bool,
    idle: Duration,
    timeout: Duration,
) -> (end: bool)
    ensures
        end == (killswitch != KillswitchPoll::Pending || (tick && duration_nanos(idle)
            > duration_nanos(timeout))),
        end == (killswitch != KillswitchPoll::Pending || (tick && (duration_secs(idle)
            > duration_secs(timeout) || (duration_secs(idle) == duration_secs(timeout)
            && duration_subsec_nanos(idle) > duration_subsec_nanos(timeout))))),
{
    killswitch_activated(killswitch) || gc_timeout_expired(tick, idle, timeout)
}

/// What polling a session's socket gave.
#[derive(Debug)]
pub enum SocketPoll {
    /// A message arrived; this is what decoding it gave.
    Received(Result<PeerRequest, SerializationError>),
    /// The socket stream ended.
    Ended,
    /// No message is waiting.
    NotReady,
}

/// What the session's stream yields: a message or its end, or nothing yet.
#[derive(Debug, Clone, PartialEq)]
pub enum PeerPoll {
    Ready(Option<PeerRequest>),
    NotReady,
}

/// What a session does with what its socket gave: what its stream yields, and
/// whether the session was active (so its idleness starts anew).
#[derive(Debug)]
pub struct PollStep {
    pub result: Result<PeerPoll, PeerError>,
    pub refresh: bool,
}

/// What a session hands on of a message from its client: `CloseConnection`
/// ends the session, anything else is passed on as it came.
pub open spec fn delivered(message: PeerRequest) -> Option<PeerRequest> {
    match message {
        PeerRequest::CloseConnection => None,
        _ => Some(message),
    }
}

/// A session passes on every message of its client unchanged, except
/// `CloseConnection`, which alone ends it.
pub proof fn lemma_delivered_passes_messages_on(message: PeerRequest)
    ensures
        message != PeerRequest::CloseConnection ==> delivered(message) == Some(message),
        delivered(message) is None <==> message == PeerRequest::CloseConnection,
{
}

/// The step of a session for what its socket gave. A decoded message marks
/// the session active and is handed on as `delivered` says; a message that
/// cannot be decoded is a serialization error; the end of the socket ends
/// the session; with no message the session waits.
pub fn on_socket_poll(polled: SocketPoll) -> (step: PollStep)
    ensures
        match polled {
            SocketPoll::Received(Ok(message)) => {
                &&& step.refresh
                &&& step.result == Ok::<PeerPoll, PeerError>(PeerPoll::Ready(delivered(message)))
                &&& message != PeerRequest::CloseConnection ==> step.result == Ok::<
                    PeerPoll,
                    PeerError,
                >(PeerPoll::Ready(Some(message)))
                &&& message == PeerRequest::CloseConnection ==> step.result == Ok::<
                    PeerPoll,
                    PeerError,
                >(PeerPoll::Ready(None))
            },
            SocketPoll::Received(Err(e)) => !step.refresh && step.result == Err::<
                PeerPoll,
                PeerError,
            >(PeerError::Serialization(e)),
            SocketPoll::Ended => !step.refresh && step.result == Ok::<PeerPoll, PeerError>(
                PeerPoll::Ready(None),
            ),
            SocketPoll::NotReady => !step.refresh && step.result == Ok::<PeerPoll, PeerError>(
                PeerPoll::NotReady,
            ),
        },
{
    match polled {
        SocketPoll::Received(Ok(message)) => {
            let result = match message {
                PeerRequest::Request(..) | PeerRequest::Abort(_) | PeerRequest::KeepAlive => {
                    PeerPoll::Ready(Some(message))
                },
                PeerRequest::CloseConnection => PeerPoll::Ready(None),
            };
            PollStep { result: Ok(result), refresh: true }
        },
        SocketPoll::Received(Err(e)) => PollStep {
            result: Err(PeerError::from(e)),
            refresh: false,
        },
        SocketPoll::Ended => PollStep { result: Ok(PeerPoll::Ready(None)), refresh: false },
        SocketPoll::NotReady => PollStep { result: Ok(PeerPoll::NotReady), refresh: false },
    }
}

/// What handing an encoded reply to the socket gave.
#[derive(Debug)]
pub enum SendAttempt {
    /// The socket took the reply.
    Accepted,
    /// The socket's buffer is full; the reply was not taken.
    Full,
    /// The socket failed.
    Failed(IoError),
}

/// The outcome of sending a reply: taken, or refused as a buffer overflow
/// when the socket is full (the reply is dropped), or the socket's failure.
pub fn start_send_result(attempt: SendAttempt) -> (sent: Result<(), PeerError>)
    ensures
        match attempt {
            SendAttempt::Accepted => sent == Ok::<(), PeerError>(()),
            SendAttempt::Full => sent == Err::<(), PeerError>(PeerError::BufferOverflow),
            SendAttempt::Failed(e) => sent == Err::<(), PeerError>(PeerError::Io(e)),
        },
{
    match attempt {
        SendAttempt::Full => Err(PeerError::BufferOverflow),
        SendAttempt::Accepted => Ok(()),
        SendAttempt::Failed(err) => Err(PeerError::from(err)),
    }
}

} // verus!
