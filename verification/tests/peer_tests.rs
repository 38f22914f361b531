use nanomsg_multi_server::error::{PeerError, SerializationError};
use nanomsg_multi_server::peer::{
    ends_before_socket, gc_timeout_expired, killswitch_activated, on_socket_poll, start_send_result, KillswitchPoll,
    PeerPoll, SendAttempt, SocketPoll,
};
use nanomsg_multi_server::proto::{PeerReply, PeerRequest};
use nanomsg_multi_server::error::PeerReplyError;
use std::io::{Error as IoError, ErrorKind};
use std::time::Duration;

#[test]
fn fired_or_dropped_killswitch_ends_the_session() {
    assert!(killswitch_activated(KillswitchPoll::Fired));
    assert!(killswitch_activated(KillswitchPoll::Canceled));
    assert!(!killswitch_activated(KillswitchPoll::Pending));
}

#[test]
fn session_times_out_only_when_idle_longer_than_timeout_at_a_check() {
    let timeout = Duration::from_secs(30);
    assert!(gc_timeout_expired(true, Duration::from_secs(31), timeout));
    assert!(gc_timeout_expired(true, Duration::new(30, 1), timeout));
    assert!(!gc_timeout_expired(true, Duration::from_secs(30), timeout));
    assert!(!gc_timeout_expired(true, Duration::new(29, 999_999_999), timeout));
    assert!(!gc_timeout_expired(false, Duration::from_secs(3600), timeout));
}

#[test]
fn sub_second_timeouts_compare_by_nanoseconds() {
    let timeout = Duration::from_millis(1500);
    assert!(gc_timeout_expired(true, Duration::from_millis(1501), timeout));
    assert!(!gc_timeout_expired(true, Duration::from_millis(1499), timeout));
    assert!(gc_timeout_expired(true, Duration::from_secs(2), timeout));
}

#[test]
fn requests_are_delivered_and_refresh_the_session() {
    let messages = vec![
        PeerRequest::Request(1, Some(vec![1, 2, 3])),
        PeerRequest::Request(2, None),
        PeerRequest::Abort(1),
        PeerRequest::KeepAlive,
    ];
    for message in messages {
        let step = on_socket_poll(SocketPoll::Received(Ok(message.clone())));
        assert!(step.refresh);
        assert_eq!(step.result.unwrap(), PeerPoll::Ready(Some(message)));
    }
}

#[test]
fn close_connection_ends_the_session() {
    let step = on_socket_poll(SocketPoll::Received(Ok(PeerRequest::CloseConnection)));
    assert!(step.refresh);
    assert_eq!(step.result.unwrap(), PeerPoll::Ready(None));
}

#[test]
fn undecodable_peer_message_is_a_serialization_error() {
    let e = SerializationError::from(Box::new(bincode::ErrorKind::SizeLimit));
    let step = on_socket_poll(SocketPoll::Received(Err(e)));
    assert!(!step.refresh);
    assert!(matches!(step.result, Err(PeerError::Serialization(_))));
}

#[test]
fn socket_end_and_silence() {
    let step = on_socket_poll(SocketPoll::Ended);
    assert!(!step.refresh);
    assert_eq!(step.result.unwrap(), PeerPoll::Ready(None));
    let step = on_socket_poll(SocketPoll::NotReady);
    assert!(!step.refresh);
    assert_eq!(step.result.unwrap(), PeerPoll::NotReady);
}

#[test]
fn full_socket_refuses_the_reply() {
    assert!(start_send_result(SendAttempt::Accepted).is_ok());
    assert!(matches!(start_send_result(SendAttempt::Full), Err(PeerError::BufferOverflow)));
    assert!(matches!(
        start_send_result(SendAttempt::Failed(IoError::new(ErrorKind::BrokenPipe, "x"))),
        Err(PeerError::Io(_))
    ));
}

#[test]
fn peer_reply_clone_is_equal() {
    let reply = PeerReply::Response(4, Ok(Some(vec![9, 8])));
    assert_eq!(reply.clone(), reply);
    let reply = PeerReply::Response(5, Err(PeerReplyError::BadMessage));
    assert_eq!(reply.clone(), reply);
    assert_eq!(PeerReply::KeepAlive.clone(), PeerReply::KeepAlive);
}

#[test]
fn session_ends_before_reading_on_killswitch_or_timeout() {
    let timeout = Duration::from_secs(30);
    let short = Duration::from_secs(1);
    let long = Duration::from_secs(31);
    assert!(ends_before_socket(KillswitchPoll::Fired, false, short, timeout));
    assert!(ends_before_socket(KillswitchPoll::Canceled, false, short, timeout));
    assert!(ends_before_socket(KillswitchPoll::Pending, true, long, timeout));
    assert!(!ends_before_socket(KillswitchPoll::Pending, true, short, timeout));
    assert!(!ends_before_socket(KillswitchPoll::Pending, false, long, timeout));
}
