use nanomsg_multi_server::error::{
    ControlReplyError, NanoError, PeerError, PeerReplyError, SerializationError, ServerError,
};
use std::io::{Error as IoError, ErrorKind};

fn nano_error() -> NanoError {
    NanoError { code: 98, description: "Address in use".to_string() }
}

fn serialization_error() -> SerializationError {
    SerializationError::from(Box::new(bincode::ErrorKind::SizeLimit))
}

#[test]
fn socket_error_is_told_with_its_description() {
    let e = ControlReplyError::from(ServerError::from(nano_error()));
    assert_eq!(e, ControlReplyError::Socket("Address in use".to_string()));
}

#[test]
fn serialization_and_peer_errors_are_peer_connection_failures() {
    assert_eq!(
        ControlReplyError::from(ServerError::from(serialization_error())),
        ControlReplyError::PeerConnection
    );
    assert_eq!(
        ControlReplyError::from(ServerError::from(PeerError::BadMessage)),
        ControlReplyError::PeerConnection
    );
    assert_eq!(
        ControlReplyError::from(ServerError::PeerConnection),
        ControlReplyError::PeerConnection
    );
}

#[test]
fn other_server_errors_are_internal() {
    assert_eq!(ControlReplyError::from(ServerError::from(())), ControlReplyError::Internal);
    assert_eq!(ControlReplyError::from(ServerError::BufferOverflow), ControlReplyError::Internal);
    assert_eq!(
        ControlReplyError::from(ServerError::from(IoError::new(ErrorKind::Other, "disk"))),
        ControlReplyError::Internal
    );
}

#[test]
fn server_error_conversions_pick_their_variant() {
    assert!(matches!(ServerError::from(()), ServerError::Unknown));
    assert!(matches!(ServerError::from(PeerError::Unknown), ServerError::PeerConnection));
    assert!(matches!(ServerError::from(nano_error()), ServerError::SocketError(e) if e.code == 98));
    assert!(matches!(ServerError::from(serialization_error()), ServerError::Serialization(_)));
    assert!(matches!(
        ServerError::from(IoError::new(ErrorKind::Other, "x")),
        ServerError::IoError(_)
    ));
}

#[test]
fn peer_error_conversions_pick_their_variant() {
    assert!(matches!(PeerError::from(nano_error()), PeerError::Socket(_)));
    assert!(matches!(PeerError::from(serialization_error()), PeerError::Serialization(_)));
    assert!(matches!(
        PeerError::from(IoError::new(ErrorKind::Other, "x")),
        PeerError::Io(_)
    ));
}

#[test]
fn peer_errors_are_told_by_name() {
    assert_eq!(PeerReplyError::from(PeerError::Unknown), PeerReplyError::Unknown);
    assert_eq!(PeerReplyError::from(PeerError::from(nano_error())), PeerReplyError::Socket);
    assert_eq!(PeerReplyError::from(PeerError::BufferOverflow), PeerReplyError::BufferOverflow);
    assert_eq!(
        PeerReplyError::from(PeerError::from(serialization_error())),
        PeerReplyError::Serialization
    );
    assert_eq!(PeerReplyError::from(PeerError::BadMessage), PeerReplyError::BadMessage);
    assert_eq!(
        PeerReplyError::from(PeerError::from(IoError::new(ErrorKind::Other, "x"))),
        PeerReplyError::Io
    );
}

#[test]
fn control_reply_error_clone_keeps_description() {
    let e = ControlReplyError::Socket("boom".to_string());
    assert_eq!(e.clone(), e);
}
