use nanomsg_multi_server::config::{default_client_socket_url, GcInterval, MainSocketUrl, SessionTimeout};
use nanomsg_multi_server::error::{ControlReplyError, NanoError, SerializationError, ServerError};
use nanomsg_multi_server::proto::{ControlReply, ControlRequest};
use nanomsg_multi_server::server::{
    control_action, get_ipc_socket_path, process_message, reply_to_undecodable, ControlAction,
    MultiServer, PermissionUpdate, Session, CHOWN_NO_CHANGE,
};
use std::time::Duration;

fn server() -> MultiServer<fn(usize) -> String> {
    MultiServer::new(
        MainSocketUrl::default(),
        SessionTimeout::default(),
        GcInterval::default(),
        default_client_socket_url as fn(usize) -> String,
    )
}

fn killswitch() -> futures::unsync::oneshot::Sender<()> {
    futures::unsync::oneshot::channel::<()>().0
}

#[test]
fn new_server_keeps_its_configuration() {
    let s = MultiServer::new(
        "ipc:///tmp/other.ipc".into(),
        Duration::from_secs(5).into(),
        Duration::from_secs(7).into(),
        default_client_socket_url,
    );
    assert_eq!(s.socket_url(), "ipc:///tmp/other.ipc");
    assert_eq!(Duration::from(s.session_timeout()), Duration::from_secs(5));
    assert_eq!(Duration::from(s.gc_interval()), Duration::from_secs(7));
    assert_eq!(s.socket_permissions(), (None, None, None));
}

#[test]
fn first_connection_id_is_one() {
    assert_eq!(server().next_connid(), 1);
}

#[test]
fn connection_ids_are_handed_out_in_sequence() {
    let mut s = server();
    for expected in 1..=5usize {
        let (connid, url) = s.next_pair_socket();
        assert_eq!(connid, expected);
        assert_eq!(url, format!("ipc:///tmp/nanoserver-client-{}.ipc", expected));
        s.register_connection(connid, killswitch());
    }
    assert_eq!(s.next_connid(), 6);
}

#[test]
fn next_id_follows_the_largest_registered_id() {
    let mut s = server();
    s.register_connection(10, killswitch());
    s.register_connection(3, killswitch());
    assert_eq!(s.next_connid(), 11);
}

#[test]
fn registering_an_id_again_replaces_it() {
    let mut s = server();
    s.register_connection(4, killswitch());
    s.register_connection(4, killswitch());
    assert_eq!(s.next_connid(), 5);
}

#[test]
fn socket_permissions_are_kept() {
    let mut s = server();
    s.set_socket_permissions(Some(1000), None, Some(0o644));
    assert_eq!(s.socket_permissions(), (Some(1000), None, Some(0o644)));
    assert_eq!(
        s.permission_update(),
        PermissionUpdate { owner: 1000, group: CHOWN_NO_CHANGE, mode: Some(0o644) }
    );
}

#[test]
fn unset_owner_and_group_are_left_unchanged() {
    let s = server();
    assert_eq!(
        s.permission_update(),
        PermissionUpdate { owner: u32::MAX, group: u32::MAX, mode: None }
    );
}

#[test]
fn ipc_socket_path_strips_the_marker() {
    assert_eq!(
        get_ipc_socket_path("ipc:///tmp/nanoserver-main.ipc"),
        Some("/tmp/nanoserver-main.ipc")
    );
    assert_eq!(get_ipc_socket_path("ipc://"), Some(""));
}

#[test]
fn non_ipc_urls_have_no_socket_path() {
    assert_eq!(get_ipc_socket_path("tcp://127.0.0.1:5555"), None);
    assert_eq!(get_ipc_socket_path("ipc:/"), None);
    assert_eq!(get_ipc_socket_path(""), None);
    assert_eq!(get_ipc_socket_path("IPC:///tmp/x"), None);
}

#[test]
fn client_socket_url_has_a_socket_path() {
    let url = default_client_socket_url(3);
    assert_eq!(get_ipc_socket_path(&url), Some("/tmp/nanoserver-client-3.ipc"));
}

#[test]
fn create_socket_asks_for_a_pair_socket() {
    assert_eq!(control_action(ControlRequest::CreateSocket), ControlAction::CreatePairSocket);
}

#[test]
fn created_session_is_announced_and_handed_on() {
    let session = Session::new(3, "ipc:///tmp/nanoserver-client-3.ipc".to_string(), ());
    let (reply, handed) = process_message(Ok(session));
    assert_eq!(
        reply,
        ControlReply::SocketCreated(Ok((3, "ipc:///tmp/nanoserver-client-3.ipc".to_string())))
    );
    let handed = handed.unwrap();
    assert_eq!(handed.connid, 3);
    assert_eq!(handed.socket_url, "ipc:///tmp/nanoserver-client-3.ipc");
}

#[test]
fn failed_creation_is_answered_with_the_error() {
    let error = ServerError::from(NanoError { code: 98, description: "Address in use".to_string() });
    let (reply, handed) = process_message::<()>(Err(error));
    assert_eq!(
        reply,
        ControlReply::SocketCreated(Err(ControlReplyError::Socket("Address in use".to_string())))
    );
    assert!(handed.is_none());
    let (reply, handed) = process_message::<()>(Err(ServerError::BufferOverflow));
    assert_eq!(reply, ControlReply::SocketCreated(Err(ControlReplyError::Internal)));
    assert!(handed.is_none());
}

#[test]
fn undecodable_control_message_is_a_peer_connection_failure() {
    let error = SerializationError::from(Box::new(bincode::ErrorKind::InvalidTagEncoding(7)));
    assert_eq!(
        reply_to_undecodable(error),
        ControlReply::SocketCreated(Err(ControlReplyError::PeerConnection))
    );
}

#[test]
fn control_reply_clone_is_equal() {
    let reply = ControlReply::SocketCreated(Ok((9, "ipc:///tmp/x.ipc".to_string())));
    assert_eq!(reply.clone(), reply);
}

#[test]
fn committed_socket_is_registered_and_handed_on() {
    let mut s = server();
    let (connid, url) = s.next_pair_socket();
    let created = s.commit_pair_socket(connid, url, Ok(("conn", killswitch())));
    let session = created.unwrap();
    assert_eq!(session.connid, 1);
    assert_eq!(session.socket_url, "ipc:///tmp/nanoserver-client-1.ipc");
    assert_eq!(session.connection, "conn");
    assert_eq!(s.next_connid(), 2);
}

#[test]
fn failed_socket_is_not_registered() {
    let mut s = server();
    let (connid, url) = s.next_pair_socket();
    let created = s.commit_pair_socket::<()>(connid, url, Err(ServerError::BufferOverflow));
    assert!(matches!(created, Err(ServerError::BufferOverflow)));
    assert_eq!(s.next_connid(), 1);
}

#[test]
fn last_id_is_registered_and_exhausts_the_ids() {
    let mut s = server();
    assert!(!s.connid_space_exhausted());
    let created =
        s.commit_pair_socket(usize::MAX, "x".to_string(), Ok(((), killswitch())));
    assert_eq!(created.unwrap().connid, usize::MAX);
    assert!(s.connid_space_exhausted());
}

#[test]
fn last_permission_setting_wins() {
    let mut s = server();
    s.set_socket_permissions(Some(1), Some(2), Some(0o600));
    s.register_connection(1, killswitch());
    s.set_socket_permissions(None, Some(5), None);
    s.register_connection(2, killswitch());
    assert_eq!(s.socket_permissions(), (None, Some(5), None));
}
