//! The control side of the server: the registry of client connections, the
//! allocation of their ids and socket URLs, and the answers to control requests.
use crate::config::{
    client_socket_url, lemma_client_socket_url_is_ipc, lemma_client_socket_urls_distinct,
    FileMode, GcInterval, Gid, MainSocketUrl, SessionTimeout, Uid,
};
use crate::consts::IPC_MARKER;
use crate::error::{control_reply_error_of, ControlReplyError, SerializationError, ServerError};
use crate::proto::{ConnId, ControlReply, ControlRequest};
use std::collections::HashMap;
use vstd::prelude::*;
use vstd::string::*;

verus! {

broadcast use vstd::std_specs::hash::group_hash_axioms;

/// The sending half of a one-shot futures channel: a session's killswitch.
#[verifier::external_type_specification]
#[verifier::external_body]
#[verifier::reject_recursive_types(T)]
pub struct ExOneshotSender<T>(futures::unsync::oneshot::Sender<T>);

/// Fires (or, when dropped, cancels) the killswitch of a session.
pub type KillswitchSender = futures::unsync::oneshot::Sender<()>;

/// The `chown` id that leaves the owner (or the group) as it is: `-1` as `u32`.
pub const CHOWN_NO_CHANGE: u32 = 0xffff_ffff;

/// An established client session: its id, the URL of its dedicated socket,
/// and the connection over that socket.
#[derive(Debug)]
pub struct Session<C> {
    pub connid: ConnId,
    pub socket_url: String,
    pub connection: C,
}

impl<C> Session<C> {
    pub fn new(connid: ConnId, socket_url: String, connection: C) -> (session: Session<C>)
        ensures
            session.connid == connid,
            session.socket_url == socket_url,
            session.connection == connection,
    {
        Session { connid, socket_url, connection }
    }
}

/// Whether `next` is the id the server hands to the next connection when
/// `ids` are taken: one more than the largest id taken, or 1 when none is.
pub open spec fn is_next_connid(ids: Set<ConnId>, next: int) -> bool {
    &&& 1 <= next <= usize::MAX
    &&& forall|k: ConnId| #[trigger] ids.contains(k) ==> k < next
    &&& (next == 1 || ids.contains((next - 1) as ConnId))
}

/// The next id is not taken by any connection.
pub proof fn lemma_next_connid_fresh(ids: Set<ConnId>, next: int)
    requires
        is_next_connid(ids, next),
    ensures
        forall|k: ConnId| #[trigger] ids.contains(k) ==> k != next,
{
}

/// The taken ids fix the next id: there is only one.
pub proof fn lemma_next_connid_unique(ids: Set<ConnId>, a: int, b: int)
    requires
        is_next_connid(ids, a),
        is_next_connid(ids, b),
    ensures
        a == b,
{
    if a != 1 {
        let k = (a - 1) as ConnId;
        assert(ids.contains(k));
        assert(k < b);
    }
    if b != 1 {
        let k = (b - 1) as ConnId;
        assert(ids.contains(k));
        assert(k < a);
    }
}

/// Once the next id is taken, the id after it is one more: from no
/// connection, ids are handed out as 1, 2, 3, ...
pub proof fn lemma_next_connid_after_register(ids: Set<ConnId>, next: ConnId)
    requires
        is_next_connid(ids, next as int),
        next < usize::MAX,
    ensures
        is_next_connid(ids.insert(next), next + 1),
{
    assert(ids.insert(next).contains(next));
}

/// With the default client URLs, the next connection's socket URL is used by
/// no registered connection.
pub proof fn lemma_next_client_url_unused(ids: Set<ConnId>, next: ConnId)
    requires
        is_next_connid(ids, next as int),
    ensures
        forall|k: ConnId| #[trigger] ids.contains(k) ==> client_socket_url(k as nat)
            != client_socket_url(next as nat),
{
    assert forall|k: ConnId| #[trigger] ids.contains(k) implies client_socket_url(k as nat)
        != client_socket_url(next as nat) by {
        lemma_client_socket_urls_distinct(k as nat, next as nat);
    }
}

/// The ids `1..=n`.
pub open spec fn ids_up_to(n: int) -> Set<ConnId> {
    Set::new(|i: ConnId| 1 <= i <= n)
}

/// Sessions are created with the ids 1, 2, 3, ... in turn: when the
/// registered ids are `1..k` and the next id (as `next_connid` gives it) is
/// registered, that id is `k` and the registered ids become `1..=k`.
pub proof fn lemma_pair_socket_sequence(
    before: Set<ConnId>,
    k: int,
    connid: ConnId,
    after: Set<ConnId>,
)
    requires
        k >= 1,
        before == ids_up_to(k - 1),
        is_next_connid(before, connid as int),
        after == before.insert(connid),
    ensures
        connid == k,
        after == ids_up_to(k),
{
    if k - 1 > usize::MAX {
        let top: ConnId = usize::MAX;
        assert(before.contains(top));
        assert(false);
    }
    if k > 1 {
        let prev = (k - 1) as ConnId;
        assert(before.contains(prev));
        assert(prev < connid);
    }
    assert(k <= usize::MAX);
    assert(is_next_connid(before, k)) by {
        if k > 1 {
            assert(before.contains((k - 1) as ConnId));
        }
    }
    lemma_next_connid_unique(before, connid as int, k);
    assert(after =~= ids_up_to(k));
}

/// With no connection, the first id is 1.
pub proof fn lemma_first_connid()
    ensures
        is_next_connid(Set::<ConnId>::empty(), 1),
{
}

/// The path of the socket file behind a nanomsg IPC URL: what follows
/// `ipc://`, or nothing when the URL is not an IPC URL.
pub open spec fn ipc_socket_path(url: Seq<char>) -> Option<Seq<char>> {
    if url.len() >= IPC_MARKER@.len() && url.subrange(0, IPC_MARKER@.len() as int)
        == IPC_MARKER@ {
        Some(url.subrange(IPC_MARKER@.len() as int, url.len() as int))
    } else {
        None
    }
}

/// Whatever follows `ipc://` is the socket file's path, and a URL that does
/// not start with `ipc://` has none.
pub proof fn lemma_ipc_socket_path_after_marker(rest: Seq<char>, url: Seq<char>)
    ensures
        ipc_socket_path(IPC_MARKER@ + rest) == Some(rest),
        !IPC_MARKER@.is_prefix_of(url) ==> ipc_socket_path(url) is None,
        ipc_socket_path(url) matches Some(p) ==> url == IPC_MARKER@ + p,
{
    let m = IPC_MARKER@;
    let u = m + rest;
    assert(u.subrange(0, m.len() as int) =~= m);
    assert(u.subrange(m.len() as int, u.len() as int) =~= rest);
    if ipc_socket_path(url) is Some {
        assert(url =~= m + url.subrange(m.len() as int, url.len() as int));
    }
    if !m.is_prefix_of(url) && url.len() >= m.len() {
        assert(url.subrange(0, m.len() as int) != m);
    }
}

/// The path of the socket file behind a nanomsg IPC URL.
pub fn get_ipc_socket_path(socket_url: &str) -> (path: Option<&str>)
    ensures
        path matches Some(p) ==> ipc_socket_path(socket_url@) == Some(p@),
        path is None ==> ipc_socket_path(socket_url@) is None,
        path matches Some(p) ==> socket_url@ == IPC_MARKER@ + p@,
        path is None <==> !IPC_MARKER@.is_prefix_of(socket_url@),
{
    proof {
        reveal_strlit("ipc://");
    }
    let marker_len = IPC_MARKER.unicode_len();
    let len = socket_url.unicode_len();
    if len < marker_len {
        return None;
    }
    let mut i: usize = 0;
    while i < marker_len
        invariant
            marker_len == IPC_MARKER@.len(),
            len == socket_url@.len(),
            marker_len <= len,
            i <= marker_len,
            forall|j: int| 0 <= j < i ==> socket_url@[j] == IPC_MARKER@[j],
        decreases marker_len - i,
    {
        if socket_url.get_char(i) != IPC_MARKER.get_char(i) {
            proof {
                assert(socket_url@.subrange(0, marker_len as int)[i as int] != IPC_MARKER@[i as int]);
            }
            return None;
        }
        i = i + 1;
    }
    proof {
        assert(socket_url@.subrange(0, marker_len as int) =~= IPC_MARKER@);
    }
    Some(socket_url.substring_char(marker_len, len))
}

/// What the server does for a control request.
#[derive(Debug, Clone, Copy, PartialEq, Eq)]
pub enum ControlAction {
    /// Create a dedicated pair socket for the client.
    CreatePairSocket,
}

/// What the server does for a control request: for `CreateSocket`, create a
/// dedicated pair socket.
pub fn control_action(message: ControlRequest) -> (action: ControlAction)
    ensures
        message == ControlRequest::CreateSocket ==> action == ControlAction::CreatePairSocket,
{
    match message {
        ControlRequest::CreateSocket => ControlAction::CreatePairSocket,
    }
}

/// The answer to a client whose socket creation ended with `created`: on
/// success the new session's id and URL, and the session itself to hand on;
/// on failure the error as a client is told of it, and no session.
pub fn process_message<C>(created: Result<Session<C>, ServerError>) -> (outcome: (
    ControlReply,
    Option<Session<C>>,
))
    ensures
        match created {
            Ok(session) => {
                &&& outcome.0 == ControlReply::SocketCreated(
                    Ok((session.connid, session.socket_url)),
                )
                &&& outcome.1 == Some(session)
            },
            Err(e) => {
                &&& outcome.0 == ControlReply::SocketCreated(Err(control_reply_error_of(e)))
                &&& outcome.1 is None
                &&& e matches ServerError::SocketError(nano) ==> outcome.0
                    == ControlReply::SocketCreated(
                    Err(ControlReplyError::Socket(nano.description)),
                )
            },
        },
{
    match created {
        Ok(session) => (
            ControlReply::SocketCreated(Ok((session.connid, session.socket_url.clone()))),
            Some(session),
        ),
        Err(e) => (ControlReply::SocketCreated(Err(ControlReplyError::from(e))), None),
    }
}

/// The answer to a control message that could not be decoded: the socket
/// was not created, and the client is told of a peer connection failure.
pub fn reply_to_undecodable(error: SerializationError) -> (reply: ControlReply)
    ensures
        reply == ControlReply::SocketCreated(Err(ControlReplyError::PeerConnection)),
{
    let error = ServerError::from(error);
    ControlReply::SocketCreated(Err(error.into()))
}

/// The socket file of a client socket URL: `/tmp/nanoserver-client-{id}.ipc`,
/// which is the URL without its `ipc://`.
pub proof fn lemma_client_socket_path(socket_id: nat)
    ensures
        ipc_socket_path(client_socket_url(socket_id)) == Some(
            client_socket_url(socket_id).subrange(
                IPC_MARKER@.len() as int,
                client_socket_url(socket_id).len() as int,
            ),
        ),
{
    lemma_client_socket_url_is_ipc(socket_id);
}

/// The ids that `chown` is called with, and the mode that the socket file is
/// given, if any.
#[derive(Debug, Clone, Copy, PartialEq)]
pub struct PermissionUpdate {
    pub owner: u32,
    pub group: u32,
    pub mode: Option<FileMode>,
}

/// The control side of the server.
pub struct MultiServer<CS> where CS: Fn(usize) -> String + 'static {
    socket_url: String,
    session_timeout: SessionTimeout,
    gc_interval: GcInterval,
    client_socket_url: CS,
    connections: HashMap<ConnId, KillswitchSender>,
    /// uid of the owner of all sockets
    /// will try to chown to this
    owner: Option<Uid>,
    /// gid of the owner of all sockets
    /// will try to chown to this
    group: Option<Gid>,
    /// file permissions of the sockets
    /// best to use octal to set, as in `0o644`
    mode: Option<FileMode>,
}

/// What one call on a server does to its socket permissions: sets them
/// (`set_socket_permissions`), or keeps them (every other call).
pub enum PermissionStep {
    Assign(Option<Uid>, Option<Gid>, Option<FileMode>),
    Keep,
}

/// The socket permissions after the steps `steps`, from a new server: those of
/// the last `Assign`, or none when nothing set them.
pub open spec fn permissions_after(steps: Seq<PermissionStep>) -> (
    Option<Uid>,
    Option<Gid>,
    Option<FileMode>,
)
    decreases steps.len(),
{
    if steps.len() == 0 {
        (None, None, None)
    } else {
        match steps.last() {
            PermissionStep::Assign(owner, group, mode) => (owner, group, mode),
            PermissionStep::Keep => permissions_after(steps.drop_last()),
        }
    }
}

/// Whether going from `before` to `after` is the step `step`, as the
/// contracts of the server's methods state it.
pub open spec fn permission_step_taken<CS>(
    before: MultiServer<CS>,
    after: MultiServer<CS>,
    step: PermissionStep,
) -> bool where CS: Fn(usize) -> String + 'static {
    match step {
        PermissionStep::Assign(owner, group, mode) => after.permissions() == (owner, group, mode),
        PermissionStep::Keep => after.permissions() == before.permissions(),
    }
}

/// The last call that sets the socket permissions wins: from a new server
/// (which has none), through any calls that each set or keep them, the
/// permissions are those of the last setting, or none.
pub proof fn lemma_last_permission_write_wins<CS>(
    states: Seq<MultiServer<CS>>,
    steps: Seq<PermissionStep>,
) where CS: Fn(usize) -> String + 'static
    requires
        states.len() == steps.len() + 1,
        states[0].permissions() == (None::<Uid>, None::<Gid>, None::<FileMode>),
        forall|i: int|
            0 <= i < steps.len() ==> #[trigger] permission_step_taken(
                states[i],
                states[i + 1],
                steps[i],
            ),
    ensures
        states.last().permissions() == permissions_after(steps),
    decreases steps.len(),
{
    if steps.len() > 0 {
        let n = steps.len() - 1;
        let shorter = states.drop_last();
        assert forall|i: int| 0 <= i < steps.drop_last().len() implies #[trigger] permission_step_taken(
            shorter[i],
            shorter[i + 1],
            steps.drop_last()[i],
        ) by {
            assert(permission_step_taken(states[i], states[i + 1], steps[i]));
        }
        lemma_last_permission_write_wins(shorter, steps.drop_last());
        assert(permission_step_taken(states[n], states[n + 1], steps[n]));
    }
}

impl<CS> MultiServer<CS> where CS: Fn(usize) -> String + 'static {
    /// The client URL function accepts every id.
    #[verifier::type_invariant]
    spec fn well_formed(self) -> bool {
        forall|i: usize| #[trigger] self.client_socket_url.requires((i,))
    }

    /// The URL of the main socket.
    pub closed spec fn main_url(&self) -> Seq<char> {
        self.socket_url@
    }

    pub closed spec fn timeout(&self) -> SessionTimeout {
        self.session_timeout
    }

    pub closed spec fn interval(&self) -> GcInterval {
        self.gc_interval
    }

    /// The function that gives the URL of a client's socket from its id.
    pub closed spec fn client_url_fn(&self) -> CS {
        self.client_socket_url
    }

    /// The registered connections, each with its killswitch.
    pub closed spec fn connections(&self) -> Map<ConnId, KillswitchSender> {
        self.connections@
    }

    /// The owner, group and mode that socket files are given.
    pub closed spec fn permissions(&self) -> (Option<Uid>, Option<Gid>, Option<FileMode>) {
        (self.owner, self.group, self.mode)
    }

    /// A server listening on `main_socket_url`, whose sessions time out after
    /// `session_timeout` of idleness, checked every `gc_interval`, and whose
    /// client sockets get their URLs from `client_socket_url`.
    pub fn new<'s>(
        main_socket_url: MainSocketUrl<'s>,
        session_timeout: SessionTimeout,
        gc_interval: GcInterval,
        client_socket_url: CS,
    ) -> (server: MultiServer<CS>)
        requires
            forall|i: usize| #[trigger] client_socket_url.requires((i,)),
        ensures
            server.main_url() == main_socket_url@,
            server.timeout() == session_timeout,
            server.interval() == gc_interval,
            server.client_url_fn() == client_socket_url,
            server.connections() == Map::<ConnId, KillswitchSender>::empty(),
            server.permissions() == (None::<Uid>, None::<Gid>, None::<FileMode>),
    {
        let main_url = main_socket_url;
        MultiServer {
            socket_url: main_url.as_ref().to_owned(),
            session_timeout,
            gc_interval,
            client_socket_url,
            connections: HashMap::new(),
            owner: None,
            group: None,
            mode: None,
        }
    }

    pub fn socket_permissions(&self) -> (perms: (Option<Uid>, Option<Gid>, Option<FileMode>))
        ensures
            perms == self.permissions(),
    {
        (self.owner, self.group, self.mode)
    }

    pub fn set_socket_permissions(
        &mut self,
        owner: Option<Uid>,
        group: Option<Gid>,
        mode: Option<FileMode>,
    )
        ensures
            final(self).permissions() == (owner, group, mode),
            final(self).main_url() == old(self).main_url(),
            final(self).timeout() == old(self).timeout(),
            final(self).interval() == old(self).interval(),
            final(self).client_url_fn() == old(self).client_url_fn(),
            final(self).connections() == old(self).connections(),
    {
        proof {
            use_type_invariant(&*self);
        }
        self.owner = owner;
        self.group = group;
        self.mode = mode;
    }

    /// What a socket file's ownership and mode are set to: the configured
    /// owner and group, `CHOWN_NO_CHANGE` for either that is not configured,
    /// and the configured mode, if any.
    pub fn permission_update(&self) -> (update: PermissionUpdate)
        ensures
            update.owner == (match self.permissions().0 {
                Some(uid) => uid,
                None => CHOWN_NO_CHANGE,
            }),
            update.group == (match self.permissions().1 {
                Some(gid) => gid,
                None => CHOWN_NO_CHANGE,
            }),
            update.mode == self.permissions().2,
    {
        PermissionUpdate {
            owner: self.owner.unwrap_or(CHOWN_NO_CHANGE),
            group: self.group.unwrap_or(CHOWN_NO_CHANGE),
            mode: self.mode,
        }
    }

    /// The id of the next connection: one more than the largest id taken, or 1
    /// when there is no connection.
    /// When `usize::MAX` is taken, no id follows it: the addition overflows.
    pub fn next_connid(&self) -> (connid: ConnId)
        requires
            !self.connections().dom().contains(usize::MAX),
        ensures
            is_next_connid(self.connections().dom(), connid as int),
    {
        let mut max: ConnId = 0;
        for k in it: self.connections.keys()
            invariant
                it.seq().unref().to_set() == self.connections@.dom(),
                forall|j: int| 0 <= j < it.index() ==> *it.seq()[j] <= max,
                max == 0 || self.connections@.dom().contains(max),
            ensures
                forall|k: ConnId| #[trigger] self.connections@.dom().contains(k) ==> k <= max,
                max == 0 || self.connections@.dom().contains(max),
        {
            proof {
                let keys = it.seq().unref();
                assert(keys[it.index() as int] == *k);
                assert(keys.to_set().contains(*k));
            }
            if *k > max {
                max = *k;
            }
        }
        max + 1
    }

    /// Whether the id `usize::MAX` is taken, so that no id follows it.
    pub fn connid_space_exhausted(&self) -> (exhausted: bool)
        ensures
            exhausted == self.connections().dom().contains(usize::MAX),
    {
        self.connections.contains_key(&usize::MAX)
    }

    /// The id and the socket URL of the next client connection: the id that
    /// `next_connid` gives, and the URL that the client URL function gives for it.
    pub fn next_pair_socket(&self) -> (target: (ConnId, String))
        requires
            !self.connections().dom().contains(usize::MAX),
        ensures
            is_next_connid(self.connections().dom(), target.0 as int),
            call_ensures(self.client_url_fn(), (target.0,), target.1),
    {
        proof {
            use_type_invariant(self);
        }
        let connid = self.next_connid();
        let client_url = (self.client_socket_url)(connid);
        (connid, client_url)
    }

    /// Registers the connection `connid` with its killswitch, replacing any
    /// connection registered under that id.
    pub fn register_connection(&mut self, connid: ConnId, killswitch: KillswitchSender)
        ensures
            final(self).connections() == old(self).connections().insert(connid, killswitch),
            final(self).main_url() == old(self).main_url(),
            final(self).timeout() == old(self).timeout(),
            final(self).interval() == old(self).interval(),
            final(self).client_url_fn() == old(self).client_url_fn(),
            final(self).permissions() == old(self).permissions(),
    {
        proof {
            use_type_invariant(&*self);
        }
        let mut connections = HashMap::new();
        std::mem::swap(&mut connections, &mut self.connections);
        connections.insert(connid, killswitch);
        self.connections = connections;
    }

    /// Finishes the creation of connection `connid` once its socket was opened
    /// (and its permissions set), or failed to be: on success the connection is
    /// registered with its killswitch and its session is handed back; on failure
    /// the error comes back and nothing is registered.
    pub fn commit_pair_socket<C>(
        &mut self,
        connid: ConnId,
        socket_url: String,
        opened: Result<(C, KillswitchSender), ServerError>,
    ) -> (created: Result<Session<C>, ServerError>)
        ensures
            match opened {
                Ok((connection, killswitch)) => {
                    &&& created == Ok::<Session<C>, ServerError>(
                        (Session { connid, socket_url, connection }),
                    )
                    &&& final(self).connections() == old(self).connections().insert(
                        connid,
                        killswitch,
                    )
                },
                Err(e) => {
                    &&& created == Err::<Session<C>, ServerError>(e)
                    &&& final(self).connections() == old(self).connections()
                },
            },
            final(self).main_url() == old(self).main_url(),
            final(self).timeout() == old(self).timeout(),
            final(self).interval() == old(self).interval(),
            final(self).client_url_fn() == old(self).client_url_fn(),
            final(self).permissions() == old(self).permissions(),
    {
        match opened {
            Ok((connection, killswitch)) => {
                self.register_connection(connid, killswitch);
                Ok(Session::new(connid, socket_url, connection))
            },
            Err(e) => Err(e),
        }
    }

    /// The URL of the main socket.
    pub fn socket_url(&self) -> (url: &str)
        ensures
            url@ == self.main_url(),
    {
        self.socket_url.as_str()
    }

    pub fn session_timeout(&self) -> (timeout: SessionTimeout)
        ensures
            timeout == self.timeout(),
    {
        self.session_timeout
    }

    pub fn gc_interval(&self) -> (interval: GcInterval)
        ensures
            interval == self.interval(),
    {
        self.gc_interval
    }
}

} // verus!
