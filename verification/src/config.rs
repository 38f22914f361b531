//! Configuration values of the server.
use crate::consts::{
    CLIENT_SOCKET_URL_PREFIX, CLIENT_SOCKET_URL_SUFFIX, DEFAULT_GC_INTERVAL,
    DEFAULT_SESSION_TIMEOUT, IPC_MARKER, MAIN_SOCKET_URL,
};
use crate::decimal::{
    decimal, decimal_value, lemma_decimal_injective, lemma_decimal_is_numeral, push_decimal,
};
use crate::duration::{duration_from_secs, duration_secs, duration_subsec_nanos};
use std::time::Duration;
use vstd::prelude::*;
use vstd::std_specs::convert::FromSpec;
use vstd::string::*;

verus! {

/// Owner of a socket file.
pub type Uid = libc::uid_t;

/// Group of a socket file.
pub type Gid = libc::gid_t;

/// Permission bits of a socket file.
pub type FileMode = u32;

/// The URL of the client socket of connection `socket_id`.
pub open spec fn client_socket_url(socket_id: nat) -> Seq<char> {
    CLIENT_SOCKET_URL_PREFIX@ + decimal(socket_id) + CLIENT_SOCKET_URL_SUFFIX@
}

/// The default URL of the dedicated socket of connection `socket_id`:
/// `ipc:///tmp/nanoserver-client-{socket_id}.ipc`.
pub fn default_client_socket_url(socket_id: usize) -> (url: String)
    ensures
        url@ == client_socket_url(socket_id as nat),
{
    let mut url = String::from_str(CLIENT_SOCKET_URL_PREFIX);
    push_decimal(&mut url, socket_id);
    url.append(CLIENT_SOCKET_URL_SUFFIX);
    url
}

/// Connections with different ids get different client socket URLs.
pub proof fn lemma_client_socket_urls_distinct(a: nat, b: nat)
    requires
        a != b,
    ensures
        client_socket_url(a) != client_socket_url(b),
{
    let p = CLIENT_SOCKET_URL_PREFIX@;
    let x = CLIENT_SOCKET_URL_SUFFIX@;
    let da = decimal(a);
    let db = decimal(b);
    if client_socket_url(a) == client_socket_url(b) {
        let ua = client_socket_url(a);
        let ub = client_socket_url(b);
        assert(ua.len() == p.len() + da.len() + x.len());
        assert(ub.len() == p.len() + db.len() + x.len());
        assert(da.len() == db.len());
        assert(ua.subrange(p.len() as int, (p.len() + da.len()) as int) =~= da);
        assert(ub.subrange(p.len() as int, (p.len() + db.len()) as int) =~= db);
        lemma_decimal_injective(a, b);
    }
}

/// The id in a client socket URL is written as its base-10 numeral: between
/// the prefix and the suffix stand only the digits `'0'..='9'`, with no
/// leading zero, and they read back as the id.
pub proof fn lemma_client_socket_url_digits(socket_id: nat)
    ensures
        ({
            let url = client_socket_url(socket_id);
            let start = CLIENT_SOCKET_URL_PREFIX@.len() as int;
            let end = url.len() - CLIENT_SOCKET_URL_SUFFIX@.len();
            let digits = url.subrange(start, end);
            &&& url.subrange(0, start) == CLIENT_SOCKET_URL_PREFIX@
            &&& url.subrange(end, url.len() as int) == CLIENT_SOCKET_URL_SUFFIX@
            &&& digits.len() >= 1
            &&& forall|i: int| 0 <= i < digits.len() ==> '0' <= #[trigger] digits[i] <= '9'
            &&& decimal_value(digits) == socket_id
            &&& (socket_id > 0 ==> digits[0] != '0')
        }),
{
    lemma_decimal_is_numeral(socket_id);
    let url = client_socket_url(socket_id);
    let p = CLIENT_SOCKET_URL_PREFIX@;
    let x = CLIENT_SOCKET_URL_SUFFIX@;
    let d = decimal(socket_id);
    assert(url.subrange(0, p.len() as int) =~= p);
    assert(url.subrange(url.len() - x.len(), url.len() as int) =~= x);
    assert(url.subrange(p.len() as int, url.len() - x.len()) =~= d);
}

/// Every client socket URL is a nanomsg IPC URL: `ipc://` followed by the
/// path `/tmp/nanoserver-client-{id}.ipc`.
pub proof fn lemma_client_socket_url_is_ipc(socket_id: nat)
    ensures
        client_socket_url(socket_id).len() >= IPC_MARKER@.len(),
        client_socket_url(socket_id).subrange(0, IPC_MARKER@.len() as int) == IPC_MARKER@,
        client_socket_url(socket_id).subrange(
            IPC_MARKER@.len() as int,
            client_socket_url(socket_id).len() as int,
        ) == CLIENT_SOCKET_URL_PREFIX@.subrange(
            IPC_MARKER@.len() as int,
            CLIENT_SOCKET_URL_PREFIX@.len() as int,
        ) + decimal(socket_id) + CLIENT_SOCKET_URL_SUFFIX@,
{
    reveal_strlit("ipc://");
    reveal_strlit("ipc:///tmp/nanoserver-client-");
    let u = client_socket_url(socket_id);
    let p = CLIENT_SOCKET_URL_PREFIX@;
    assert(u.subrange(0, 6) =~= p.subrange(0, 6));
    assert(p.subrange(0, 6) =~= IPC_MARKER@);
    assert(u.subrange(6, u.len() as int) =~= p.subrange(6, p.len() as int) + decimal(socket_id)
        + CLIENT_SOCKET_URL_SUFFIX@);
}

/// How long a session may stay idle before it is closed.
#[derive(Debug, Copy, Clone, PartialEq)]
pub struct SessionTimeout(Duration);

impl View for SessionTimeout {
    type V = Duration;

    closed spec fn view(&self) -> Duration {
        self.0
    }
}

impl Default for SessionTimeout {
    fn default() -> (timeout: SessionTimeout)
        ensures
            timeout@ == duration_from_secs(DEFAULT_SESSION_TIMEOUT),
            duration_secs(timeout@) == DEFAULT_SESSION_TIMEOUT,
            duration_subsec_nanos(timeout@) == 0,
    {
        SessionTimeout(Duration::from_secs(DEFAULT_SESSION_TIMEOUT))
    }
}

impl vstd::std_specs::convert::FromSpecImpl<Duration> for SessionTimeout {
    open spec fn obeys_from_spec() -> bool {
        true
    }

    closed spec fn from_spec(v: Duration) -> SessionTimeout {
        SessionTimeout(v)
    }
}

impl From<Duration> for SessionTimeout {
    fn from(source: Duration) -> (timeout: SessionTimeout)
        ensures
            timeout@ == source,
    {
        SessionTimeout(source)
    }
}

impl vstd::std_specs::convert::FromSpecImpl<SessionTimeout> for Duration {
    open spec fn obeys_from_spec() -> bool {
        true
    }

    closed spec fn from_spec(v: SessionTimeout) -> Duration {
        v.0
    }
}

impl From<SessionTimeout> for Duration {
    fn from(source: SessionTimeout) -> (d: Duration)
        ensures
            d == source@,
    {
        source.0
    }
}

/// How often a session checks whether it has been idle too long.
#[derive(Debug, Copy, Clone, PartialEq)]
pub struct GcInterval(Duration);

impl View for GcInterval {
    type V = Duration;

    closed spec fn view(&self) -> Duration {
        self.0
    }
}

impl Default for GcInterval {
    fn default() -> (interval: GcInterval)
        ensures
            interval@ == duration_from_secs(DEFAULT_GC_INTERVAL),
            duration_secs(interval@) == DEFAULT_GC_INTERVAL,
            duration_subsec_nanos(interval@) == 0,
    {
        GcInterval(Duration::from_secs(DEFAULT_GC_INTERVAL))
    }
}

impl vstd::std_specs::convert::FromSpecImpl<Duration> for GcInterval {
    open spec fn obeys_from_spec() -> bool {
        true
    }

    closed spec fn from_spec(v: Duration) -> GcInterval {
        GcInterval(v)
    }
}

impl From<Duration> for GcInterval {
    fn from(source: Duration) -> (interval: GcInterval)
        ensures
            interval@ == source,
    {
        GcInterval(source)
    }
}

impl vstd::std_specs::convert::FromSpecImpl<GcInterval> for Duration {
    open spec fn obeys_from_spec() -> bool {
        true
    }

    closed spec fn from_spec(v: GcInterval) -> Duration {
        v.0
    }
}

impl From<GcInterval> for Duration {
    fn from(source: GcInterval) -> (d: Duration)
        ensures
            d == source@,
    {
        source.0
    }
}

/// A session timeout made from a duration gives that duration back, and a
/// duration made from a session timeout gives that timeout back.
pub proof fn lemma_session_timeout_round_trip(d: Duration, t: SessionTimeout)
    ensures
        <Duration as FromSpec<SessionTimeout>>::from_spec(
            <SessionTimeout as FromSpec<Duration>>::from_spec(d),
        ) == d,
        <SessionTimeout as FromSpec<Duration>>::from_spec(
            <Duration as FromSpec<SessionTimeout>>::from_spec(t),
        ) == t,
{
}

/// A GC interval made from a duration gives that duration back, and a
/// duration made from a GC interval gives that interval back.
pub proof fn lemma_gc_interval_round_trip(d: Duration, g: GcInterval)
    ensures
        <Duration as FromSpec<GcInterval>>::from_spec(
            <GcInterval as FromSpec<Duration>>::from_spec(d),
        ) == d,
        <GcInterval as FromSpec<Duration>>::from_spec(
            <Duration as FromSpec<GcInterval>>::from_spec(g),
        ) == g,
{
}

/// The URL of the main (control) socket.
#[derive(Debug, Copy, Clone, PartialEq)]
pub struct MainSocketUrl<'s>(&'s str);

impl<'s> View for MainSocketUrl<'s> {
    type V = Seq<char>;

    closed spec fn view(&self) -> Seq<char> {
        self.0@
    }
}

impl<'s> Default for MainSocketUrl<'s> {
    fn default() -> (url: MainSocketUrl<'s>)
        ensures
            url@ == MAIN_SOCKET_URL@,
    {
        MainSocketUrl(MAIN_SOCKET_URL)
    }
}

impl<'s> vstd::std_specs::convert::FromSpecImpl<&'s str> for MainSocketUrl<'s> {
    open spec fn obeys_from_spec() -> bool {
        true
    }

    closed spec fn from_spec(v: &'s str) -> MainSocketUrl<'s> {
        MainSocketUrl(v)
    }
}

impl<'s> From<&'s str> for MainSocketUrl<'s> {
    fn from(source: &'s str) -> (url: MainSocketUrl<'s>)
        ensures
            url@ == source@,
    {
        MainSocketUrl(source)
    }
}

impl<'s> AsRef<str> for MainSocketUrl<'s> {
    fn as_ref(&self) -> (s: &str)
        ensures
            s@ == self@,
    {
        self.0
    }
}

/// A main socket URL made from a string reads back as that string.
pub proof fn lemma_main_socket_url_round_trip<'s>(s: &'s str)
    ensures
        <MainSocketUrl<'s> as FromSpec<&'s str>>::from_spec(s)@ == s@,
{
}

} // verus!
