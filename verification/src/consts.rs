//! The fixed names and numbers of the server.
use vstd::prelude::*;

verus! {

/// Main (init) socket nanomsg URL.
pub const MAIN_SOCKET_URL: &'static str = "ipc:///tmp/nanoserver-main.ipc";

/// What a client socket URL starts with; the connection id follows it.
pub const CLIENT_SOCKET_URL_PREFIX: &'static str = "ipc:///tmp/nanoserver-client-";

/// What a client socket URL ends with.
pub const CLIENT_SOCKET_URL_SUFFIX: &'static str = ".ipc";

/// The marker of a nanomsg IPC URL; what follows it is a file path.
pub const IPC_MARKER: &'static str = "ipc://";

/// Default session timeout, in seconds.
pub const DEFAULT_SESSION_TIMEOUT: u64 = 30;

/// Default interval between two idleness checks of a session, in seconds.
pub const DEFAULT_GC_INTERVAL: u64 = 60;

} // verus!
