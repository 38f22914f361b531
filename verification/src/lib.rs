//! A server that hands each client a dedicated nanomsg pair socket.
use vstd::prelude::*;

pub mod config;
pub mod consts;
pub mod decimal;
pub mod duration;
pub mod error;
pub mod peer;
pub mod proto;
pub mod server;
pub mod syscall;

pub use crate::server::{KillswitchSender, MultiServer, Session};

verus! {

} // verus!
