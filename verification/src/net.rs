//! Datagram sockets: how an endpoint is opened.

use vstd::prelude::*;

verus! {

/// Whether a socket connects to its address or binds it.
#[derive(Copy, Clone, Debug, PartialEq, Eq, Structural)]
pub enum SocketMode {
    Connect,
    Bind,
}

} // verus!
