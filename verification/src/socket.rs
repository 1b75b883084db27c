//! The outbound collector endpoint: where forwarded records are sent.  The
//! worker that serializes and writes them lives in the surrounding binary;
//! the core only fixes the address.

use vstd::prelude::*;

verus! {

/// Client side of the collector socket.
#[derive(Debug, Clone)]
pub struct SocketClient {
    pub socket_path: String,
}

impl SocketClient {
    /// A client for the given socket path, or for the conventional default
    /// when none is given.
    pub fn new(socket_path: Option<String>) -> (r: SocketClient)
        ensures
            r.socket_path@ == match socket_path {
                Some(p) => p@,
                None => "/tmp/log-agent.sock"@,
            },
    {
        match socket_path {
            Some(p) => SocketClient { socket_path: p },
            None => SocketClient { socket_path: "/tmp/log-agent.sock".to_owned() },
        }
    }
}

} // verus!
