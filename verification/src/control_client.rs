use vstd::prelude::*;

use crate::strings::join2;

verus! {

/// The text with which a stubbed control RPC fails.
pub open spec fn stub_failure(operation: Seq<char>, socket: Seq<char>) -> Seq<char> {
    "control_client::"@ + operation
        + " is a stub; awaiting animus-control-protocol v0.1.5 client. socket="@ + socket
}

/// Control wire client that invokes RPCs by name against the daemon's
/// control socket. It is a stub: every RPC fails, naming the socket.
pub struct ControlClient {
    socket_path: String,
}

impl View for ControlClient {
    /// The socket path the client was opened on.
    type V = Seq<char>;

    closed spec fn view(&self) -> Seq<char> {
        self.socket_path@
    }
}

impl ControlClient {
    /// Opens a client on the control socket at `socket_path`.
    pub fn connect(socket_path: &str) -> (r: Result<ControlClient, String>)
        ensures
            r matches Ok(c) && c@ == socket_path@,
    {
        Ok(ControlClient { socket_path: String::from_str(socket_path) })
    }

    /// The socket path the client was opened on.
    pub fn socket_path(&self) -> (r: &String)
        ensures
            r@ == self@,
    {
        &self.socket_path
    }

    /// Invokes a unary control RPC by name; the stub always fails.
    pub fn call<P, R>(&self, method: &str, params: &P) -> (r: Result<R, String>)
        ensures
            r matches Err(e) && e@ == stub_failure("call"@, self@),
    {
        let prefix = join2("control_client::", "call");
        let middle = join2(prefix.as_str(), " is a stub; awaiting animus-control-protocol v0.1.5 client. socket=");
        Err(join2(middle.as_str(), self.socket_path.as_str()))
    }

    /// Opens a streaming control RPC and returns the notifications it
    /// delivers; the stub always fails.
    pub fn subscribe<P, R>(&self, method: &str, params: &P) -> (r: Result<Vec<R>, String>)
        ensures
            r matches Err(e) && e@ == stub_failure("subscribe"@, self@),
    {
        let prefix = join2("control_client::", "subscribe");
        let middle = join2(prefix.as_str(), " is a stub; awaiting animus-control-protocol v0.1.5 client. socket=");
        Err(join2(middle.as_str(), self.socket_path.as_str()))
    }
}

} // verus!
