//! A server abstraction with a specified response, and an echo instance.

use vstd::prelude::*;

verus! {

use vstd::string::StringExecFns;

/// Something that answers a request with a response whose text is fixed
/// by [`Server::response_of`].
pub trait Server {
    /// The text the server must answer `req` with.
    spec fn response_of(&self, req: Seq<char>) -> Seq<char>;

    fn handle(&self, req: String) -> (r: String)
        ensures
            r@ == self.response_of(req@),
    ;
}

/// A server that answers every request with the request itself.
pub struct EchoServer;

impl Server for EchoServer {
    open spec fn response_of(&self, req: Seq<char>) -> Seq<char> {
        req
    }

    fn handle(&self, req: String) -> (r: String)
        ensures
            r@ == self.response_of(req@),
    {
        req
    }
}

/// Hand `req` to `server` and return its answer.
pub fn handle<S: Server>(server: S, req: &str) -> (r: String)
    ensures
        r@ == server.response_of(req@),
{
    server.handle(String::from_str(req))
}

} // verus!
