//! The log service's shared state: empty for now, cloned into each handler.

use vstd::prelude::*;

verus! {

/// Shared state handed to every request handler.
#[derive(Clone)]
pub struct Server {}

impl Server {
    pub fn new() -> (s: Server) {
        Server {  }
    }
}

} // verus!
