//! Unix domain sockets, as far as they are plain values.

use vstd::prelude::*;

verus! {

/// What a server gets to know of a connection: nothing.
#[derive(Clone, Debug)]
pub struct DeleteOnDropConnectInfo {}

/// Connects to the Unix domain socket at a path.
#[derive(Debug)]
pub struct UnixStream {
    path: String,
}

impl View for UnixStream {
    type V = Seq<char>;

    closed spec fn view(&self) -> Seq<char> {
        self.path@
    }
}

impl UnixStream {
    /// A connector to the socket at `path`.
    pub fn connect(path: &str) -> (r: UnixStream)
        ensures
            r@ == path@,
    {
        UnixStream { path: path.to_owned() }
    }

    /// The path of the socket.
    pub fn path(&self) -> (r: &str)
        ensures
            r@ == self@,
    {
        self.path.as_str()
    }
}

} // verus!
