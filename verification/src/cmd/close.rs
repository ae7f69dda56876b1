//! What a connection is closed with.

use vstd::prelude::*;

verus! {

/// How to close a change feed.
#[derive(Debug, Clone, Copy, PartialEq, Eq, Structural)]
pub struct Options {
    /// Whether the server is asked to answer once earlier writes that
    /// wanted no reply are through.
    pub noreply_wait: bool,
}

impl Options {
    /// Options that wait for earlier writes.
    pub fn new() -> (o: Options)
        ensures
            o.noreply_wait,
    {
        Options { noreply_wait: true }
    }

    /// The same options, waiting or not.
    pub fn noreply_wait(self, wait: bool) -> (o: Options)
        ensures
            o.noreply_wait == wait,
    {
        Options { noreply_wait: wait }
    }
}

/// What `close` accepts in place of options.
pub trait Arg: Sized {
    /// Whether this value asks to wait for earlier writes.
    spec fn waits(self) -> bool;

    /// Whether this value asks to wait for earlier writes.
    fn noreply_wait(self) -> (wait: bool)
        ensures
            wait == self.waits(),
    ;
}

impl Arg for Options {
    open spec fn waits(self) -> bool {
        self.noreply_wait
    }

    fn noreply_wait(self) -> (wait: bool) {
        self.noreply_wait
    }
}

impl Arg for () {
    open spec fn waits(self) -> bool {
        true
    }

    fn noreply_wait(self) -> (wait: bool) {
        true
    }
}

} // verus!
