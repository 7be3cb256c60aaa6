//! Bookkeeping of one output pipe: which of its two ends is still open.
//!
//! The native engine writes its rendering into a destination rather than
//! returning bytes, so each render call captures the output through a
//! connected pair of OS channels: a write end handed to the engine and a read
//! end kept by the wrapper. The OS handles themselves live with the
//! unverified shell; this state is kept beside them and fixes the discipline:
//! the write end is closed before the read end is drained (the engine flushes
//! on close, so an earlier read could block or come up short), each end is
//! closed at most once, and a second drain yields nothing.

use vstd::prelude::*;

verus! {

/// The open/closed state of the two ends of one output pipe.
pub struct PipeState {
    /// Whether the write end — the engine's destination — is still open.
    pub write_open: bool,
    /// Whether the read end kept by the wrapper is still open.
    pub read_open: bool,
}

impl PipeState {
    /// Both ends of a pipe are released.
    pub open spec fn fully_closed(self) -> bool {
        !self.write_open && !self.read_open
    }

    /// Draining is in order: the write end is closed, the read end is not.
    pub open spec fn may_drain(self) -> bool {
        !self.write_open && self.read_open
    }

    /// A freshly acquired pipe: both ends open.
    pub fn acquire() -> (r: PipeState)
        ensures
            r.write_open,
            r.read_open,
    {
        PipeState { write_open: true, read_open: true }
    }

    /// Records that the write end is closed and says whether the OS handle is
    /// still to be released. Idempotent: on an already closed end nothing is
    /// owed and nothing changes.
    pub fn close_write(&mut self) -> (release_now: bool)
        ensures
            !final(self).write_open,
            final(self).read_open == old(self).read_open,
            release_now == old(self).write_open,
            old(self).read_open ==> final(self).may_drain(),
    {
        let was_open = self.write_open;
        self.write_open = false;
        was_open
    }

    /// Records that the read end is closed and says whether the OS handle is
    /// still to be released. Idempotent in the same way.
    pub fn close_read(&mut self) -> (release_now: bool)
        ensures
            !final(self).read_open,
            final(self).write_open == old(self).write_open,
            release_now == old(self).read_open,
    {
        let was_open = self.read_open;
        self.read_open = false;
        was_open
    }

    /// Plans a full drain: close the write end if still open, then read the
    /// read end to its end and close it. The first flag says whether the OS
    /// write end is still to be released; the second whether there is a read
    /// end to drain — when there is none, a repeated drain, the drained
    /// sequence is empty. Afterwards the pipe is fully closed.
    pub fn drain_and_close(&mut self) -> (r: (bool, bool))
        ensures
            final(self).fully_closed(),
            r.0 == old(self).write_open,
            r.1 == old(self).read_open,
    {
        let release_write = self.write_open;
        let drain_read = self.read_open;
        self.write_open = false;
        self.read_open = false;
        (release_write, drain_read)
    }
}

} // verus!
