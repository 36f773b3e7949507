//! The duplex stream adapter's decision core: how one attempt on an
//! underlying non-blocking handle is turned into a readiness-driven poll
//! result, and the close discipline of the two half-streams.
//!
//! The adapter composes the process's inherited input and output handles
//! into one logical duplex stream. The halves are independent: the read half
//! observes only the input handle and the write half only the output handle,
//! so closing one never affects the other. The OS calls themselves live
//! outside the library; each step function here takes the call's outcome and
//! states the poll result for every value of it.

use vstd::prelude::*;

verus! {

/// What one read attempt on the underlying input handle produced.
#[derive(Clone, Debug, PartialEq)]
pub enum RawRead {
    /// The handle yielded bytes.
    Data(Vec<u8>),
    /// The handle is at end of stream: the orchestrator closed its side.
    EndOfStream,
    /// No data is available right now; the handle stays open.
    WouldBlock,
    /// A hard OS error; fatal to the adapter.
    Fatal(String),
}

/// What one write attempt on the underlying output handle produced.
#[derive(Clone, Debug, PartialEq)]
pub enum RawWrite {
    /// The handle accepted this many bytes.
    Accepted(usize),
    /// The handle cannot accept bytes right now.
    WouldBlock,
    /// A hard OS error; fatal to the adapter.
    Fatal(String),
}

/// The poll result of a read attempt.
#[derive(Clone, Debug, PartialEq)]
pub enum ReadPoll {
    /// Bytes are ready.
    Ready(Vec<u8>),
    /// End of stream, reported distinctly from an empty read.
    ReadyEnd,
    /// A hard error, surfaced to the caller; the adapter does not retry.
    ReadyError(String),
    /// Not ready: the caller must suspend until the handle is readable.
    Pending,
}

/// The poll result of a write attempt.
#[derive(Clone, Debug, PartialEq)]
pub enum WritePoll {
    /// This many bytes were accepted.
    Ready(usize),
    /// A hard error, surfaced to the caller; the adapter does not retry.
    ReadyError(String),
    /// Not ready: the caller must suspend until the handle is writable.
    Pending,
}

/// Turns one read attempt's outcome into a poll result. The attempt is
/// pending exactly when the handle would block — the caller then registers
/// interest in the handle's readable event and suspends, never spinning —
/// and end of stream is reported distinctly from a transient empty read.
pub fn poll_read_step(outcome: RawRead) -> (r: (ReadPoll, bool))
    ensures
        r.1 <==> outcome == RawRead::WouldBlock,
        r.0 is Pending <==> outcome == RawRead::WouldBlock,
        match outcome {
            RawRead::Data(bytes) => r.0 matches ReadPoll::Ready(b) && b@ == bytes@,
            RawRead::EndOfStream => r.0 == ReadPoll::ReadyEnd,
            RawRead::WouldBlock => r.0 == ReadPoll::Pending,
            RawRead::Fatal(m) => r.0 matches ReadPoll::ReadyError(e) && e@ == m@,
        },
{
    match outcome {
        RawRead::Data(bytes) => (ReadPoll::Ready(bytes), false),
        RawRead::EndOfStream => (ReadPoll::ReadyEnd, false),
        RawRead::WouldBlock => (ReadPoll::Pending, true),
        RawRead::Fatal(m) => (ReadPoll::ReadyError(m), false),
    }
}

/// Turns one write attempt's outcome into a poll result. The attempt is
/// pending exactly when the handle would block — the caller then registers
/// interest in the handle's writable event and suspends, never spinning.
pub fn poll_write_step(outcome: RawWrite) -> (r: (WritePoll, bool))
    ensures
        r.1 <==> outcome == RawWrite::WouldBlock,
        r.0 is Pending <==> outcome == RawWrite::WouldBlock,
        match outcome {
            RawWrite::Accepted(n) => r.0 == WritePoll::Ready(n),
            RawWrite::WouldBlock => r.0 == WritePoll::Pending,
            RawWrite::Fatal(m) => r.0 matches WritePoll::ReadyError(e) && e@ == m@,
        },
{
    match outcome {
        RawWrite::Accepted(n) => (WritePoll::Ready(n), false),
        RawWrite::WouldBlock => (WritePoll::Pending, true),
        RawWrite::Fatal(m) => (WritePoll::ReadyError(m), false),
    }
}

/// The close discipline of the two half-streams. Shutdown touches only the
/// write half; the read half stays usable until the orchestrator closes its
/// own side.
#[derive(Clone, Copy, Debug, PartialEq, Eq, Structural)]
pub struct HalfCloseState {
    pub write_closed: bool,
}

impl HalfCloseState {
    /// A freshly opened adapter: both halves usable.
    pub fn new() -> (s: HalfCloseState)
        ensures
            !s.write_closed,
    {
        HalfCloseState { write_closed: false }
    }

    /// Shuts the write half down: a best-effort flush is owed only on the
    /// first close, and a second close changes nothing — shutdown is
    /// idempotent. The read half is untouched.
    pub fn shutdown_write(&mut self) -> (flush_owed: bool)
        ensures
            final(self).write_closed,
            flush_owed <==> !old(self).write_closed,
    {
        let flush_owed = !self.write_closed;
        self.write_closed = true;
        flush_owed
    }
}

} // verus!
