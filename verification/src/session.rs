//! The wire-level record of one connection. The connection is shared by all
//! callers but guarded by a lock: whoever holds it performs exactly one
//! request/response round trip, so frames of distinct calls never interleave,
//! and the terminal report enters the wire at most once.

use vstd::prelude::*;

verus! {

/// One frame observed on the wire, tagged with the round trip it belongs to.
#[derive(Clone, Copy, Debug, PartialEq, Eq, Structural)]
pub enum Frame {
    Request(u64),
    Response(u64),
    TerminalReturn,
}

/// The record of one connection: every frame in the order it entered the
/// wire, the number of completed round trips, and whether the terminal
/// report has been sent.
#[derive(Clone, Debug)]
pub struct Session {
    pub trace: Vec<Frame>,
    pub round_trips: u64,
    pub terminal_sent: bool,
}

impl Session {
    /// The shape every trace has: round trip `i` occupies positions `2 i`
    /// and `2 i + 1`, and the terminal frame, if sent, stands last.
    pub open spec fn wf(&self) -> bool {
        &&& self.trace@.len() == 2 * self.round_trips + (if self.terminal_sent {
            1int
        } else {
            0int
        })
        &&& forall|i: int|
            0 <= i < self.round_trips ==> {
                &&& #[trigger] self.trace@[2 * i] == Frame::Request(i as u64)
                &&& self.trace@[2 * i + 1] == Frame::Response(i as u64)
            }
        &&& self.terminal_sent ==> self.trace@.last() == Frame::TerminalReturn
    }

    /// A fresh connection: nothing on the wire yet.
    pub fn new() -> (s: Session)
        ensures
            s.wf(),
            s.round_trips == 0,
            !s.terminal_sent,
            s.trace@ == Seq::<Frame>::empty(),
    {
        let s = Session { trace: Vec::new(), round_trips: 0, terminal_sent: false };
        proof {
            assert(s.trace@ =~= Seq::<Frame>::empty());
        }
        s
    }

    /// Records one complete, lock-guarded round trip: the request frame and
    /// its own response enter the wire adjacently.
    pub fn round_trip(&mut self) -> (id: u64)
        requires
            old(self).wf(),
            !old(self).terminal_sent,
            old(self).round_trips < u64::MAX,
        ensures
            final(self).wf(),
            !final(self).terminal_sent,
            final(self).round_trips == old(self).round_trips + 1,
            id == old(self).round_trips,
            final(self).trace@ == old(self).trace@ + seq![Frame::Request(id), Frame::Response(id)],
    {
        let id = self.round_trips;
        self.trace.push(Frame::Request(id));
        self.trace.push(Frame::Response(id));
        self.round_trips = self.round_trips + 1;
        proof {
            assert(self.trace@ =~= old(self).trace@ + seq![
                Frame::Request(id),
                Frame::Response(id),
            ]);
            assert forall|i: int| 0 <= i < self.round_trips implies {
                &&& #[trigger] self.trace@[2 * i] == Frame::Request(i as u64)
                &&& self.trace@[2 * i + 1] == Frame::Response(i as u64)
            } by {
                if i < old(self).round_trips {
                    assert(old(self).trace@[2 * i] == Frame::Request(i as u64));
                    assert(old(self).trace@[2 * i + 1] == Frame::Response(i as u64));
                }
            }
        }
        id
    }

    /// Records the terminal report frame; the session accepts no frame that
    /// would follow it.
    pub fn send_terminal(&mut self)
        requires
            old(self).wf(),
            !old(self).terminal_sent,
        ensures
            final(self).wf(),
            final(self).terminal_sent,
            final(self).round_trips == old(self).round_trips,
            final(self).trace@ == old(self).trace@.push(Frame::TerminalReturn),
    {
        self.trace.push(Frame::TerminalReturn);
        self.terminal_sent = true;
        proof {
            assert forall|i: int| 0 <= i < self.round_trips implies {
                &&& #[trigger] self.trace@[2 * i] == Frame::Request(i as u64)
                &&& self.trace@[2 * i + 1] == Frame::Response(i as u64)
            } by {
                assert(old(self).trace@[2 * i] == Frame::Request(i as u64));
                assert(old(self).trace@[2 * i + 1] == Frame::Response(i as u64));
            }
        }
    }
}

/// How many terminal frames a trace holds.
pub open spec fn terminal_count(frames: Seq<Frame>) -> int
    decreases frames.len(),
{
    if frames.len() == 0 {
        0
    } else {
        terminal_count(frames.drop_last()) + (if frames.last() == Frame::TerminalReturn {
            1int
        } else {
            0int
        })
    }
}

proof fn lemma_terminal_count_zero(frames: Seq<Frame>)
    requires
        forall|k: int| 0 <= k < frames.len() ==> #[trigger] frames[k] != Frame::TerminalReturn,
    ensures
        terminal_count(frames) == 0,
    decreases frames.len(),
{
    if frames.len() > 0 {
        lemma_terminal_count_zero(frames.drop_last());
    }
}

/// At most one terminal report ever enters the wire: however many round
/// trips a session records, its trace holds exactly one terminal frame once
/// the report is sent, and none before.
pub proof fn lemma_at_most_one_terminal(s: Session)
    requires
        s.wf(),
    ensures
        terminal_count(s.trace@) == if s.terminal_sent {
            1int
        } else {
            0int
        },
{
    let n = s.round_trips as int;
    let body = s.trace@.take(2 * n);
    assert forall|k: int| 0 <= k < body.len() implies #[trigger] body[k] != Frame::TerminalReturn by {
        let i = k / 2;
        if k % 2 == 0 {
            assert(k == 2 * i);
            assert(s.trace@[2 * i] == Frame::Request(i as u64));
        } else {
            assert(k == 2 * i + 1);
            assert(s.trace@[2 * i + 1] == Frame::Response(i as u64));
        }
    }
    lemma_terminal_count_zero(body);
    if s.terminal_sent {
        assert(s.trace@.drop_last() =~= body);
        assert(terminal_count(s.trace@) == terminal_count(body) + 1);
    } else {
        assert(s.trace@ =~= body);
    }
}

/// Round trips never interleave: wherever a request frame stands in a
/// session's trace, the very next frame is that same call's response — no
/// frame of any other call comes between a request and its response.
pub proof fn lemma_round_trips_not_interleaved(s: Session)
    requires
        s.wf(),
    ensures
        forall|k: int|
            0 <= k < s.trace@.len() ==> ((#[trigger] s.trace@[k]) matches Frame::Request(id) ==> k
                + 1 < s.trace@.len() && s.trace@[k + 1] == Frame::Response(id)),
{
    assert forall|k: int| 0 <= k < s.trace@.len() implies ((#[trigger] s.trace@[k]) matches
    Frame::Request(id) ==> k + 1 < s.trace@.len() && s.trace@[k + 1] == Frame::Response(id)) by {
        let fr = s.trace@[k];
        if fr is Request {
            let n = s.round_trips as int;
            let i = k / 2;
            if k == 2 * n {
                assert(s.terminal_sent);
                assert(s.trace@.last() == Frame::TerminalReturn);
                assert(fr == Frame::TerminalReturn);
            } else {
                assert(k < 2 * n);
                if k % 2 == 1 {
                    assert(k == 2 * i + 1);
                    assert(s.trace@[2 * i + 1] == Frame::Response(i as u64));
                } else {
                    assert(k == 2 * i);
                    assert(s.trace@[2 * i] == Frame::Request(i as u64));
                    assert(s.trace@[2 * i + 1] == Frame::Response(i as u64));
                }
            }
        }
    }
}

} // verus!
