//! Error values carried through the bridge: a coarse status code for the
//! orchestrator, and failures that keep their chain of underlying causes so
//! that the terminal report can render them.

use vstd::prelude::*;

verus! {

/// A coarse status classification reported to the orchestrator on failure,
/// drawn from the standard RPC status-code space.
#[derive(Clone, Copy, Debug, PartialEq, Eq, Structural)]
pub enum ErrorCode {
    Cancelled,
    Unknown,
    InvalidArgument,
    DeadlineExceeded,
    NotFound,
    AlreadyExists,
    PermissionDenied,
    ResourceExhausted,
    FailedPrecondition,
    Aborted,
    OutOfRange,
    Unimplemented,
    Internal,
    Unavailable,
    DataLoss,
    Unauthenticated,
}

/// The numeric value of a status code in the standard RPC status-code space.
pub open spec fn spec_code_number(code: ErrorCode) -> i32 {
    match code {
        ErrorCode::Cancelled => 1,
        ErrorCode::Unknown => 2,
        ErrorCode::InvalidArgument => 3,
        ErrorCode::DeadlineExceeded => 4,
        ErrorCode::NotFound => 5,
        ErrorCode::AlreadyExists => 6,
        ErrorCode::PermissionDenied => 7,
        ErrorCode::ResourceExhausted => 8,
        ErrorCode::FailedPrecondition => 9,
        ErrorCode::Aborted => 10,
        ErrorCode::OutOfRange => 11,
        ErrorCode::Unimplemented => 12,
        ErrorCode::Internal => 13,
        ErrorCode::Unavailable => 14,
        ErrorCode::DataLoss => 15,
        ErrorCode::Unauthenticated => 16,
    }
}

impl ErrorCode {
    /// The wire form of the status code.
    pub fn number(&self) -> (n: i32)
        ensures
            n == spec_code_number(*self),
    {
        match self {
            ErrorCode::Cancelled => 1,
            ErrorCode::Unknown => 2,
            ErrorCode::InvalidArgument => 3,
            ErrorCode::DeadlineExceeded => 4,
            ErrorCode::NotFound => 5,
            ErrorCode::AlreadyExists => 6,
            ErrorCode::PermissionDenied => 7,
            ErrorCode::ResourceExhausted => 8,
            ErrorCode::FailedPrecondition => 9,
            ErrorCode::Aborted => 10,
            ErrorCode::OutOfRange => 11,
            ErrorCode::Unimplemented => 12,
            ErrorCode::Internal => 13,
            ErrorCode::Unavailable => 14,
            ErrorCode::DataLoss => 15,
            ErrorCode::Unauthenticated => 16,
        }
    }
}

/// A failure with its chain of underlying causes, outermost first.
///
/// Wrapping a failure in a new context keeps the original messages, so the
/// terminal report can render the whole chain.
#[derive(Clone, Debug)]
pub struct FrontendError {
    pub messages: Vec<String>,
}

impl FrontendError {
    /// The chain always holds at least the original failure's message.
    pub open spec fn wf(&self) -> bool {
        self.messages.len() >= 1
    }

    /// A fresh failure with a single message and no underlying cause.
    pub fn new(message: String) -> (r: FrontendError)
        ensures
            r.wf(),
            r.messages.deep_view() == seq![message@],
    {
        let mut messages: Vec<String> = Vec::new();
        messages.push(message);
        proof {
            assert(messages.deep_view() =~= seq![message@]);
        }
        FrontendError { messages }
    }

    /// Wraps the failure in an outer context message; the existing causes
    /// keep their order behind it.
    pub fn context(self, message: String) -> (r: FrontendError)
        requires
            self.wf(),
        ensures
            r.wf(),
            r.messages.deep_view() == seq![message@] + self.messages.deep_view(),
    {
        let mut messages = self.messages;
        let ghost old_msgs = messages.deep_view();
        messages.insert(0, message);
        proof {
            assert(messages.deep_view() =~= seq![message@] + old_msgs);
        }
        FrontendError { messages }
    }
}

/// The messages of `parts` joined with the separator `sep` between them.
pub open spec fn join_with(parts: Seq<Seq<char>>, sep: Seq<char>) -> Seq<char>
    decreases parts.len(),
{
    if parts.len() == 0 {
        Seq::empty()
    } else if parts.len() == 1 {
        parts[0]
    } else {
        parts[0] + sep + join_with(parts.drop_first(), sep)
    }
}

proof fn lemma_join_with_push(parts: Seq<Seq<char>>, sep: Seq<char>, last: Seq<char>)
    requires
        parts.len() >= 1,
    ensures
        join_with(parts.push(last), sep) == join_with(parts, sep) + sep + last,
    decreases parts.len(),
{
    if parts.len() == 1 {
        assert(parts.push(last).drop_first() =~= seq![last]);
        assert(join_with(seq![last], sep) == last);
        assert(join_with(parts.push(last), sep) == parts.push(last)[0] + sep + join_with(
            parts.push(last).drop_first(),
            sep,
        ));
        assert(join_with(parts.push(last), sep) == parts[0] + sep + last);
    } else {
        lemma_join_with_push(parts.drop_first(), sep, last);
        assert(parts.push(last).drop_first() =~= parts.drop_first().push(last));
        assert(join_with(parts.push(last), sep) =~= parts[0] + sep + join_with(
            parts.drop_first().push(last),
            sep,
        ));
        assert(parts[0] + sep + (join_with(parts.drop_first(), sep) + sep + last) =~= (parts[0]
            + sep + join_with(parts.drop_first(), sep)) + sep + last);
    }
}

/// Joins the given messages with the separator between them.
fn render_joined(parts: &Vec<String>, sep: &str) -> (r: String)
    ensures
        r@ == join_with(parts.deep_view(), sep@),
{
    let mut out = String::new();
    let mut i: usize = 0;
    while i < parts.len()
        invariant
            i <= parts.len(),
            out@ == join_with(parts.deep_view().take(i as int), sep@),
        decreases parts.len() - i,
    {
        if i > 0 {
            out.append(sep);
        }
        let part: &String = &parts[i];
        out.append(part.as_str());
        proof {
            let pv = parts.deep_view();
            assert(pv.take(i + 1) =~= pv.take(i as int).push(pv[i as int]));
            if i > 0 {
                lemma_join_with_push(pv.take(i as int), sep@, pv[i as int]);
            } else {
                assert(join_with(pv.take(1), sep@) == pv[0]);
                assert(out@ =~= pv[0]);
            }
        }
        i = i + 1;
    }
    proof {
        assert(parts.deep_view().take(parts.len() as int) =~= parts.deep_view());
    }
    out
}

/// A failure chain together with the way it is to be rendered: expanded over
/// several lines for local diagnostics, or flattened to one line for the
/// orchestrator's status channel.
#[derive(Clone, Debug)]
pub struct ErrorWithCauses {
    pub error: FrontendError,
    pub expanded: bool,
}

/// Whether `part` occupies a whole line of `s` starting at `start`: it is a
/// contiguous run bounded on each side by a line break or an end of the text.
pub open spec fn is_line_at(s: Seq<char>, part: Seq<char>, start: int) -> bool {
    &&& 0 <= start
    &&& start + part.len() <= s.len()
    &&& s.subrange(start, start + part.len() as int) == part
    &&& (start == 0 || s[start - 1] == '\n')
    &&& (start + part.len() == s.len() || s[start + part.len() as int] == '\n')
}

impl ErrorWithCauses {
    /// The multi-line rendering of a failure chain: one cause per line.
    pub fn multi_line(error: FrontendError) -> (r: ErrorWithCauses)
        requires
            error.wf(),
        ensures
            r.error == error,
            r.expanded,
            r.wf(),
    {
        ErrorWithCauses { error, expanded: true }
    }

    /// The single-line rendering of a failure chain: causes joined by `": "`.
    pub fn single_line(error: FrontendError) -> (r: ErrorWithCauses)
        requires
            error.wf(),
        ensures
            r.error == error,
            !r.expanded,
            r.wf(),
    {
        ErrorWithCauses { error, expanded: false }
    }

    pub open spec fn wf(&self) -> bool {
        self.error.wf()
    }

    /// Gives the wrapped failure back.
    pub fn into_inner(self) -> (r: FrontendError)
        ensures
            r == self.error,
    {
        self.error
    }

    /// What `render` produces: the causes joined by a line break when
    /// expanded, by `": "` otherwise.
    pub open spec fn spec_rendering(&self) -> Seq<char> {
        if self.expanded {
            join_with(self.error.messages.deep_view(), seq!['\n'])
        } else {
            join_with(self.error.messages.deep_view(), seq![':', ' '])
        }
    }

    /// Renders the chain in the chosen form.
    pub fn render(&self) -> (r: String)
        ensures
            r@ == self.spec_rendering(),
    {
        if self.expanded {
            let r = render_joined(&self.error.messages, "\n");
            proof {
                reveal_strlit("\n");
                assert("\n"@ =~= seq!['\n']);
            }
            r
        } else {
            let r = render_joined(&self.error.messages, ": ");
            proof {
                reveal_strlit(": ");
                assert(": "@ =~= seq![':', ' ']);
            }
            r
        }
    }
}

/// Flattening a three-cause chain joins the causes in order with `": "`
/// between them: the single-line rendering of `A` caused by `B` caused by
/// `C` is exactly `A: B: C`.
pub proof fn lemma_single_line_three_causes(a: Seq<char>, b: Seq<char>, c: Seq<char>)
    ensures
        join_with(seq![a, b, c], seq![':', ' ']) == a + seq![':', ' '] + b + seq![':', ' '] + c,
{
    let sep = seq![':', ' '];
    assert(seq![a, b, c].drop_first() =~= seq![b, c]);
    assert(seq![b, c].drop_first() =~= seq![c]);
    assert(join_with(seq![c], sep) == c);
    assert(join_with(seq![b, c], sep) == b + sep + c);
    assert(a + sep + (b + sep + c) =~= a + sep + b + sep + c);
}

/// Every cause of a chain stands on a line of its own in the multi-line
/// rendering: the rendered text holds the `k`-th message bounded by line
/// breaks or the ends of the text.
pub proof fn lemma_multi_line_each_cause_on_own_line(msgs: Seq<Seq<char>>, k: int)
    requires
        0 <= k < msgs.len(),
    ensures
        exists|start: int|
            #[trigger] is_line_at(join_with(msgs, seq!['\n']), msgs[k], start),
    decreases msgs.len(),
{
    let nl = seq!['\n'];
    let s = join_with(msgs, nl);
    if msgs.len() == 1 {
        assert(s == msgs[0]);
        assert(s.subrange(0, msgs[0].len() as int) =~= msgs[0]);
        assert(is_line_at(join_with(msgs, seq!['\n']), msgs[k], 0));
    } else {
        let head = msgs[0];
        let tail = msgs.drop_first();
        let rest = join_with(tail, nl);
        assert(s == head + nl + rest);
        if k == 0 {
            assert(s.subrange(0, head.len() as int) =~= head);
            assert(s[head.len() as int] == '\n');
            assert(is_line_at(join_with(msgs, seq!['\n']), msgs[0], 0));
        } else {
            lemma_multi_line_each_cause_on_own_line(tail, k - 1);
            assert(tail[k - 1] == msgs[k]);
            let start0 = choose|start0: int| #[trigger] is_line_at(rest, tail[k - 1], start0);
            assert(is_line_at(rest, tail[k - 1], start0));
            let start = start0 + head.len() + 1;
            assert(s.subrange(start, start + msgs[k].len() as int) =~= rest.subrange(
                start0,
                start0 + msgs[k].len() as int,
            ));
            if start0 == 0 {
                assert(s[start - 1] == '\n');
            } else {
                assert(s[start - 1] == rest[start0 - 1]);
            }
            if start0 + msgs[k].len() < rest.len() {
                assert(s[start + msgs[k].len() as int] == rest[start0 + msgs[k].len() as int]);
            }
            assert(is_line_at(join_with(msgs, seq!['\n']), msgs[k], start));
        }
    }
}

} // verus!
