use vstd::prelude::*;

use crate::error::FileError;
use crate::metadata::{decode_stream, encode_header_form, spec_decode_stream};
use crate::naming::{resolve, spec_resolve};

verus! {

/// One announcement from the proxy: a remote party wants to open a byte
/// stream to this instance.  Produced by one poll, consumed by exactly
/// one connection attempt.
#[derive(Debug, Clone)]
pub struct SocketTask {
    /// The announcement's identifier, quoted when upgrading it.
    pub id: String,
    /// The sending endpoint's identifier.
    pub from: String,
    /// The stream-embedded metadata text carried with the announcement.
    pub metadata: String,
}

/// What the receive side does with each incoming file.
#[derive(Debug, Clone)]
pub enum ReceiveMode {
    /// Copy every stream to standard output.
    Print,
    /// Save every stream under a name the template resolves to.
    Save { outdir: String, naming: String },
    /// Forward every stream to an HTTP endpoint.
    Callback { url: String },
}

/// The decided handling of one received file: everything the
/// byte-copying edge needs, with no decision left to it.
#[derive(Debug, Clone)]
pub enum DispatchPlan {
    /// Copy the stream to standard output.
    Print,
    /// Create the file at this path and copy the stream into it.
    Save { path: String },
    /// POST the stream to this URL, under these header values.
    Forward { url: String, filename: Option<String>, metadata: Option<String> },
}

/// The path a saved file goes to: the output directory, a separator,
/// and the resolved name.
pub open spec fn spec_save_path(
    outdir: Seq<char>,
    naming: Seq<char>,
    origin: Seq<char>,
    now: nat,
    name: Option<Seq<char>>,
) -> Seq<char> {
    outdir + seq!['/'] + spec_resolve(naming, origin, now, name)
}

/// Decides the handling of one received file.  Printing needs no
/// metadata; saving and forwarding decode the announcement's metadata
/// text first, and a text that does not decode rejects this one file.
pub fn plan_dispatch(mode: &ReceiveMode, task: &SocketTask, now: u64) -> (r: Result<
    DispatchPlan,
    FileError,
>)
    ensures
        match mode {
            ReceiveMode::Print => r is Ok && r->Ok_0 is Print,
            ReceiveMode::Save { outdir, naming } => {
                &&& (r is Ok <==> spec_decode_stream(task.metadata@) is Some)
                &&& (r is Ok ==> (r->Ok_0 matches DispatchPlan::Save { path } && path@
                    == spec_save_path(
                    outdir@,
                    naming@,
                    task.from@,
                    now as nat,
                    (spec_decode_stream(task.metadata@)->0).name,
                )))
            },
            ReceiveMode::Callback { url } => {
                &&& (r is Ok <==> spec_decode_stream(task.metadata@) is Some)
                &&& (r is Ok ==> (r->Ok_0 matches DispatchPlan::Forward {
                    url: u,
                    filename,
                    metadata,
                } && {
                    let v = spec_decode_stream(task.metadata@)->0;
                    &&& u@ == url@
                    &&& (match filename {
                        Some(f) => Some(f@),
                        None => None,
                    }) == v.name
                    &&& (match metadata {
                        Some(x) => Some(x@),
                        None => None,
                    }) == v.meta
                }))
            },
        },
        r is Err ==> r->Err_0 == FileError::InvalidMetadata,
{
    match mode {
        ReceiveMode::Print => Ok(DispatchPlan::Print),
        ReceiveMode::Save { outdir, naming } => {
            let m = match decode_stream(task.metadata.as_str()) {
                Ok(m) => m,
                Err(e) => {
                    return Err(e);
                },
            };
            let name = resolve(
                naming.as_str(),
                task.from.as_str(),
                now,
                match &m.suggested_name {
                    Some(n) => Some(n.as_str()),
                    None => None,
                },
            );
            let mut path = outdir.clone();
            path.push('/');
            path.append(name.as_str());
            Ok(DispatchPlan::Save { path })
        },
        ReceiveMode::Callback { url } => {
            let m = match decode_stream(task.metadata.as_str()) {
                Ok(m) => m,
                Err(e) => {
                    return Err(e);
                },
            };
            let (filename, metadata) = encode_header_form(&m);
            Ok(DispatchPlan::Forward { url: url.clone(), filename, metadata })
        },
    }
}

/// One poll's outcome, as the bounded loop's counting sees it: an
/// announcement was delivered, the poll came back empty, or it failed.
#[derive(Debug, Clone, PartialEq, Eq, Structural)]
pub enum PollOutcome {
    Delivered,
    Empty,
    Failed,
}

/// What the loop does after one poll.
#[derive(Debug, Clone, PartialEq, Eq, Structural)]
pub enum LoopAction {
    /// Connect and dispatch the delivered announcement.
    Dispatch,
    /// Report the failed poll and go on.
    Report,
    /// Nothing was pending; poll again.
    Idle,
}

/// One step of the bounded loop's counting: what is left of the bound
/// and what the loop does, after one poll's outcome.  A delivered
/// announcement and a failed poll each use one attempt; an empty poll
/// uses none.
pub open spec fn spec_note(remaining: nat, outcome: PollOutcome) -> (nat, LoopAction) {
    match outcome {
        PollOutcome::Delivered => ((remaining - 1) as nat, LoopAction::Dispatch),
        PollOutcome::Failed => ((remaining - 1) as nat, LoopAction::Report),
        PollOutcome::Empty => (remaining, LoopAction::Idle),
    }
}

/// The counting state of the bounded receive loop.  A delivered
/// announcement and a failed poll both count as one dispatch attempt
/// toward the bound; an empty poll counts nothing.  The loop polls only
/// while attempts remain.
pub struct ReceiveLoop {
    pub remaining: u32,
}

impl ReceiveLoop {
    /// A loop that will accept `count` dispatch attempts.
    pub fn new(count: u32) -> (s: Self)
        ensures
            s.remaining == count,
    {
        ReceiveLoop { remaining: count }
    }

    /// Whether the loop polls for another announcement: only while
    /// attempts remain.
    pub fn wants_more(&self) -> (b: bool)
        ensures
            b == (self.remaining > 0),
    {
        self.remaining > 0
    }

    /// Records one poll's outcome and decides the next action.  A
    /// delivered announcement is dispatched and a failed poll is
    /// reported, each using up one attempt — success or failure of the
    /// dispatch itself changes nothing; an empty poll uses none.
    pub fn note(&mut self, outcome: PollOutcome) -> (a: LoopAction)
        requires
            old(self).remaining > 0,
        ensures
            (final(self).remaining as nat, a) == spec_note(
                old(self).remaining as nat,
                outcome,
            ),
    {
        match outcome {
            PollOutcome::Delivered => {
                self.remaining = self.remaining - 1;
                LoopAction::Dispatch
            },
            PollOutcome::Failed => {
                self.remaining = self.remaining - 1;
                LoopAction::Report
            },
            PollOutcome::Empty => LoopAction::Idle,
        }
    }
}

/// How many of the given poll outcomes are dispatch attempts (delivered
/// or failed, not empty).
pub open spec fn non_empty_count(events: Seq<PollOutcome>) -> nat
    decreases events.len(),
{
    if events.len() == 0 {
        0
    } else {
        (if events[0] is Empty {
            0nat
        } else {
            1nat
        }) + non_empty_count(events.drop_first())
    }
}

/// The number of dispatch attempts a loop bounded at `n` makes over
/// this poll sequence: it polls only while `ReceiveLoop::wants_more`
/// allows and steps by `spec_note`, exactly as `ReceiveLoop::note`
/// promises to.
pub open spec fn attempts_of(n: nat, events: Seq<PollOutcome>) -> nat
    decreases events.len(),
{
    if n == 0 || events.len() == 0 {
        0
    } else {
        (if spec_note(n, events[0]).1 is Idle {
            0nat
        } else {
            1nat
        }) + attempts_of(spec_note(n, events[0]).0, events.drop_first())
    }
}

/// The number of polls the same loop issues over this poll sequence.
pub open spec fn polls_of(n: nat, events: Seq<PollOutcome>) -> nat
    decreases events.len(),
{
    if n == 0 || events.len() == 0 {
        0
    } else {
        1 + polls_of(spec_note(n, events[0]).0, events.drop_first())
    }
}

/// A loop bounded at `n` makes exactly `n` dispatch attempts whenever
/// the polls offer that many, and exactly as many as they offer
/// otherwise — failures included, never retried or extended.
pub proof fn lemma_exact_attempts(n: nat, events: Seq<PollOutcome>)
    ensures
        non_empty_count(events) >= n ==> attempts_of(n, events) == n,
        non_empty_count(events) < n ==> attempts_of(n, events) == non_empty_count(events),
    decreases events.len(),
{
    if n != 0 && events.len() != 0 {
        if events[0] is Empty {
            lemma_exact_attempts(n, events.drop_first());
        } else {
            lemma_exact_attempts((n - 1) as nat, events.drop_first());
        }
    }
}

/// Once the polls have offered the `n`th dispatch attempt, the loop
/// polls no further: whatever follows those events is never asked for.
pub proof fn lemma_no_poll_after_bound(n: nat, events: Seq<PollOutcome>, more: Seq<PollOutcome>)
    requires
        non_empty_count(events) >= n,
    ensures
        polls_of(n, events + more) == polls_of(n, events),
    decreases events.len(),
{
    if n == 0 {
    } else {
        assert(events.len() > 0);
        let all = events + more;
        assert(all[0] == events[0]);
        assert(all.drop_first() =~= events.drop_first() + more);
        if events[0] is Empty {
            lemma_no_poll_after_bound(n, events.drop_first(), more);
        } else {
            lemma_no_poll_after_bound((n - 1) as nat, events.drop_first(), more);
        }
    }
}

} // verus!
