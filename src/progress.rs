use vstd::prelude::*;
use crate::error::PipelineError;

verus! {

/// Bytes between two progress ticks of a download.
pub const TICK_BYTES: u64 = 524288;

/// Seconds between two heartbeats of the synchronization tool.
pub const HEARTBEAT_SECONDS: u64 = 2;

/// One event of a run, sent from the worker to the observer.
#[derive(Clone, Debug, PartialEq, Eq)]
pub enum ProgressEvent {
    /// A line of human-readable text.
    Log(String),
    /// Cumulative bytes transferred, and the total size (0 when unknown).
    Tick { downloaded: u64, total: u64 },
    /// The run succeeded with this exit code.
    Completed(i32),
    /// The run stopped on this error.
    Failed(PipelineError),
    /// The terminal sentinel: nothing follows it.
    Done,
}

/// The event that reports the outcome of a run.
pub open spec fn outcome_event(outcome: Result<i32, PipelineError>) -> ProgressEvent {
    match outcome {
        Ok(code) => ProgressEvent::Completed(code),
        Err(err) => ProgressEvent::Failed(err),
    }
}

/// No event of `s` is the terminal sentinel.
pub open spec fn no_sentinel(s: Seq<ProgressEvent>) -> bool {
    forall|i: int| 0 <= i < s.len() ==> !(#[trigger] s[i] is Done)
}

/// How many events of `s` are the terminal sentinel.
pub open spec fn sentinel_count(s: Seq<ProgressEvent>) -> nat
    decreases s.len(),
{
    if s.len() == 0 {
        0
    } else {
        sentinel_count(s.drop_last()) + if s.last() is Done { 1nat } else { 0nat }
    }
}

/// The producer side of a run's event stream. It keeps, as ghost state, every
/// event the run has emitted, and holds back the ones not yet handed out.
pub struct ProgressStream {
    pending: Vec<ProgressEvent>,
    closed: bool,
    emitted: Ghost<Seq<ProgressEvent>>,
}

impl ProgressStream {
    /// Every event emitted so far, in order.
    pub closed spec fn history(&self) -> Seq<ProgressEvent> {
        self.emitted@
    }

    /// The events emitted but not yet taken.
    pub closed spec fn backlog(&self) -> Seq<ProgressEvent> {
        self.pending@
    }

    /// Whether the terminal sentinel has been emitted.
    pub closed spec fn is_closed(&self) -> bool {
        self.closed
    }

    /// The sentinel is emitted once, as the last event, exactly when the
    /// stream is closed; the backlog is the tail of the history.
    pub closed spec fn wf(&self) -> bool {
        &&& self.pending@.len() <= self.emitted@.len()
        &&& self.pending@ == self.emitted@.subrange(
            self.emitted@.len() - self.pending@.len(),
            self.emitted@.len() as int,
        )
        &&& if self.closed {
            &&& self.emitted@.len() > 0
            &&& self.emitted@.last() is Done
            &&& no_sentinel(self.emitted@.drop_last())
        } else {
            no_sentinel(self.emitted@)
        }
    }

    /// An open stream with no events.
    pub fn new() -> (r: ProgressStream)
        ensures
            r.wf(),
            !r.is_closed(),
            r.history() == Seq::<ProgressEvent>::empty(),
            r.backlog() == Seq::<ProgressEvent>::empty(),
    {
        let r = ProgressStream { pending: Vec::new(), closed: false, emitted: Ghost(Seq::empty()) };
        assert(r.pending@ =~= r.emitted@.subrange(0, 0));
        r
    }

    /// Whether the terminal sentinel has been emitted.
    pub fn closed(&self) -> (r: bool)
        ensures
            r == self.is_closed(),
    {
        self.closed
    }

    /// Emits an event other than the sentinel.
    pub fn emit(&mut self, e: ProgressEvent)
        requires
            old(self).wf(),
            !old(self).is_closed(),
            !(e is Done),
        ensures
            final(self).wf(),
            !final(self).is_closed(),
            final(self).history() == old(self).history().push(e),
            final(self).backlog() == old(self).backlog().push(e),
    {
        self.pending.push(e);
        self.emitted = Ghost(self.emitted@.push(e));
        assert(self.emitted@.drop_last() =~= old(self).emitted@);
        assert(self.pending@ =~= self.emitted@.subrange(
            self.emitted@.len() - self.pending@.len(),
            self.emitted@.len() as int,
        ));
    }

    /// Emits a line of text.
    pub fn log(&mut self, text: String)
        requires
            old(self).wf(),
            !old(self).is_closed(),
        ensures
            final(self).wf(),
            !final(self).is_closed(),
            final(self).history() == old(self).history().push(ProgressEvent::Log(text)),
            final(self).backlog() == old(self).backlog().push(ProgressEvent::Log(text)),
    {
        self.emit(ProgressEvent::Log(text));
    }

    /// Ends the run: emits its outcome, then the terminal sentinel.
    pub fn finish(&mut self, outcome: Result<i32, PipelineError>)
        requires
            old(self).wf(),
            !old(self).is_closed(),
        ensures
            final(self).wf(),
            final(self).is_closed(),
            final(self).history() == old(self).history().push(outcome_event(outcome)).push(
                ProgressEvent::Done,
            ),
            final(self).backlog() == old(self).backlog().push(outcome_event(outcome)).push(
                ProgressEvent::Done,
            ),
    {
        let e = match outcome {
            Ok(code) => ProgressEvent::Completed(code),
            Err(err) => ProgressEvent::Failed(err),
        };
        self.emit(e);
        self.pending.push(ProgressEvent::Done);
        self.emitted = Ghost(self.emitted@.push(ProgressEvent::Done));
        self.closed = true;
        assert(self.pending@ =~= self.emitted@.subrange(
            self.emitted@.len() - self.pending@.len(),
            self.emitted@.len() as int,
        ));
    }

    /// Hands out the events not yet taken, oldest first.
    pub fn take_pending(&mut self) -> (r: Vec<ProgressEvent>)
        requires
            old(self).wf(),
        ensures
            final(self).wf(),
            r@ == old(self).backlog(),
            final(self).backlog() == Seq::<ProgressEvent>::empty(),
            final(self).history() == old(self).history(),
            final(self).is_closed() == old(self).is_closed(),
    {
        let mut r: Vec<ProgressEvent> = Vec::new();
        core::mem::swap(&mut r, &mut self.pending);
        assert(self.emitted@.subrange(self.emitted@.len() as int, self.emitted@.len() as int)
            =~= Seq::<ProgressEvent>::empty());
        r
    }
}

/// Without the sentinel, a history counts none of it.
proof fn lemma_no_sentinel_count(s: Seq<ProgressEvent>)
    requires
        no_sentinel(s),
    ensures
        sentinel_count(s) == 0,
    decreases s.len(),
{
    if s.len() > 0 {
        assert(no_sentinel(s.drop_last())) by {
            assert forall|i: int| 0 <= i < s.drop_last().len() implies !(
            #[trigger] s.drop_last()[i] is Done) by {
                assert(s.drop_last()[i] == s[i]);
            }
        }
        lemma_no_sentinel_count(s.drop_last());
        assert(!(s[s.len() - 1] is Done));
    }
}

/// A closed stream has emitted exactly one terminal sentinel, and it is the
/// last event; an open one has emitted none.
pub proof fn lemma_single_final_sentinel(p: ProgressStream)
    requires
        p.wf(),
    ensures
        p.is_closed() ==> sentinel_count(p.history()) == 1 && p.history().last() is Done,
        !p.is_closed() ==> sentinel_count(p.history()) == 0,
{
    if p.is_closed() {
        lemma_no_sentinel_count(p.history().drop_last());
    } else {
        lemma_no_sentinel_count(p.history());
    }
}

/// `h` is `h0` followed by one log event for each of `lines`, in order.
pub open spec fn emits(h0: Seq<ProgressEvent>, h: Seq<ProgressEvent>, lines: Seq<Seq<char>>) -> bool
    decreases lines.len(),
{
    if lines.len() == 0 {
        h == h0
    } else {
        h.len() > 0 && (h.last() matches ProgressEvent::Log(s) && s@ == lines.last()) && emits(
            h0,
            h.drop_last(),
            lines.drop_last(),
        )
    }
}

/// `h` is `h0` followed by one log event for each of `lines`, then the event
/// for outcome `o`, then the sentinel.
pub open spec fn emits_then_ends(
    h0: Seq<ProgressEvent>,
    h: Seq<ProgressEvent>,
    lines: Seq<Seq<char>>,
    o: Result<i32, PipelineError>,
) -> bool {
    &&& h.len() >= 2
    &&& h[h.len() - 2] == outcome_event(o)
    &&& h.last() is Done
    &&& emits(h0, h.subrange(0, h.len() - 2), lines)
}

/// `h` is `h0` followed by one log event for each of `lines`, then a failure
/// event whose error satisfies `f`, then the sentinel.
pub open spec fn emits_then_fails(
    h0: Seq<ProgressEvent>,
    h: Seq<ProgressEvent>,
    lines: Seq<Seq<char>>,
    f: spec_fn(PipelineError) -> bool,
) -> bool {
    &&& h.len() >= 2
    &&& (h[h.len() - 2] matches ProgressEvent::Failed(err) && f(err))
    &&& h.last() is Done
    &&& emits(h0, h.subrange(0, h.len() - 2), lines)
}

/// A list of lines built one at a time is the list written out.
pub proof fn lemma_lines(a: Seq<char>, b: Seq<char>, c: Seq<char>, d: Seq<char>, e: Seq<char>)
    ensures
        Seq::<Seq<char>>::empty().push(a).push(b) == seq![a, b],
        Seq::<Seq<char>>::empty().push(a).push(b).push(c) == seq![a, b, c],
        Seq::<Seq<char>>::empty().push(a).push(b).push(c).push(d) == seq![a, b, c, d],
        Seq::<Seq<char>>::empty().push(a).push(b).push(c).push(d).push(e) == seq![a, b, c, d, e],
{
    assert(Seq::<Seq<char>>::empty().push(a).push(b) =~= seq![a, b]);
    assert(Seq::<Seq<char>>::empty().push(a).push(b).push(c) =~= seq![a, b, c]);
    assert(Seq::<Seq<char>>::empty().push(a).push(b).push(c).push(d) =~= seq![a, b, c, d]);
    assert(Seq::<Seq<char>>::empty().push(a).push(b).push(c).push(d).push(e) =~= seq![
        a,
        b,
        c,
        d,
        e,
    ]);
}

/// Logs `text` on an open stream whose events since `h0` are the log lines
/// `lines`.
pub(crate) fn say(
    out: &mut ProgressStream,
    text: String,
    h0: Ghost<Seq<ProgressEvent>>,
    lines: Ghost<Seq<Seq<char>>>,
)
    requires
        old(out).wf(),
        !old(out).is_closed(),
        emits(h0@, old(out).history(), lines@),
    ensures
        final(out).wf(),
        !final(out).is_closed(),
        emits(h0@, final(out).history(), lines@.push(text@)),
{
    let ghost t = text@;
    let ghost h = out.history();
    out.log(text);
    proof {
        assert(out.history().drop_last() =~= h);
        assert(lines@.push(t).drop_last() =~= lines@);
    }
}

/// Ends a run whose events since `h0` are the log lines `lines`.
pub(crate) fn close(
    out: &mut ProgressStream,
    o: Result<i32, PipelineError>,
    h0: Ghost<Seq<ProgressEvent>>,
    lines: Ghost<Seq<Seq<char>>>,
)
    requires
        old(out).wf(),
        !old(out).is_closed(),
        emits(h0@, old(out).history(), lines@),
    ensures
        final(out).wf(),
        final(out).is_closed(),
        emits_then_ends(h0@, final(out).history(), lines@, o),
{
    let ghost h = out.history();
    out.finish(o);
    proof {
        assert(out.history().subrange(0, out.history().len() - 2) =~= h);
    }
}

/// Counts the bytes of one transfer and decides when to report them.
pub struct DownloadMeter {
    pub downloaded: u64,
    pub total: u64,
}

/// A tick is due after a chunk that took the count from `before` to
/// `after` when the count crossed or reached a multiple of the tick size,
/// or reached a known total. With an unknown total (0) ticks still come, by
/// byte count.
pub open spec fn tick_due(before: u64, after: u64, total: u64) -> bool {
    before / TICK_BYTES < after / TICK_BYTES || (total > 0 && after == total)
}

impl DownloadMeter {
    /// A meter for a transfer of `total` bytes (0 when the size is unknown).
    pub fn new(total: u64) -> (r: DownloadMeter)
        ensures
            r.downloaded == 0,
            r.total == total,
    {
        DownloadMeter { downloaded: 0, total }
    }

    /// Counts a chunk of `n` bytes; returns the tick to report, if one is due.
    pub fn record(&mut self, n: u64) -> (r: Option<ProgressEvent>)
        requires
            old(self).downloaded + n <= u64::MAX,
        ensures
            final(self).downloaded == old(self).downloaded + n,
            final(self).total == old(self).total,
            r == if tick_due(old(self).downloaded, final(self).downloaded, final(self).total) {
                Some(ProgressEvent::Tick { downloaded: final(self).downloaded, total: final(self).total })
            } else {
                None
            },
    {
        let before = self.downloaded;
        self.downloaded = self.downloaded + n;
        if before / TICK_BYTES < self.downloaded / TICK_BYTES || (self.total > 0 && self.downloaded
            == self.total) {
            Some(ProgressEvent::Tick { downloaded: self.downloaded, total: self.total })
        } else {
            None
        }
    }

    /// The report made once the transfer has ended: the bytes transferred and
    /// the total size as known.
    pub fn summary(&self) -> (r: ProgressEvent)
        ensures
            r == (ProgressEvent::Tick { downloaded: self.downloaded, total: self.total }),
    {
        ProgressEvent::Tick { downloaded: self.downloaded, total: self.total }
    }
}

/// The heartbeats emitted for a run of liveness observations, one per
/// interval: each observation that finds the tool alive, before any that has
/// found it gone, emits one.
pub open spec fn beats(obs: Seq<bool>) -> nat
    decreases obs.len(),
{
    if obs.len() == 0 {
        0
    } else if obs.drop_last().contains(false) || !obs.last() {
        beats(obs.drop_last())
    } else {
        beats(obs.drop_last()) + 1
    }
}

/// The liveness timer of a long-running tool: observed once per interval,
/// it emits a heartbeat while the tool is alive and stops for good at the
/// first observation that finds it gone.
pub struct Heartbeat {
    count: u64,
    stopped: bool,
    observed: Ghost<Seq<bool>>,
}

impl Heartbeat {
    /// The observations made so far.
    pub closed spec fn observations(&self) -> Seq<bool> {
        self.observed@
    }

    /// Heartbeats emitted so far.
    pub closed spec fn emitted(&self) -> nat {
        self.count as nat
    }

    pub closed spec fn is_stopped(&self) -> bool {
        self.stopped
    }

    pub closed spec fn wf(&self) -> bool {
        &&& self.count as nat == beats(self.observed@)
        &&& self.stopped == self.observed@.contains(false)
        &&& self.count as nat <= self.observed@.len()
    }

    /// A timer with nothing observed.
    pub fn new() -> (r: Heartbeat)
        ensures
            r.wf(),
            r.observations() == Seq::<bool>::empty(),
            r.emitted() == 0,
            !r.is_stopped(),
    {
        Heartbeat { count: 0, stopped: false, observed: Ghost(Seq::empty()) }
    }

    /// Whether the timer loop goes on.
    pub fn running(&self) -> (r: bool)
        ensures
            r == !self.is_stopped(),
    {
        !self.stopped
    }

    /// Records one observation of the tool's liveness. Returns the elapsed
    /// seconds to report when a heartbeat is due, and nothing once the tool
    /// has been seen gone.
    pub fn observe(&mut self, alive: bool) -> (r: Option<u64>)
        requires
            old(self).wf(),
            old(self).observations().len() < 0x7fff_ffff_ffff_ffff,
        ensures
            final(self).wf(),
            final(self).observations() == old(self).observations().push(alive),
            final(self).is_stopped() == (old(self).is_stopped() || !alive),
            final(self).is_stopped() ==> r is None && final(self).emitted() == old(self).emitted(),
            !final(self).is_stopped() ==> final(self).emitted() == old(self).emitted() + 1 && r
                == Some((final(self).emitted() * HEARTBEAT_SECONDS as nat) as u64),
    {
        let ghost prev = self.observed@;
        self.observed = Ghost(self.observed@.push(alive));
        assert(self.observed@.drop_last() =~= prev);
        assert(self.observed@.last() == alive);
        assert(self.observed@.contains(false) == (prev.contains(false) || !alive)) by {
            if prev.contains(false) {
                let j = choose|j: int| 0 <= j < prev.len() && prev[j] == false;
                assert(self.observed@[j] == false);
            }
            if !alive {
                assert(self.observed@[prev.len() as int] == false);
            }
            if self.observed@.contains(false) {
                let j = choose|j: int| 0 <= j < self.observed@.len() && self.observed@[j] == false;
                if j < prev.len() {
                    assert(prev[j] == false);
                }
            }
        }
        if self.stopped || !alive {
            self.stopped = true;
            None
        } else {
            self.count = self.count + 1;
            Some(self.count * HEARTBEAT_SECONDS)
        }
    }
}

/// Once an observation has found the tool gone, no later observation emits
/// a heartbeat: the count equals the count of the observations before it.
pub proof fn lemma_no_beat_after_exit(obs: Seq<bool>, k: int)
    requires
        0 <= k < obs.len(),
        obs[k] == false,
    ensures
        beats(obs) == beats(obs.take(k)),
    decreases obs.len(),
{
    if obs.len() == k + 1 {
        assert(obs.drop_last() =~= obs.take(k));
    } else {
        assert(obs.drop_last()[k] == false);
        assert(obs.drop_last().contains(false));
        lemma_no_beat_after_exit(obs.drop_last(), k);
        assert(obs.drop_last().take(k) =~= obs.take(k));
    }
}

/// A tool that has exited by the first observation gets no heartbeat at
/// all, whatever later observations say.
pub proof fn lemma_immediate_exit_no_beats(obs: Seq<bool>)
    requires
        obs.len() > 0,
        obs[0] == false,
    ensures
        beats(obs) == 0,
{
    lemma_no_beat_after_exit(obs, 0);
    assert(obs.take(0) =~= Seq::<bool>::empty());
}

} // verus!
