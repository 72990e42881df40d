//! The debounced notifier: coalesces bursts of wake signals into at most
//! one action run per minimum interval.
//!
//! This module is the decision core of the limiter. The runner outside
//! the crate owns the clock and the background task: it calls `wake`
//! when the task observes the signal, runs the action and sleeps out the
//! period when `wake` says so, and calls `finish` afterwards. `execute`
//! only stores the signal, so callers never block, and signals arriving
//! while the action runs or the period sleeps collapse into one.

use vstd::prelude::*;

verus! {

/// The abstract state of a notifier.
pub struct NotifierModel {
    /// Whether the action is running or its period is being slept out.
    pub busy: bool,
    /// Whether a wake signal is stored.
    pub pending: bool,
    /// Whether the notifier was disposed.
    pub disposed: bool,
    /// How many action runs have started.
    pub runs: nat,
}

/// One thing that can happen to a notifier.
#[derive(Clone, Copy, Debug, PartialEq, Eq, Structural)]
pub enum NotifierEvent {
    /// A caller signals that the action should run soon.
    Execute,
    /// The background task looks for a stored signal; when it finds one
    /// and is not already busy, a run starts.
    Wake,
    /// The action finished and its minimum interval elapsed.
    Finish,
    /// The notifier is dropped and its task stopped.
    Dispose,
}

/// The state a notifier starts in.
pub open spec fn init_model() -> NotifierModel {
    NotifierModel { busy: false, pending: false, disposed: false, runs: 0 }
}

/// How one event moves the notifier. A signal is stored, never counted;
/// a wake starts a run only when idle with a signal stored; nothing has
/// any effect after disposal.
pub open spec fn step(s: NotifierModel, e: NotifierEvent) -> NotifierModel {
    match e {
        NotifierEvent::Execute => if s.disposed {
            s
        } else {
            NotifierModel { pending: true, ..s }
        },
        NotifierEvent::Wake => if s.disposed || s.busy || !s.pending {
            s
        } else {
            NotifierModel { pending: false, busy: true, runs: s.runs + 1, ..s }
        },
        NotifierEvent::Finish => NotifierModel { busy: false, ..s },
        NotifierEvent::Dispose => NotifierModel { disposed: true, ..s },
    }
}

/// The state after a whole sequence of events.
pub open spec fn run_trace(s: NotifierModel, tr: Seq<NotifierEvent>) -> NotifierModel
    decreases tr.len(),
{
    if tr.len() == 0 {
        s
    } else {
        run_trace(step(s, tr[0]), tr.skip(1))
    }
}

/// `k` copies of one event.
pub open spec fn repeat_event(e: NotifierEvent, k: nat) -> Seq<NotifierEvent>
    decreases k,
{
    if k == 0 {
        Seq::empty()
    } else {
        seq![e] + repeat_event(e, (k - 1) as nat)
    }
}

/// Utility to rate limit the number of times an action is run.
pub struct RateLimiter {
    busy: bool,
    pending: bool,
    disposed: bool,
    runs: Ghost<nat>,
}

impl View for RateLimiter {
    type V = NotifierModel;

    closed spec fn view(&self) -> NotifierModel {
        NotifierModel {
            busy: self.busy,
            pending: self.pending,
            disposed: self.disposed,
            runs: self.runs@,
        }
    }
}

impl RateLimiter {
    /// Creates a new rate limiter in its idle state.
    pub fn new() -> (r: RateLimiter)
        ensures
            r@ == init_model(),
    {
        RateLimiter { busy: false, pending: false, disposed: false, runs: Ghost(0) }
    }

    /// Signals that the action should run soon, and returns immediately.
    /// However often this is called, only the one stored signal remains.
    pub fn execute(&mut self)
        ensures
            final(self)@ == step(old(self)@, NotifierEvent::Execute),
    {
        if !self.disposed {
            self.pending = true;
        }
    }

    /// The background task checks for a stored signal. Returns whether a
    /// run starts now; at most one run is ever in flight.
    pub fn wake(&mut self) -> (started: bool)
        ensures
            final(self)@ == step(old(self)@, NotifierEvent::Wake),
            started == (!old(self)@.disposed && !old(self)@.busy && old(self)@.pending),
            started ==> final(self)@.runs == old(self)@.runs + 1,
            !started ==> final(self)@.runs == old(self)@.runs,
    {
        if self.disposed || self.busy || !self.pending {
            false
        } else {
            self.pending = false;
            self.busy = true;
            proof {
                self.runs@ = self.runs@ + 1;
            }
            true
        }
    }

    /// The action finished and the minimum interval has elapsed.
    pub fn finish(&mut self)
        ensures
            final(self)@ == step(old(self)@, NotifierEvent::Finish),
    {
        self.busy = false;
    }

    /// Stops the notifier: no later signal or wake has any effect.
    pub fn dispose(&mut self)
        ensures
            final(self)@ == step(old(self)@, NotifierEvent::Dispose),
    {
        self.disposed = true;
    }

    /// How many runs have started.
    pub open spec fn spec_runs(&self) -> nat {
        self@.runs
    }
}

/// A trace on a concatenation runs the two parts in order.
pub proof fn lemma_run_trace_concat(s: NotifierModel, a: Seq<NotifierEvent>, b: Seq<NotifierEvent>)
    ensures
        run_trace(s, a + b) == run_trace(run_trace(s, a), b),
    decreases a.len(),
{
    if a.len() == 0 {
        assert(a + b =~= b);
    } else {
        assert((a + b)[0] == a[0]);
        assert((a + b).skip(1) =~= a.skip(1) + b);
        lemma_run_trace_concat(step(s, a[0]), a.skip(1), b);
    }
}

/// Stored signals coalesce: any number of signals, one after another,
/// leaves exactly one stored signal and starts nothing.
pub proof fn lemma_executes_coalesce(s: NotifierModel, k: nat)
    requires
        !s.disposed,
        k > 0,
    ensures
        run_trace(s, repeat_event(NotifierEvent::Execute, k)) == (NotifierModel {
            pending: true,
            ..s
        }),
    decreases k,
{
    let s1 = NotifierModel { pending: true, ..s };
    assert(step(s, NotifierEvent::Execute) == s1);
    assert(repeat_event(NotifierEvent::Execute, k)[0] == NotifierEvent::Execute);
    assert(repeat_event(NotifierEvent::Execute, k).skip(1) =~= repeat_event(
        NotifierEvent::Execute,
        (k - 1) as nat,
    ));
    if k == 1 {
        assert(run_trace(s1, repeat_event(NotifierEvent::Execute, 0)) == s1);
    } else {
        lemma_executes_coalesce(s1, (k - 1) as nat);
        assert(NotifierModel { pending: true, ..s1 } == s1);
    }
}

/// The burst law. From idle, a signal whose wake starts a run, then any
/// number of further signals within the action's window, then the window
/// ending and the task waking again, runs the action exactly twice: the
/// burst never runs once per signal, and never goes unserved. A lone
/// signal with no burst behind it runs the action exactly once, and
/// either way the next wake after that starts nothing more.
pub proof fn lemma_burst_runs_twice(n: nat)
    requires
        n >= 1,
    ensures
        ({
            let tr = seq![NotifierEvent::Execute, NotifierEvent::Wake] + repeat_event(
                NotifierEvent::Execute,
                (n - 1) as nat,
            ) + seq![
                NotifierEvent::Finish,
                NotifierEvent::Wake,
                NotifierEvent::Finish,
                NotifierEvent::Wake,
            ];
            run_trace(init_model(), tr).runs == if n >= 2 {
                2nat
            } else {
                1nat
            }
        }),
{
    let head = seq![NotifierEvent::Execute, NotifierEvent::Wake];
    let mids = repeat_event(NotifierEvent::Execute, (n - 1) as nat);
    let tail = seq![
        NotifierEvent::Finish,
        NotifierEvent::Wake,
        NotifierEvent::Finish,
        NotifierEvent::Wake,
    ];
    let s0 = init_model();
    let s_head = run_trace(s0, head);
    assert(s_head == (NotifierModel { busy: true, pending: false, disposed: false, runs: 1nat }))
        by {
        let after_e = step(s0, NotifierEvent::Execute);
        let after_w = step(after_e, NotifierEvent::Wake);
        assert(head[0] == NotifierEvent::Execute);
        assert(head.skip(1) =~= seq![NotifierEvent::Wake]);
        assert(head.skip(1)[0] == NotifierEvent::Wake);
        assert(head.skip(1).skip(1) =~= Seq::<NotifierEvent>::empty());
        assert(run_trace(s0, head) == run_trace(after_e, head.skip(1)));
        assert(run_trace(after_e, head.skip(1)) == run_trace(after_w, head.skip(1).skip(1)));
        assert(run_trace(after_w, head.skip(1).skip(1)) == after_w);
    }
    let s_mid = run_trace(s_head, mids);
    if n >= 2 {
        lemma_executes_coalesce(s_head, (n - 1) as nat);
        assert(s_mid == (NotifierModel { busy: true, pending: true, disposed: false, runs: 1nat }));
    } else {
        assert(mids =~= Seq::<NotifierEvent>::empty());
        assert(s_mid == s_head);
    }
    let s_tail = run_trace(s_mid, tail);
    assert(s_tail.runs == if n >= 2 { 2nat } else { 1nat }) by {
        let t1 = step(s_mid, NotifierEvent::Finish);
        let t2 = step(t1, NotifierEvent::Wake);
        let t3 = step(t2, NotifierEvent::Finish);
        let t4 = step(t3, NotifierEvent::Wake);
        assert(tail[0] == NotifierEvent::Finish);
        assert(tail.skip(1) =~= seq![
            NotifierEvent::Wake,
            NotifierEvent::Finish,
            NotifierEvent::Wake,
        ]);
        assert(tail.skip(1)[0] == NotifierEvent::Wake);
        assert(tail.skip(1).skip(1) =~= seq![NotifierEvent::Finish, NotifierEvent::Wake]);
        assert(tail.skip(1).skip(1)[0] == NotifierEvent::Finish);
        assert(tail.skip(1).skip(1).skip(1) =~= seq![NotifierEvent::Wake]);
        assert(tail.skip(1).skip(1).skip(1)[0] == NotifierEvent::Wake);
        assert(tail.skip(1).skip(1).skip(1).skip(1) =~= Seq::<NotifierEvent>::empty());
        assert(run_trace(s_mid, tail) == run_trace(t1, tail.skip(1)));
        assert(run_trace(t1, tail.skip(1)) == run_trace(t2, tail.skip(1).skip(1)));
        assert(run_trace(t2, tail.skip(1).skip(1)) == run_trace(t3, tail.skip(1).skip(1).skip(1)));
        assert(run_trace(t3, tail.skip(1).skip(1).skip(1)) == run_trace(
            t4,
            tail.skip(1).skip(1).skip(1).skip(1),
        ));
        assert(run_trace(t4, tail.skip(1).skip(1).skip(1).skip(1)) == t4);
    }
    lemma_run_trace_concat(s0, head, mids);
    lemma_run_trace_concat(s0, head + mids, tail);
    assert(head + mids + tail =~= (head + mids) + tail);
}

/// Disposal is final: no trace of later events starts another run or
/// revives the notifier.
pub proof fn lemma_dispose_inert(s: NotifierModel, tr: Seq<NotifierEvent>)
    requires
        s.disposed,
    ensures
        run_trace(s, tr).runs == s.runs,
        run_trace(s, tr).disposed,
    decreases tr.len(),
{
    if tr.len() > 0 {
        lemma_dispose_inert(step(s, tr[0]), tr.skip(1));
    }
}

} // verus!
