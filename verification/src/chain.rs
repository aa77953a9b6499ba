//! The middleware chain as a state machine.
//!
//! Middleware functions run in registration order against the current
//! request/response pair.  Each one either lets the chain continue,
//! stops it without any response being sent on its behalf, or fails and
//! aborts the connection.  The embedding application owns the functions
//! themselves; this module owns every decision: which middleware runs
//! next, and whether dispatch to the route handler happens at all.

use crate::error::HttpError;
use vstd::prelude::*;

verus! {

/// What a middleware hands back when it succeeds: pass the pair on, or
/// stop the chain (any bytes already sent are the middleware's own
/// doing — stopping itself sends nothing).
#[derive(Clone, Copy, Debug, PartialEq, Eq, Structural)]
pub enum ChainOutcome {
    Continue,
    Stop,
}

/// One observed middleware result, as the state machine sees it.
#[derive(Clone, Copy, Debug, PartialEq, Eq, Structural)]
pub enum ChainStep {
    Continue,
    Stop,
    Fail,
}

/// The event a middleware's result denotes.
pub open spec fn step_of(r: Result<ChainOutcome, HttpError>) -> ChainStep {
    match r {
        Ok(ChainOutcome::Continue) => ChainStep::Continue,
        Ok(ChainOutcome::Stop) => ChainStep::Stop,
        Err(_) => ChainStep::Fail,
    }
}

/// The chain's progress: how many middleware slots exist, how many have
/// run and passed the pair on, and whether the chain was stopped or
/// failed.
pub struct ChainState {
    pub total: nat,
    pub next: nat,
    pub stopped: bool,
    pub failed: bool,
}

/// A fresh chain over `total` middleware slots.
pub open spec fn chain_init(total: nat) -> ChainState {
    ChainState { total, next: 0, stopped: false, failed: false }
}

/// Whether another middleware is due to run.
pub open spec fn chain_running(s: ChainState) -> bool {
    s.next < s.total && !s.stopped && !s.failed
}

/// One transition: while the chain runs, a `Continue` moves on to the
/// next middleware, a `Stop` halts the chain, a `Fail` aborts it; once
/// it no longer runs, nothing changes it.
pub open spec fn chain_step(s: ChainState, e: ChainStep) -> ChainState {
    if !chain_running(s) {
        s
    } else {
        match e {
            ChainStep::Continue => ChainState { next: s.next + 1, ..s },
            ChainStep::Stop => ChainState { stopped: true, ..s },
            ChainStep::Fail => ChainState { failed: true, ..s },
        }
    }
}

/// The state after a whole sequence of observed results.
pub open spec fn chain_run(total: nat, events: Seq<ChainStep>) -> ChainState
    decreases events.len(),
{
    if events.len() == 0 {
        chain_init(total)
    } else {
        chain_step(chain_run(total, events.drop_last()), events.last())
    }
}

/// Whether the chain completed normally, so that the route handler is
/// dispatched.
pub open spec fn chain_dispatches(s: ChainState) -> bool {
    s.next == s.total && !s.stopped && !s.failed
}

/// Middleware runs in registration order: after `k` middleware have
/// each passed the pair on, exactly the first `k` slots have run and
/// the chain stands at slot `k`.
pub proof fn lemma_chain_in_order(total: nat, events: Seq<ChainStep>, k: int)
    requires
        0 <= k <= events.len(),
        k <= total,
        forall|j: int| 0 <= j < k ==> (events[j] is Continue),
    ensures
        chain_run(total, events.take(k)) == (ChainState {
            total,
            next: k as nat,
            stopped: false,
            failed: false,
        }),
    decreases k,
{
    if k == 0 {
        assert(events.take(0) =~= Seq::<ChainStep>::empty());
    } else {
        lemma_chain_in_order(total, events, k - 1);
        assert(events.take(k).drop_last() =~= events.take(k - 1));
        assert(events.take(k).last() == events[k - 1]);
    }
}

/// Once the chain stands still, later events leave it untouched.
pub proof fn lemma_chain_stuck(total: nat, events: Seq<ChainStep>, k: int)
    requires
        0 <= k <= events.len(),
        !chain_running(chain_run(total, events.take(k))),
    ensures
        chain_run(total, events) == chain_run(total, events.take(k)),
    decreases events.len() - k,
{
    if k < events.len() {
        assert(events.take(k + 1).drop_last() =~= events.take(k));
        lemma_chain_stuck(total, events, k + 1);
    } else {
        assert(events.take(k) =~= events);
    }
}

/// A middleware that stops the chain prevents both the later middleware
/// and the route handler from running: after a `Stop` at slot `i`, the
/// chain never moves past slot `i` — whatever happens afterwards — and
/// dispatch does not take place.
pub proof fn lemma_stop_short_circuits(total: nat, events: Seq<ChainStep>, i: int)
    requires
        0 <= i < events.len(),
        i < total,
        forall|j: int| 0 <= j < i ==> (events[j] is Continue),
        (events[i] is Stop),
    ensures
        chain_run(total, events) == (ChainState {
            total,
            next: i as nat,
            stopped: true,
            failed: false,
        }),
        !chain_dispatches(chain_run(total, events)),
{
    lemma_chain_in_order(total, events, i);
    assert(events.take(i + 1).drop_last() =~= events.take(i));
    assert(events.take(i + 1).last() == events[i]);
    lemma_chain_stuck(total, events, i + 1);
}

/// A chain in which every middleware passes the pair on runs them all
/// and then dispatches to the route handler.
pub proof fn lemma_continue_chain_dispatches(total: nat, events: Seq<ChainStep>)
    requires
        events.len() == total,
        forall|j: int| 0 <= j < events.len() ==> (events[j] is Continue),
    ensures
        chain_dispatches(chain_run(total, events)),
{
    lemma_chain_in_order(total, events, total as int);
    assert(events.take(total as int) =~= events);
}

/// The executable driver of one connection's middleware chain: the
/// embedding application asks it which middleware to run next, reports
/// each result back, and finally asks whether to dispatch.
pub struct ChainDriver {
    total: usize,
    next: usize,
    stopped: bool,
    failed: bool,
}

impl View for ChainDriver {
    type V = ChainState;

    /// The abstract chain state this driver is at.
    closed spec fn view(&self) -> ChainState {
        ChainState {
            total: self.total as nat,
            next: self.next as nat,
            stopped: self.stopped,
            failed: self.failed,
        }
    }
}

impl ChainDriver {
    /// A fresh chain over `total` middleware slots.
    pub fn new(total: usize) -> (r: ChainDriver)
        ensures
            r@ == chain_init(total as nat),
    {
        ChainDriver { total, next: 0, stopped: false, failed: false }
    }

    /// The slot of the middleware to run next, or none when the chain
    /// is finished, stopped or failed.
    pub fn current(&self) -> (r: Option<usize>)
        ensures
            match r {
                Some(i) => chain_running(self@) && i == self@.next,
                None => !chain_running(self@),
            },
    {
        if self.next < self.total && !self.stopped && !self.failed {
            Some(self.next)
        } else {
            None
        }
    }

    /// Feeds the running middleware's result into the machine.
    pub fn advance(&mut self, outcome: &Result<ChainOutcome, HttpError>)
        requires
            chain_running(old(self)@),
        ensures
            final(self)@ == chain_step(old(self)@, step_of(*outcome)),
    {
        match outcome {
            Ok(ChainOutcome::Continue) => {
                self.next = self.next + 1;
            },
            Ok(ChainOutcome::Stop) => {
                self.stopped = true;
            },
            Err(_) => {
                self.failed = true;
            },
        }
    }

    /// Whether the chain completed normally, so that the route handler
    /// should now be dispatched.
    pub fn should_dispatch(&self) -> (r: bool)
        ensures
            r == chain_dispatches(self@),
    {
        self.next == self.total && !self.stopped && !self.failed
    }
}

} // verus!
