//! Submission and finalization tracking: a submitted transaction moves
//! through `Submitted → IncludedInBlock → FinalizedSuccess`, with the
//! alternate terminal edges `Submitted → RejectedBeforeInclusion` and
//! `IncludedInBlock → FinalizedFailure`. Transitions are driven only by
//! status events the node reports; an event that fits no edge of the machine
//! is ignored, and a terminal state absorbs everything. A bounded wait that
//! runs out before a terminal state is reached is a finalization failure, not
//! an outcome.

use vstd::prelude::*;

use crate::errors::Failure;

verus! {

/// A status event observed for a submitted transaction: reported by the node,
/// except `TimedOut`, which the local bounded wait raises.
#[derive(Debug, Clone, PartialEq, Eq)]
pub enum WatchEvent {
    InBlock,
    FinalizedOk,
    FinalizedFail(String),
    Rejected(String),
    TimedOut,
}

/// The lifecycle state of one submission. `FinalizedSuccess`,
/// `FinalizedFailure` and `RejectedBeforeInclusion` are terminal; the reason
/// strings carry what the node reported.
#[derive(Debug, Clone, PartialEq, Eq)]
pub enum TransactionOutcome {
    Submitted,
    IncludedInBlock,
    FinalizedSuccess,
    FinalizedFailure(String),
    RejectedBeforeInclusion(String),
}

pub open spec fn spec_is_terminal(s: TransactionOutcome) -> bool {
    !(s is Submitted || s is IncludedInBlock)
}

/// One transition of the machine: exactly the edges of the lifecycle, with
/// terminal states absorbing and every event that fits no edge ignored. In
/// particular a finalization event arriving while still `Submitted` is
/// ignored: finalization is only ever reached through inclusion.
pub open spec fn spec_step(s: TransactionOutcome, e: WatchEvent) -> TransactionOutcome {
    match s {
        TransactionOutcome::Submitted => match e {
            WatchEvent::InBlock => TransactionOutcome::IncludedInBlock,
            WatchEvent::Rejected(reason) => TransactionOutcome::RejectedBeforeInclusion(reason),
            _ => TransactionOutcome::Submitted,
        },
        TransactionOutcome::IncludedInBlock => match e {
            WatchEvent::FinalizedOk => TransactionOutcome::FinalizedSuccess,
            WatchEvent::FinalizedFail(reason) => TransactionOutcome::FinalizedFailure(reason),
            _ => TransactionOutcome::IncludedInBlock,
        },
        terminal => terminal,
    }
}

/// The state after a whole sequence of events, first event first.
pub open spec fn spec_run(s: TransactionOutcome, evs: Seq<WatchEvent>) -> TransactionOutcome
    decreases evs.len(),
{
    if evs.len() == 0 {
        s
    } else {
        spec_step(spec_run(s, evs.drop_last()), evs.last())
    }
}

/// What the blocking facade returns for a recorded event sequence: the first
/// terminal state reached, or a finalization failure if the wait timed out or
/// the events ran out before any terminal state.
pub open spec fn spec_watch_from(s: TransactionOutcome, evs: Seq<WatchEvent>) -> Result<
    TransactionOutcome,
    Failure,
>
    decreases evs.len(),
{
    if spec_is_terminal(s) {
        Ok(s)
    } else if evs.len() == 0 {
        Err(Failure::Finalization)
    } else if evs.first() is TimedOut {
        Err(Failure::Finalization)
    } else {
        spec_watch_from(spec_step(s, evs.first()), evs.drop_first())
    }
}

/// Applies one event to a lifecycle state.
pub fn step(s: TransactionOutcome, e: WatchEvent) -> (r: TransactionOutcome)
    ensures
        r == spec_step(s, e),
{
    match s {
        TransactionOutcome::Submitted => match e {
            WatchEvent::InBlock => TransactionOutcome::IncludedInBlock,
            WatchEvent::Rejected(reason) => TransactionOutcome::RejectedBeforeInclusion(reason),
            _ => TransactionOutcome::Submitted,
        },
        TransactionOutcome::IncludedInBlock => match e {
            WatchEvent::FinalizedOk => TransactionOutcome::FinalizedSuccess,
            WatchEvent::FinalizedFail(reason) => TransactionOutcome::FinalizedFailure(reason),
            _ => TransactionOutcome::IncludedInBlock,
        },
        terminal => terminal,
    }
}

pub fn is_terminal(s: &TransactionOutcome) -> (r: bool)
    ensures
        r == spec_is_terminal(*s),
{
    match s {
        TransactionOutcome::Submitted => false,
        TransactionOutcome::IncludedInBlock => false,
        _ => true,
    }
}

/// Tracks one submission while the caller feeds it the events it observes.
pub struct Watcher {
    state: TransactionOutcome,
}

impl Watcher {
    pub closed spec fn spec_state(&self) -> TransactionOutcome {
        self.state
    }

    /// A fresh watcher: the transaction was just submitted.
    pub fn new() -> (r: Self)
        ensures
            r.spec_state() == TransactionOutcome::Submitted,
    {
        Watcher { state: TransactionOutcome::Submitted }
    }

    /// Feeds one observed event into the machine.
    pub fn on_event(&mut self, e: WatchEvent)
        ensures
            final(self).spec_state() == spec_step(old(self).spec_state(), e),
    {
        let mut taken = TransactionOutcome::Submitted;
        core::mem::swap(&mut taken, &mut self.state);
        self.state = step(taken, e);
    }

    /// The current state.
    pub fn state(&self) -> (r: &TransactionOutcome)
        ensures
            *r == self.spec_state(),
    {
        &self.state
    }

    pub fn done(&self) -> (r: bool)
        ensures
            r == spec_is_terminal(self.spec_state()),
    {
        is_terminal(&self.state)
    }
}

/// The blocking facade over a recorded event sequence: folds the machine over
/// the events until a terminal state, a timeout, or the end of the events.
pub fn watch(events: Vec<WatchEvent>) -> (r: Result<TransactionOutcome, Failure>)
    ensures
        r == spec_watch_from(TransactionOutcome::Submitted, events@),
{
    let mut state = TransactionOutcome::Submitted;
    let mut rest = events;
    while !is_terminal(&state) && rest.len() > 0
        invariant
            spec_watch_from(state, rest@) == spec_watch_from(
                TransactionOutcome::Submitted,
                events@,
            ),
        decreases rest@.len(),
    {
        let e = rest.remove(0);
        if matches!(e, WatchEvent::TimedOut) {
            return Err(Failure::Finalization);
        }
        state = step(state, e);
    }
    if is_terminal(&state) {
        Ok(state)
    } else {
        Err(Failure::Finalization)
    }
}

/// A single step reaches `FinalizedSuccess` only out of `IncludedInBlock` (or
/// by staying there once reached).
pub proof fn lemma_success_needs_inclusion(s: TransactionOutcome, e: WatchEvent)
    requires
        spec_step(s, e) is FinalizedSuccess,
    ensures
        s is IncludedInBlock || s is FinalizedSuccess,
{
}

/// Terminal states absorb: once a submission has its terminal outcome, no
/// further event changes it.
pub proof fn lemma_terminal_absorbs(s: TransactionOutcome, e: WatchEvent)
    requires
        spec_is_terminal(s),
    ensures
        spec_step(s, e) == s,
{
}

/// Peeling the first event off a run: folding the whole sequence equals
/// stepping once and folding the rest.
proof fn lemma_run_peels_first(s: TransactionOutcome, evs: Seq<WatchEvent>)
    requires
        evs.len() > 0,
    ensures
        spec_run(s, evs) == spec_run(spec_step(s, evs.first()), evs.drop_first()),
    decreases evs.len(),
{
    if evs.len() == 1 {
        assert(evs.drop_last() =~= Seq::<WatchEvent>::empty());
        assert(evs.drop_first() =~= Seq::<WatchEvent>::empty());
    } else {
        let head = evs.drop_last();
        lemma_run_peels_first(s, head);
        assert(head.first() == evs.first());
        assert(head.drop_first() =~= evs.drop_first().drop_last());
        assert(evs.drop_first().last() == evs.last());
    }
}

/// Whatever outcome the blocking facade reports was really reached: it is the
/// state of the machine after some prefix of the observed events.
pub proof fn lemma_watch_reports_a_reached_state(s: TransactionOutcome, evs: Seq<WatchEvent>)
    requires
        spec_watch_from(s, evs) is Ok,
    ensures
        exists|i: int|
            0 <= i <= evs.len() && Ok::<TransactionOutcome, Failure>(
                spec_run(s, #[trigger] evs.take(i)),
            ) == spec_watch_from(s, evs),
    decreases evs.len(),
{
    if spec_is_terminal(s) {
        assert(evs.take(0) =~= Seq::<WatchEvent>::empty());
        assert(spec_run(s, evs.take(0)) == s);
    } else {
        let s2 = spec_step(s, evs.first());
        let rest = evs.drop_first();
        lemma_watch_reports_a_reached_state(s2, rest);
        let j = choose|j: int|
            0 <= j <= rest.len() && Ok::<TransactionOutcome, Failure>(
                spec_run(s2, #[trigger] rest.take(j)),
            ) == spec_watch_from(s2, rest);
        assert(evs.take(j + 1).first() == evs.first());
        assert(evs.take(j + 1).drop_first() =~= rest.take(j));
        lemma_run_peels_first(s, evs.take(j + 1));
        assert(spec_run(s, evs.take(j + 1)) == spec_run(s2, rest.take(j)));
    }
}

/// A run that ends `FinalizedSuccess` observed `IncludedInBlock` on the way:
/// after some prefix of the events the transaction stood included in a block.
/// No event sequence moves a submission straight to success.
pub proof fn lemma_success_implies_inclusion(evs: Seq<WatchEvent>)
    requires
        spec_run(TransactionOutcome::Submitted, evs) is FinalizedSuccess,
    ensures
        exists|i: int|
            0 <= i <= evs.len() && spec_run(TransactionOutcome::Submitted, #[trigger] evs.take(i))
                is IncludedInBlock,
    decreases evs.len(),
{
    let s0 = TransactionOutcome::Submitted;
    if evs.len() == 0 {
        assert(spec_run(s0, evs) == s0);
    } else {
        let head = evs.drop_last();
        let prev = spec_run(s0, head);
        lemma_success_needs_inclusion(prev, evs.last());
        if prev is FinalizedSuccess {
            lemma_success_implies_inclusion(head);
            let i = choose|i: int|
                0 <= i <= head.len() && spec_run(s0, #[trigger] head.take(i)) is IncludedInBlock;
            assert(head.take(i) =~= evs.take(i));
            assert(spec_run(s0, evs.take(i)) is IncludedInBlock);
        } else {
            let i = evs.len() - 1;
            assert(evs.take(i) =~= head);
            assert(spec_run(s0, evs.take(i)) is IncludedInBlock);
        }
    }
}

/// The blocking facade cannot report success for a transaction that was never
/// seen in a block: if it returns `FinalizedSuccess`, some prefix of the
/// observed events had already put the transaction in `IncludedInBlock`.
pub proof fn lemma_watch_success_implies_inclusion(evs: Seq<WatchEvent>)
    requires
        spec_watch_from(TransactionOutcome::Submitted, evs) == Ok::<
            TransactionOutcome,
            Failure,
        >(TransactionOutcome::FinalizedSuccess),
    ensures
        exists|i: int|
            0 <= i <= evs.len() && spec_run(TransactionOutcome::Submitted, #[trigger] evs.take(i))
                is IncludedInBlock,
{
    let s0 = TransactionOutcome::Submitted;
    lemma_watch_reports_a_reached_state(s0, evs);
    let n = choose|n: int|
        0 <= n <= evs.len() && Ok::<TransactionOutcome, Failure>(
            spec_run(s0, #[trigger] evs.take(n)),
        ) == spec_watch_from(s0, evs);
    lemma_success_implies_inclusion(evs.take(n));
    let i = choose|i: int|
        0 <= i <= evs.take(n).len() && spec_run(s0, #[trigger] evs.take(n).take(i))
            is IncludedInBlock;
    assert(evs.take(n).take(i) =~= evs.take(i));
}

} // verus!
