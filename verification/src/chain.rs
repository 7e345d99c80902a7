//! Chains of monitored calls, as the contracts of `CallerContext` and
//! `Tracker` make them behave, and what holds of every chain.
//!
//! A chain is one logical sequence of execution: a thread, or a task that
//! may be suspended and resumed. Its calls nest. `Chain` follows what the
//! chain's context holds, which values the calls in progress will restore,
//! and which caller each call recorded.

use crate::caller_context::{entered, exchanged, left};
use vstd::prelude::*;

verus! {

/// One event of a chain: a monitored call is entered, or the innermost call
/// in progress is left.
pub enum Step {
    Enter { name: Seq<char> },
    Exit,
}

/// The state of a chain.
pub struct Chain {
    /// What the chain's context holds.
    pub slot: Seq<char>,
    /// The values that the calls in progress restore when they are left,
    /// innermost last.
    pub tokens: Seq<Seq<char>>,
    /// The caller that each call recorded at its entry, oldest first.
    pub callers: Seq<Seq<char>>,
}

impl Chain {
    /// A chain with no call in progress whose context holds `slot`.
    pub open spec fn start(slot: Seq<char>) -> Chain {
        Chain { slot, tokens: Seq::empty(), callers: Seq::empty() }
    }

    /// Entry of a call named `name`, as `Tracker::enter` does it: the
    /// call records what the context held as its caller and keeps it to
    /// restore, and the context holds `name`.
    pub open spec fn enter(self, name: Seq<char>) -> Chain {
        let (slot, token) = entered(self.slot, name);
        Chain { slot, tokens: self.tokens.push(token), callers: self.callers.push(token) }
    }

    /// Exit of the innermost call in progress, as `Tracker::complete` does
    /// it: the context holds again what the call kept. With no call in
    /// progress nothing changes.
    pub open spec fn exit(self) -> Chain {
        if self.tokens.len() > 0 {
            Chain {
                slot: left(self.slot, self.tokens.last()),
                tokens: self.tokens.drop_last(),
                callers: self.callers,
            }
        } else {
            self
        }
    }

    pub open spec fn step(self, step: Step) -> Chain {
        match step {
            Step::Enter { name } => self.enter(name),
            Step::Exit => self.exit(),
        }
    }

    /// The chain after `steps`, taken in order.
    pub open spec fn run(self, steps: Seq<Step>) -> Chain
        decreases steps.len(),
    {
        if steps.len() == 0 {
            self
        } else {
            self.run(steps.drop_last()).step(steps.last())
        }
    }
}

/// The names of the calls in progress after `steps`, outermost first.
pub open spec fn in_progress(steps: Seq<Step>) -> Seq<Seq<char>>
    decreases steps.len(),
{
    if steps.len() == 0 {
        Seq::empty()
    } else {
        let before = in_progress(steps.drop_last());
        match steps.last() {
            Step::Enter { name } => before.push(name),
            Step::Exit => if before.len() > 0 {
                before.drop_last()
            } else {
                before
            },
        }
    }
}

/// No step of `steps` leaves a call where none is in progress.
pub open spec fn well_nested(steps: Seq<Step>) -> bool {
    forall|k: int|
        0 <= k < steps.len() && steps[k] is Exit ==> #[trigger] in_progress(steps.take(k)).len() > 0
}

/// The name of the innermost call in progress after `steps`, or `root`
/// where none is in progress.
pub open spec fn innermost(root: Seq<char>, steps: Seq<Step>) -> Seq<char> {
    if in_progress(steps).len() == 0 {
        root
    } else {
        in_progress(steps).last()
    }
}

/// A prefix of well nested steps is well nested.
proof fn lemma_prefix_is_well_nested(steps: Seq<Step>, length: int)
    requires
        well_nested(steps),
        0 <= length <= steps.len(),
    ensures
        well_nested(steps.take(length)),
{
    let prefix = steps.take(length);
    assert forall|k: int| 0 <= k < prefix.len() && prefix[k] is Exit implies #[trigger] in_progress(
        prefix.take(k),
    ).len() > 0 by {
        assert(prefix.take(k) == steps.take(k));
    }
}

/// What a context that held `root` before `steps` holds after them: the
/// name of the innermost call in progress, and `root` again once every call
/// has been left. Each call in progress will restore the name of the call
/// that encloses it, and the outermost one will restore `root`.
pub proof fn lemma_context_follows_nesting(root: Seq<char>, steps: Seq<Step>)
    requires
        well_nested(steps),
    ensures
        Chain::start(root).run(steps).slot == innermost(root, steps),
        Chain::start(root).run(steps).tokens.len() == in_progress(steps).len(),
        forall|i: int|
            0 <= i < in_progress(steps).len() ==> #[trigger] Chain::start(root).run(steps).tokens[i]
                == (if i == 0 {
                root
            } else {
                in_progress(steps)[i - 1]
            }),
    decreases steps.len(),
{
    if steps.len() > 0 {
        let before = steps.drop_last();
        lemma_prefix_is_well_nested(steps, steps.len() - 1);
        lemma_context_follows_nesting(root, before);
    }
}

/// A call records as its caller the innermost monitored call in progress at
/// its entry. Called with none in progress, from a chain whose context was
/// empty at the start, it records the empty string.
pub proof fn lemma_caller_is_enclosing_call(root: Seq<char>, steps: Seq<Step>, name: Seq<char>)
    requires
        well_nested(steps),
    ensures
        Chain::start(root).run(steps.push(Step::Enter { name })).callers.last() == innermost(
            root,
            steps,
        ),
        in_progress(steps).len() == 0 && root.len() == 0 ==> Chain::start(root).run(
            steps.push(Step::Enter { name }),
        ).callers.last().len() == 0,
{
    lemma_context_follows_nesting(root, steps);
    let all = steps.push(Step::Enter { name });
    assert(all.drop_last() == steps);
}

/// Where a monitored call `outer` calls a monitored call `inner`, `inner`
/// records `outer` as its caller; called on its own, it records the empty
/// string.
pub proof fn lemma_caller_propagation(outer: Seq<char>, inner: Seq<char>)
    ensures
        Chain::start(Seq::empty()).enter(outer).enter(inner).callers.last() == outer,
        Chain::start(Seq::empty()).enter(inner).callers.last() == Seq::<char>::empty(),
{
}

/// Calls that a chain makes and leaves do not disturb what was in progress
/// before them: the steps run as they would from a fresh start with the
/// same context, on top of the tokens and callers that the chain had.
pub proof fn lemma_nested_steps_keep_the_rest(chain: Chain, steps: Seq<Step>)
    requires
        well_nested(steps),
    ensures
        chain.run(steps).slot == Chain::start(chain.slot).run(steps).slot,
        chain.run(steps).tokens == chain.tokens + Chain::start(chain.slot).run(steps).tokens,
        chain.run(steps).callers == chain.callers + Chain::start(chain.slot).run(steps).callers,
    decreases steps.len(),
{
    if steps.len() > 0 {
        let before = steps.drop_last();
        lemma_prefix_is_well_nested(steps, steps.len() - 1);
        lemma_nested_steps_keep_the_rest(chain, before);
        lemma_context_follows_nesting(chain.slot, before);
    }
}

/// Once the calls that a chain made have all been left, its context holds
/// again what it held before the first of them was entered, and the calls
/// that were in progress before still restore what they would have.
pub proof fn lemma_calls_restore_the_context(chain: Chain, steps: Seq<Step>)
    requires
        well_nested(steps),
        in_progress(steps).len() == 0,
    ensures
        chain.run(steps).slot == chain.slot,
        chain.run(steps).tokens == chain.tokens,
{
    lemma_nested_steps_keep_the_rest(chain, steps);
    lemma_context_follows_nesting(chain.slot, steps);
}

/// Every call in progress after `steps` has a name, where every call that
/// was entered has one.
proof fn lemma_calls_in_progress_are_named(steps: Seq<Step>)
    requires
        forall|k: int|
            0 <= k < steps.len() ==> ((#[trigger] steps[k]) matches Step::Enter { name } ==> name.len()
                > 0),
    ensures
        forall|i: int| 0 <= i < in_progress(steps).len() ==> (#[trigger] in_progress(steps)[i]).len() > 0,
    decreases steps.len(),
{
    if steps.len() > 0 {
        let before = steps.drop_last();
        assert forall|k: int| 0 <= k < before.len() implies ((#[trigger] before[k]) matches Step::Enter {
            name,
        } ==> name.len() > 0) by {
            assert(before[k] == steps[k]);
        }
        lemma_calls_in_progress_are_named(before);
        let named = in_progress(before);
        assert forall|i: int| 0 <= i < in_progress(steps).len() implies (#[trigger] in_progress(
            steps,
        )[i]).len() > 0 by {
            if i < named.len() {
                assert(in_progress(steps)[i] == named[i]);
            } else {
                assert(steps.last() == steps[steps.len() - 1]);
            }
        }
    }
}

/// In a chain that started with an empty context and whose calls all have
/// names, a call records an empty caller exactly where it is the outermost
/// call: where no monitored call was in progress at its entry.
pub proof fn lemma_empty_caller_is_outermost(steps: Seq<Step>, name: Seq<char>)
    requires
        well_nested(steps),
        forall|k: int|
            0 <= k < steps.len() ==> ((#[trigger] steps[k]) matches Step::Enter { name } ==> name.len()
                > 0),
    ensures
        Chain::start(Seq::empty()).run(steps.push(Step::Enter { name })).callers.last().len() == 0
            <==> in_progress(steps).len() == 0,
{
    lemma_caller_is_enclosing_call(Seq::empty(), steps, name);
    lemma_calls_in_progress_are_named(steps);
}

/// A worker on which chains take turns. While a chain is suspended its
/// context is saved with the chain, and the worker's slot holds what
/// belongs to the worker or to whoever runs on it.
pub struct Worker {
    /// What the worker's slot holds.
    pub slot: Seq<char>,
    /// The chains that run on the worker, each with its saved context.
    pub chains: Map<int, Chain>,
}

/// One turn of a chain on a worker: the chain resumes, takes `steps`, and
/// is suspended.
pub struct Turn {
    pub chain: int,
    pub steps: Seq<Step>,
}

impl Worker {
    /// The worker after one turn. Resuming exchanges the worker's slot with
    /// the chain's saved context, as `CallerContext::exchange` does; the
    /// chain's calls then enter and leave on the worker's slot; suspending
    /// exchanges again.
    pub open spec fn turn(self, turn: Turn) -> Worker {
        if self.chains.dom().contains(turn.chain) {
            let chain = self.chains[turn.chain];
            let (slot, aside) = exchanged(self.slot, chain.slot);
            let ran = Chain { slot, tokens: chain.tokens, callers: chain.callers }.run(turn.steps);
            let (slot, saved) = exchanged(ran.slot, aside);
            Worker {
                slot,
                chains: self.chains.insert(
                    turn.chain,
                    Chain { slot: saved, tokens: ran.tokens, callers: ran.callers },
                ),
            }
        } else {
            self
        }
    }

    /// The worker after the turns of `schedule`, taken in order.
    pub open spec fn run(self, schedule: Seq<Turn>) -> Worker
        decreases schedule.len(),
    {
        if schedule.len() == 0 {
            self
        } else {
            self.run(schedule.drop_last()).turn(schedule.last())
        }
    }
}

/// The steps that `chain` takes in `schedule`, in order.
pub open spec fn steps_of(schedule: Seq<Turn>, chain: int) -> Seq<Step>
    decreases schedule.len(),
{
    if schedule.len() == 0 {
        Seq::empty()
    } else if schedule.last().chain == chain {
        steps_of(schedule.drop_last(), chain) + schedule.last().steps
    } else {
        steps_of(schedule.drop_last(), chain)
    }
}

/// Taking `first` and then `then` is taking the two in one run.
proof fn lemma_run_in_parts(chain: Chain, first: Seq<Step>, then: Seq<Step>)
    ensures
        chain.run(first + then) == chain.run(first).run(then),
    decreases then.len(),
{
    if then.len() > 0 {
        lemma_run_in_parts(chain, first, then.drop_last());
        assert((first + then).drop_last() == first + then.drop_last());
    }
}

/// Chains that share a worker do not see each other: whatever the turns
/// that other chains take in between, a chain ends where it would have
/// ended had it taken its own steps alone, with the same caller recorded
/// for each of its calls. The worker's slot holds after every schedule what
/// it held before.
pub proof fn lemma_chains_are_isolated(worker: Worker, schedule: Seq<Turn>, chain: int)
    requires
        worker.chains.dom().contains(chain),
    ensures
        worker.run(schedule).chains.dom().contains(chain),
        worker.run(schedule).chains[chain] == worker.chains[chain].run(steps_of(schedule, chain)),
        worker.run(schedule).slot == worker.slot,
    decreases schedule.len(),
{
    if schedule.len() > 0 {
        let before = schedule.drop_last();
        let turn = schedule.last();
        lemma_chains_are_isolated(worker, before, chain);
        if turn.chain == chain {
            lemma_run_in_parts(worker.chains[chain], steps_of(before, chain), turn.steps);
        }
    }
}

} // verus!
