//! Generators.
//!
//! Generators allow repeatedly suspending the execution of a function,
//! returning a value to the caller, and resuming the suspended function
//! afterwards.
//!
//! The suspended half of a generator is, to its owner, nothing but a value:
//! an opaque token (in the machine, a parked stack; here, the body's state)
//! that one `resume` turns into the next yielded value and the next token.
//! That is how the body is modelled: a [`Body`] is the generator function
//! with one explicit state per suspension point, and the machinery around it
//! — the owner-side protocol of `resume`, the latching of termination, the
//! delivery of values in both directions — is verified over it. The
//! register-level switch that parks and revives a real stack is the
//! unverified driver's; it carries exactly the transitions written here.

use core::marker::PhantomData;

use vstd::prelude::*;

use crate::debug::StackId;
use crate::stack::GuardedStack;
use crate::stack::Stack;

verus! {

/// The two observable states of a generator.
#[derive(Debug, Clone, Copy, PartialEq, Eq, Structural)]
pub enum State {
    /// Generator can be resumed. This is the initial state.
    Runnable,
    /// Generator cannot be resumed. This is the state of the generator
    /// after the generator function has returned.
    Unavailable,
}

/// The body of a generator, written as a state machine: one state per
/// suspension point, one transition per resume.
///
/// `next` consumes the state parked at the current suspension point and the
/// value the owner passed to `resume`; it answers with the state parked at
/// the next suspension point and `Some` yielded value, or with `None` when
/// the body returns instead of suspending again. The transition is pinned
/// exactly by `next_spec`, so everything the generator promises about a
/// resume is promised about the body's own arithmetic.
pub trait Body<Input, Output>: Sized {
    /// The transition taken from this state on the given input.
    spec fn next_spec(self, input: Input) -> (Self, Option<Output>);

    /// Runs the body from this suspension point to the next one.
    fn next(self, input: Input) -> (r: (Self, Option<Output>))
        ensures
            r == self.next_spec(input),
    ;
}

/// Generator wraps a function and allows suspending its execution more than
/// once, returning a value each time.
///
/// The first `resume(input)` enters the body at its initial state; each
/// suspension hands `Some` output back to the owner, and each further
/// `resume` delivers the owner's next input at the suspension point. Once
/// the body returns, `resume` answers `None`, and answers `None` every time
/// after that.
pub struct Generator<Input, Output, S: Stack, F: Body<Input, Output>> {
    /// The stack the generator owns for its body to run on.
    pub stack: S,
    /// The registration of that stack with the memory-error detector.
    pub stack_id: StackId,
    /// The body, parked at its current suspension point; `None` once the
    /// body has returned.
    pub parked: Option<F>,
    /// Binds the input and output types the suspension protocol carries.
    pub phantom: PhantomData<(Input, Output)>,
}

impl<Input, Output, S: Stack, F: Body<Input, Output>> Generator<Input, Output, S, F> {
    /// Whether the body can still be resumed.
    pub open spec fn live(&self) -> bool {
        self.parked is Some
    }

    /// The observable state of the generator.
    pub open spec fn state_spec(&self) -> State {
        if self.live() {
            State::Runnable
        } else {
            State::Unavailable
        }
    }

    /// Creates a new generator on a guarded stack: should the body outgrow
    /// the stack, it faults on the guard page instead of silently
    /// overwriting what sits below the region.
    pub fn new(stack: S, f: F) -> (r: Generator<Input, Output, S, F>) where S: GuardedStack
        requires
            stack.wf(),
        ensures
            r.stack == stack,
            r.parked == Some(f),
            r.state_spec() == State::Runnable,
    {
        Generator::unsafe_new(stack, f)
    }

    /// Same as `new`, but does not ask the stack for a guard page. The name
    /// keeps the warning it has always carried: on an unguarded stack the
    /// caller answers for the body staying within bounds, a debt this model
    /// cannot collect.
    pub fn unsafe_new(stack: S, f: F) -> (r: Generator<Input, Output, S, F>)
        requires
            stack.wf(),
        ensures
            r.stack == stack,
            r.parked == Some(f),
            r.state_spec() == State::Runnable,
    {
        let stack_id = StackId::register(&stack);
        Generator { stack, stack_id, parked: Some(f), phantom: PhantomData }
    }

    /// Resumes the generator and returns the next value it yields.
    /// If the generator function has returned, returns `None`.
    ///
    /// A live generator takes exactly one transition of its body: the input
    /// is delivered to the parked suspension point, the yielded value comes
    /// back, and the body parks at its next suspension point — or, if it
    /// returned instead of yielding, the generator goes `Unavailable` and
    /// stays so.
    pub fn resume(&mut self, input: Input) -> (r: Option<Output>)
        ensures
            final(self).stack == old(self).stack,
            old(self).parked is None ==> r is None && final(self).parked is None,
            (old(self).parked matches Some(f) ==> ({
                let (parked2, out) = f.next_spec(input);
                &&& r == out
                &&& (out is Some ==> final(self).parked == Some(parked2))
                &&& (out is None ==> final(self).parked is None)
            })),
    {
        // Park nothing while the body runs: a body that fails to yield
        // leaves the generator unavailable rather than resumable mid-flight.
        let taken = self.parked.take();
        match taken {
            None => None,
            Some(f) => {
                let (parked2, out) = f.next(input);
                match out {
                    Some(o) => {
                        self.parked = Some(parked2);
                        Some(o)
                    },
                    None => None,
                }
            },
        }
    }

    /// Returns the state of the generator.
    pub fn state(&self) -> (r: State)
        ensures
            r == self.state_spec(),
    {
        if self.parked.is_some() {
            State::Runnable
        } else {
            State::Unavailable
        }
    }

    /// Extracts the stack from a generator whose function has returned.
    /// A still-runnable generator cannot give its stack up this way; its
    /// body is parked on that very stack.
    pub fn unwrap(self) -> (r: S)
        requires
            self.state_spec() == State::Unavailable,
        ensures
            r == self.stack,
    {
        let Generator { stack, stack_id, parked, phantom } = self;
        stack
    }

    /// Extracts the stack without checking whether the generator function
    /// has returned, skipping the forced unwind a drop would perform: the
    /// parked body is abandoned where it stands and its destructors never
    /// run. The name keeps the warning it has always carried.
    pub fn unsafe_unwrap(self) -> (r: S)
        ensures
            r == self.stack,
    {
        let Generator { stack, stack_id, parked, phantom } = self;
        stack
    }
}

impl<Output, S: Stack, F: Body<(), Output>> Generator<(), Output, S, F> {
    /// The lazy-sequence interface of a generator that needs no input:
    /// `next()` is `resume(())`.
    pub fn next(&mut self) -> (r: Option<Output>)
        ensures
            final(self).stack == old(self).stack,
            old(self).parked is None ==> r is None && final(self).parked is None,
            (old(self).parked matches Some(f) ==> ({
                let (parked2, out) = f.next_spec(());
                &&& r == out
                &&& (out is Some ==> final(self).parked == Some(parked2))
                &&& (out is None ==> final(self).parked is None)
            })),
    {
        self.resume(())
    }
}

/// The answers a generator gives over a whole run: starting from a body
/// parked at `parked` (or from a terminated generator, when `parked` is
/// absent) and feeding it one input per resume, position `k` holds what the
/// `k`-th resume returns. This is exactly the sequence of results of
/// consecutive [`Generator::resume`] calls, by that function's contract.
pub open spec fn gen_run<Input, Output, F: Body<Input, Output>>(
    parked: Option<F>,
    inputs: Seq<Input>,
) -> Seq<Option<Output>>
    decreases inputs.len(),
{
    if inputs.len() == 0 {
        Seq::empty()
    } else {
        match parked {
            None => seq![None] + gen_run(None::<F>, inputs.drop_first()),
            Some(f) => {
                let (parked2, out) = f.next_spec(inputs[0]);
                let next: Option<F> = if out is Some {
                    Some(parked2)
                } else {
                    None
                };
                seq![out] + gen_run(next, inputs.drop_first())
            },
        }
    }
}

/// How many resumes of a run yielded a value.
pub open spec fn count_yields<Output>(outs: Seq<Option<Output>>) -> nat
    decreases outs.len(),
{
    if outs.len() == 0 {
        0nat
    } else {
        (if outs[0] is Some {
            1nat
        } else {
            0nat
        }) + count_yields(outs.drop_first())
    }
}

/// One step of a run is one resume: the first answer is what
/// [`Generator::resume`] promises for the first input, and the rest of the
/// run continues from the state that resume parks.
pub proof fn lemma_gen_run_unfold<Input, Output, F: Body<Input, Output>>(
    parked: Option<F>,
    inputs: Seq<Input>,
)
    requires
        inputs.len() > 0,
    ensures
        (parked is None ==> gen_run(parked, inputs) =~= seq![None] + gen_run(
            None::<F>,
            inputs.drop_first(),
        )),
        (parked matches Some(f) ==> ({
            let (parked2, out) = f.next_spec(inputs[0]);
            let next: Option<F> = if out is Some {
                Some(parked2)
            } else {
                None
            };
            gen_run(parked, inputs) =~= seq![out] + gen_run(next, inputs.drop_first())
        })),
{
}

/// A run has as many positions as inputs.
pub proof fn lemma_gen_run_len<Input, Output, F: Body<Input, Output>>(
    parked: Option<F>,
    inputs: Seq<Input>,
)
    ensures
        gen_run(parked, inputs).len() == inputs.len(),
    decreases inputs.len(),
{
    if inputs.len() > 0 {
        match parked {
            None => lemma_gen_run_len(None::<F>, inputs.drop_first()),
            Some(f) => {
                let (parked2, out) = f.next_spec(inputs[0]);
                let next: Option<F> = if out is Some {
                    Some(parked2)
                } else {
                    None
                };
                lemma_gen_run_len(next, inputs.drop_first());
            },
        }
    }
}

/// A terminated generator answers `None` to every further resume.
pub proof fn lemma_dead_stays_dead<Input, Output, F: Body<Input, Output>>(
    inputs: Seq<Input>,
    k: int,
)
    requires
        0 <= k < inputs.len(),
    ensures
        gen_run(None::<F>, inputs)[k] is None,
    decreases inputs.len(),
{
    lemma_gen_run_len(None::<F>, inputs.drop_first());
    if k > 0 {
        lemma_dead_stays_dead::<Input, Output, F>(inputs.drop_first(), k - 1);
    }
}

/// Once one resume of a run answers `None`, every later resume of that run
/// answers `None` as well.
pub proof fn lemma_none_latches<Input, Output, F: Body<Input, Output>>(
    parked: Option<F>,
    inputs: Seq<Input>,
    j: int,
    k: int,
)
    requires
        0 <= j <= k < inputs.len(),
        gen_run(parked, inputs)[j] is None,
    ensures
        gen_run(parked, inputs)[k] is None,
    decreases inputs.len(),
{
    let rest = inputs.drop_first();
    match parked {
        None => {
            lemma_dead_stays_dead::<Input, Output, F>(inputs, k);
        },
        Some(f) => {
            let (parked2, out) = f.next_spec(inputs[0]);
            let next: Option<F> = if out is Some {
                Some(parked2)
            } else {
                None
            };
            lemma_gen_run_len(next, rest);
            if j == 0 {
                // The first answer is None exactly when the body returned,
                // so nothing is parked for the rest of the run.
                if k > 0 {
                    lemma_dead_stays_dead::<Input, Output, F>(rest, k - 1);
                }
            } else {
                lemma_none_latches(next, rest, j - 1, k - 1);
            }
        },
    }
}

/// A sequence of answers that yields up to position `k` and is silent from
/// there on holds exactly `k` yields.
proof fn lemma_count_of_prefix<Output>(outs: Seq<Option<Output>>, k: int)
    requires
        0 <= k <= outs.len(),
        forall|i: int| 0 <= i < k ==> outs[i] is Some,
        forall|i: int| k <= i < outs.len() ==> outs[i] is None,
    ensures
        count_yields(outs) == k,
    decreases outs.len(),
{
    if outs.len() > 0 {
        let rest = outs.drop_first();
        if k > 0 {
            assert(forall|i: int| 0 <= i < k - 1 ==> rest[i] is Some);
            assert(forall|i: int| k - 1 <= i < rest.len() ==> rest[i] is None);
            lemma_count_of_prefix(rest, k - 1);
        } else {
            assert(forall|i: int| 0 <= i < rest.len() ==> rest[i] is None);
            lemma_count_of_prefix(rest, 0);
        }
    }
}

/// A body that yields `k` times on a run and then returns gives the run
/// exactly `k` yielded values: every resume up to the `k`-th answers
/// `Some`, the `(k+1)`-th answers `None`, and so does everything after it.
pub proof fn lemma_yield_count<Input, Output, F: Body<Input, Output>>(
    parked: Option<F>,
    inputs: Seq<Input>,
    k: int,
)
    requires
        0 <= k < inputs.len(),
        gen_run(parked, inputs)[k] is None,
        forall|i: int| 0 <= i < k ==> #[trigger] gen_run(parked, inputs)[i] is Some,
    ensures
        forall|m: int| k <= m < inputs.len() ==> #[trigger] gen_run(parked, inputs)[m] is None,
        count_yields(gen_run(parked, inputs)) == k,
{
    lemma_gen_run_len(parked, inputs);
    assert forall|m: int| k <= m < inputs.len() implies #[trigger] gen_run(parked, inputs)[m]
        is None by {
        lemma_none_latches(parked, inputs, k, m);
    }
    lemma_count_of_prefix(gen_run(parked, inputs), k);
}

/// Yielder is an interface provided to every generator through which it
/// returns values.
///
/// It holds the one mutable slot of the protocol: the suspended owner's
/// stack pointer, refreshed on every suspension because the owner may move
/// between resumes. An empty slot means the body is being unwound — the
/// slot is taken at the start of a suspension and restored only when the
/// switch comes back normally — and a body that tries to suspend while the
/// slot is empty has nowhere to suspend to.
///
/// The values a suspension carries are not the slot's concern: in this
/// model the value yielded at a suspension point, and the input delivered
/// back into it, are the two halves of the body transition that
/// [`Generator::resume`] pins exactly, in both directions.
pub struct Yielder<Input, Output> {
    /// The owner's parked stack pointer, absent while a switch or an
    /// unwind is in flight.
    pub stack_ptr: Option<usize>,
    /// Binds the value types dual to the owning generator's.
    pub phantom: PhantomData<(Input, Output)>,
}

impl<Input, Output> Yielder<Input, Output> {
    /// A yielder parked on the owner whose stack pointer is given; made at
    /// the body's entry, before any user code runs.
    pub fn new(stack_ptr: usize) -> (r: Yielder<Input, Output>)
        ensures
            r.stack_ptr == Some(stack_ptr),
    {
        Yielder { stack_ptr: Some(stack_ptr), phantom: PhantomData }
    }

    /// Whether suspension is still possible; once poisoned, the yielder
    /// stays poisoned unless a suspension completes.
    pub open spec fn poisoned(&self) -> bool {
        self.stack_ptr is None
    }

    /// Opens a suspension: hands out the owner's parked stack pointer and
    /// empties the slot, so that an unwind arriving while the switch is in
    /// flight finds the yielder poisoned instead of a stale pointer. A body
    /// being unwound must not reach this — suspending with nowhere to
    /// suspend to is the one protocol violation the machine side answers
    /// with a panic — so an already-poisoned yielder is kept out by
    /// contract.
    pub fn take_for_suspend(&mut self) -> (sp: usize)
        requires
            !old(self).poisoned(),
        ensures
            Some(sp) == old(self).stack_ptr,
            final(self).poisoned(),
    {
        let sp = self.stack_ptr.take();
        match sp {
            Some(sp) => sp,
            None => 0,
        }
    }

    /// Closes a suspension that returned normally: the owner's fresh stack
    /// pointer — it may have moved since the last resume — fills the slot
    /// again.
    pub fn finish_suspend(&mut self, new_sp: usize)
        ensures
            final(self).stack_ptr == Some(new_sp),
    {
        self.stack_ptr = Some(new_sp);
    }
}

} // verus!
