use vstd::prelude::*;
use crate::executor::Executor;
use crate::machine::{run, step};

verus! {

/// Running one input and then `later` is a step followed by a run of `later`.
proof fn lemma_run_first<S, I, E: Executor<S, I>>(
    executor: Option<E>,
    state: S,
    input: I,
    later: Seq<I>,
)
    ensures
        run(executor, state, seq![input] + later) == run(
            step(executor, state, input).0,
            step(executor, state, input).1,
            later,
        ),
{
    let inputs = seq![input] + later;
    assert(inputs[0] == input);
    assert(inputs.drop_first() =~= later);
}

/// A finished machine stays finished and keeps its state, whatever inputs
/// follow and however many.
pub proof fn lemma_finished_run_keeps_state<S, I, E: Executor<S, I>>(state: S, inputs: Seq<I>)
    ensures
        run(None::<E>, state, inputs) == (None::<E>, state),
    decreases inputs.len(),
{
    if inputs.len() > 0 {
        lemma_finished_run_keeps_state::<S, I, E>(state, inputs.drop_first());
    }
}

/// When the handler answers `Continue`, the step keeps the handler, the
/// machine has not finished, and the state is the one the outcome carries.
pub proof fn lemma_continue_keeps_executor<S, I, E: Executor<S, I>>(e: E, state: S, input: I)
    requires
        e.next(state, input) is Continue,
    ensures
        step(Some(e), state, input) == (Some(e), e.next(state, input).state()),
{
}

/// When the handler answers `ChangeState(e2, s)`, the state becomes `s` and
/// every later input is handled as by a machine that starts with `e2` in `s`.
pub proof fn lemma_change_state_swaps_executor<S, I, E: Executor<S, I>>(
    e: E,
    state: S,
    input: I,
    later: Seq<I>,
)
    requires
        e.next(state, input) is ChangeState,
    ensures
        ({
            let (e2, s) = (e.next(state, input)->ChangeState_0, e.next(state, input)->ChangeState_1);
            &&& step(Some(e), state, input) == (Some(e2), s)
            &&& run(Some(e), state, seq![input] + later) == run(Some(e2), s, later)
        }),
{
    lemma_run_first(Some(e), state, input, later);
}

/// When the handler answers `End(s)`, the machine finishes with state `s`,
/// and it stays finished with that state whatever inputs follow.
pub proof fn lemma_end_is_absorbing<S, I, E: Executor<S, I>>(
    e: E,
    state: S,
    input: I,
    later: Seq<I>,
)
    requires
        e.next(state, input) is End,
    ensures
        step(Some(e), state, input) == (None::<E>, e.next(state, input).state()),
        run(Some(e), state, seq![input] + later) == (None::<E>, e.next(state, input).state()),
{
    lemma_run_first(Some(e), state, input, later);
    lemma_finished_run_keeps_state::<S, I, E>(e.next(state, input).state(), later);
}

} // verus!
