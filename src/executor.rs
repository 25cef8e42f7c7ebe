use vstd::prelude::*;

verus! {

/// What a handler decides after one input: how the machine goes on.
pub enum NextState<S, E> {
    /// Change the state and the handler that takes the following input.
    ChangeState(E, S),
    /// Change the state and keep the same handler.
    Continue(S),
    /// The machine has finished: later input leaves it as it is.
    End(S),
}

impl<S, E> NextState<S, E> {
    /// The state that every outcome carries.
    pub open spec fn state(self) -> S {
        match self {
            NextState::ChangeState(_, s) => s,
            NextState::Continue(s) => s,
            NextState::End(s) => s,
        }
    }
}

/// A transition handler: from the current state and one input it decides
/// the outcome of a step.
///
/// Handlers are pure: `next` is the outcome that `execute` returns, so the
/// same handler, state and input always lead to the same outcome.
pub trait Executor<S, I>: Sized {
    /// The outcome of handling `input` in `state`.
    spec fn next(&self, state: S, input: I) -> NextState<S, Self>;

    /// Handles `input` in `state`.
    fn execute(&self, state: S, input: I) -> (r: NextState<S, Self>)
        ensures
            r == self.next(state, input),
    ;
}

} // verus!
