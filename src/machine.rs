use vstd::prelude::*;
use crate::executor::{Executor, NextState};

verus! {

/// The handler and state that one step with `input` leaves, from a machine
/// whose handler is `executor` (`None` once it has finished) and whose
/// state is `state`.
pub open spec fn step<S, I, E: Executor<S, I>>(executor: Option<E>, state: S, input: I) -> (
    Option<E>,
    S,
) {
    match executor {
        None => (None, state),
        Some(e) => match e.next(state, input) {
            NextState::ChangeState(next_e, s) => (Some(next_e), s),
            NextState::Continue(s) => (Some(e), s),
            NextState::End(s) => (None, s),
        },
    }
}

/// The handler and state after a step for each of `inputs`, in order.
pub open spec fn run<S, I, E: Executor<S, I>>(executor: Option<E>, state: S, inputs: Seq<I>) -> (
    Option<E>,
    S,
)
    decreases inputs.len(),
{
    if inputs.len() == 0 {
        (executor, state)
    } else {
        let (e, s) = step(executor, state, inputs[0]);
        run(e, s, inputs.drop_first())
    }
}

/// Holds the handler that takes the next input and the current state, and
/// applies the outcome of each step.
pub struct StateMachine<S, E> {
    /// The handler for the next input; `None` once the machine has finished.
    next_executor: Option<E>,
    /// The current state; present whenever the machine can be observed.
    current_state: Option<S>,
}

impl<S, E> StateMachine<S, E> {
    /// Well-formed: the machine holds a state. Every machine that `new`
    /// makes is, and `process` keeps it so.
    pub closed spec fn wf(self) -> bool {
        self.current_state is Some
    }

    /// The current state.
    pub closed spec fn state(self) -> S {
        self.current_state->Some_0
    }

    /// The handler for the next input, or `None` once the machine has finished.
    pub closed spec fn executor(self) -> Option<E> {
        self.next_executor
    }

    /// Whether the machine has finished.
    pub open spec fn is_terminal(self) -> bool {
        self.executor() is None
    }

    /// A machine that starts in `state`, with `exec` handling its input.
    pub fn new(exec: E, state: S) -> (r: Self)
        ensures
            r.wf(),
            r.executor() == Some(exec),
            r.state() == state,
            !r.is_terminal(),
    {
        StateMachine { next_executor: Some(exec), current_state: Some(state) }
    }

    /// Whether the machine has finished.
    pub fn is_complete(&self) -> (r: bool)
        ensures
            r == self.is_terminal(),
    {
        self.next_executor.is_none()
    }

    /// Consumes the machine and hands back its current state.
    pub fn extract_state(self) -> (r: S)
        requires
            self.wf(),
        ensures
            r == self.state(),
    {
        self.current_state.unwrap()
    }

    /// The current state, borrowed.
    pub fn borrow(&self) -> (r: &S)
        requires
            self.wf(),
        ensures
            *r == self.state(),
    {
        self.current_state.as_ref().unwrap()
    }

    /// Handles one input with the current handler and applies the outcome.
    /// Once the machine has finished, the input is dropped and nothing
    /// changes.
    pub fn process<I>(&mut self, input: I)
        where
            E: Executor<S, I>,
        requires
            old(self).wf(),
        ensures
            final(self).wf(),
            (final(self).executor(), final(self).state()) == step(
                old(self).executor(),
                old(self).state(),
                input,
            ),
    {
        let old_state = self.current_state.take().unwrap();
        let outcome = match &self.next_executor {
            None => {
                self.current_state = Some(old_state);
                return;
            },
            Some(executor) => executor.execute(old_state, input),
        };
        match outcome {
            NextState::ChangeState(exec, state) => {
                self.current_state = Some(state);
                self.next_executor = Some(exec);
            },
            NextState::Continue(state) => {
                self.current_state = Some(state);
            },
            NextState::End(state) => {
                self.current_state = Some(state);
                self.next_executor = None;
            },
        }
    }
}

impl<S: Clone, E> StateMachine<S, E> {
    /// A copy of the current state.
    pub fn clone_state(&self) -> (r: S)
        requires
            self.wf(),
        ensures
            cloned(self.state(), r),
    {
        self.current_state.clone().unwrap()
    }
}

} // verus!
