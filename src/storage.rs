use vstd::prelude::*;
use crate::executor::{Executor, NextState};

verus! {

/// A handler that remembers the last positive input. Zero ends the machine
/// with the state it has, a negative input forgets what was stored, and a
/// positive input is stored.
#[derive(Clone, Copy, Debug)]
pub struct SimpleStorage;

impl Executor<Option<isize>, isize> for SimpleStorage {
    open spec fn next(&self, state: Option<isize>, input: isize) -> NextState<
        Option<isize>,
        SimpleStorage,
    > {
        if input == 0 {
            NextState::End(state)
        } else if input < 0 {
            NextState::Continue(None)
        } else {
            NextState::Continue(Some(input))
        }
    }

    fn execute(&self, state: Option<isize>, input: isize) -> (r: NextState<
        Option<isize>,
        SimpleStorage,
    >) {
        simple_storage_statefn(state, input)
    }
}

/// The step of [`SimpleStorage`] as a plain function.
pub fn simple_storage_statefn(state: Option<isize>, input: isize) -> (r: NextState<
    Option<isize>,
    SimpleStorage,
>)
    ensures
        r == SimpleStorage.next(state, input),
{
    if input == 0 {
        NextState::End(state)
    } else if input < 0 {
        NextState::Continue(None)
    } else {
        NextState::Continue(Some(input))
    }
}

} // verus!
