//! How the outcome of a step of the start-up decides whether the program
//! goes on or exits.

use vstd::prelude::*;

verus! {

/// Either exit with a code, or go on with a value.
#[derive(Debug, Clone)]
pub enum Control<T> {
    Exit(i32),
    Happy(T),
}

/// A failed step makes the program exit with code 1; a successful one lets it
/// go on with the step's value.
pub open spec fn control_of<T, E>(result: Result<T, E>) -> Control<T> {
    match result {
        Ok(v) => Control::Happy(v),
        Err(_) => Control::Exit(1),
    }
}

impl<T, E> From<Result<T, E>> for Control<T> {
    fn from(result: Result<T, E>) -> (r: Self) {
        match result {
            Ok(ok) => Control::Happy(ok),
            Err(_) => Control::Exit(1),
        }
    }
}

impl<T, E> vstd::std_specs::convert::FromSpecImpl<Result<T, E>> for Control<T> {
    open spec fn obeys_from_spec() -> bool {
        true
    }

    open spec fn from_spec(v: Result<T, E>) -> Self {
        control_of(v)
    }
}

} // verus!
