use vstd::prelude::*;

verus! {

/// The single failure that an operation can report: a description of what
/// went wrong. A failure is a value like any other, and is handed on as it is:
/// nothing in this crate looks inside a failure that it did not make itself.
#[derive(Clone, Copy, Debug, PartialEq, Eq)]
pub struct Failure {
    pub message: &'static str,
}

} // verus!
