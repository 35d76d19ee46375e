use crate::failure::Failure;
use crate::generic::ErasedGeneric;
use crate::mock::Mock;
use crate::stream::{collect, ErasedStream};
use std::sync::Arc;
use vstd::prelude::*;
use vstd::rwlock::{RwLock, RwLockPredicate};

verus! {

/// What holds of the recorder behind a double's lock at all times: it answers
/// with `answer`.
struct Answers {
    answer: Result<i32, Failure>,
}

impl RwLockPredicate<Mock<'static, Vec<i32>, Result<i32, Failure>>> for Answers {
    closed spec fn inv(self, mock: Mock<'static, Vec<i32>, Result<i32, Failure>>) -> bool {
        mock.answer() == self.answer
    }
}

/// A double for the erased form. It answers every call with the result it was
/// made with, whatever the stream holds, and records the items of each stream
/// it is given. The recorder sits behind a lock that all shares of the double
/// have in common.
pub struct MockErasedGeneric {
    erased_fn: Arc<RwLock<Mock<'static, Vec<i32>, Result<i32, Failure>>, Answers>>,
}

impl MockErasedGeneric {
    /// The result with which this double answers.
    pub closed spec fn answer(&self) -> Result<i32, Failure> {
        self.erased_fn.pred().answer
    }

    /// A double that answers with `answer` and has recorded nothing.
    pub fn new(answer: Result<i32, Failure>) -> (double: Self)
        ensures
            double.answer() == answer,
    {
        let mock: Mock<'static, Vec<i32>, Result<i32, Failure>> = Mock::new(answer);
        MockErasedGeneric { erased_fn: Arc::new(RwLock::new(mock, Ghost(Answers { answer }))) }
    }

    /// Another handle on this double: same answer, same record.
    pub fn share(&self) -> (other: Self)
        ensures
            other.answer() == self.answer(),
    {
        MockErasedGeneric { erased_fn: self.erased_fn.clone() }
    }

    /// The items of the streams given to the double so far, oldest call
    /// first, as they stand at the moment of the call. The record is shared:
    /// any handle may add to it between two calls, so nothing is promised of
    /// what is returned.
    pub fn calls(&self) -> Vec<Vec<i32>> {
        let handle = self.erased_fn.acquire_read();
        let calls = handle.borrow().calls().clone();
        handle.release_read();
        calls
    }
}

impl ErasedGeneric for MockErasedGeneric {
    open spec fn spec_erased_fn(&self, items: Seq<i32>) -> Result<i32, Failure> {
        self.answer()
    }

    fn erased_fn(&self, stream: ErasedStream) -> (res: Result<i32, Failure>) {
        let items = collect(stream);
        let (mut mock, handle) = self.erased_fn.acquire_write();
        let res = mock.call(items);
        handle.release_write(mock);
        res
    }
}

} // verus!
