use crate::failure::Failure;
use crate::generic::{ErasedGeneric, Generic};
use crate::stream::ItemStream;
use vstd::prelude::*;

verus! {

/// A caller that holds its service as a trait object of the erased form and
/// still hands it streams of any type.
pub struct Adapter {
    pub service: Box<dyn ErasedGeneric>,
}

impl Adapter {
    /// Calls the service in its generic form on `stream`. The result is the
    /// one that the service's erased form gives for the same items.
    pub fn use_service<S: ItemStream + Send + Sync>(&self, stream: S) -> (res: Result<i32, Failure>)
        ensures
            res == (*self.service).spec_erased_fn(stream.remaining()),
    {
        self.service.generic_fn(stream)
    }
}

} // verus!
