use crate::failure::Failure;
use crate::stream::{ErasedStream, ItemStream};
use vstd::prelude::*;

verus! {

/// The capability in its generic form: the operation takes a stream of any
/// type. Because the stream's type is a parameter of the method, no value can
/// be held as `dyn Generic`; `ErasedGeneric` is the form that can be held so.
pub trait Generic {
    /// What `generic_fn` returns when the stream it is given would produce
    /// `items`: a sum or a failure.
    spec fn spec_generic_fn(&self, items: Seq<i32>) -> Result<i32, Failure>;

    /// Consumes `stream` and returns this implementer's result for its items.
    fn generic_fn<S: ItemStream + Send + Sync>(&self, stream: S) -> (res: Result<i32, Failure>)
        ensures
            res == self.spec_generic_fn(stream.remaining()),
    ;
}

/// A boxed implementer is an implementer: the call goes to what the box holds.
impl<T: ?Sized + Generic + Send + Sync> Generic for Box<T> {
    open spec fn spec_generic_fn(&self, items: Seq<i32>) -> Result<i32, Failure> {
        (**self).spec_generic_fn(items)
    }

    fn generic_fn<S: ItemStream + Send + Sync>(&self, stream: S) -> (res: Result<i32, Failure>)
        ensures
            res == (**self).spec_generic_fn(stream.remaining()),
    {
        (**self).generic_fn(stream)
    }
}

/// The capability in its erased form: the operation takes the one fixed shape
/// of stream, so a value can be held and called as `dyn ErasedGeneric`. Such a
/// trait object may be moved to and shared among threads.
pub trait ErasedGeneric: Send + Sync {
    /// What `erased_fn` returns when the stream it is given would produce
    /// `items`: a sum or a failure.
    spec fn spec_erased_fn(&self, items: Seq<i32>) -> Result<i32, Failure>;

    /// Consumes `stream` and returns this implementer's result for its items.
    fn erased_fn(&self, stream: ErasedStream) -> (res: Result<i32, Failure>)
        ensures
            res == self.spec_erased_fn(stream.remaining()),
    ;
}

/// The trait object of the erased form implements the generic form: the
/// stream is erased at the call and handed to the erased form, whose result is
/// returned as it is.
impl Generic for dyn ErasedGeneric {
    open spec fn spec_generic_fn(&self, items: Seq<i32>) -> Result<i32, Failure> {
        self.spec_erased_fn(items)
    }

    fn generic_fn<S: ItemStream + Send + Sync>(&self, stream: S) -> (res: Result<i32, Failure>)
        ensures
            res == self.spec_erased_fn(stream.remaining()),
    {
        self.erased_fn(ErasedStream::erase(stream))
    }
}

/// Every implementer of the generic form implements the erased form: the
/// erased stream is a stream, so it is handed to the generic form, whose
/// result is returned as it is.
impl<T: Generic + Send + Sync> ErasedGeneric for T {
    open spec fn spec_erased_fn(&self, items: Seq<i32>) -> Result<i32, Failure> {
        self.spec_generic_fn(items)
    }

    fn erased_fn(&self, stream: ErasedStream) -> (res: Result<i32, Failure>)
        ensures
            res == self.spec_generic_fn(stream.remaining()),
    {
        self.generic_fn(stream)
    }
}

/// Both forms of an implementer agree: on streams of the same items, its
/// erased form gives the result of its generic form, and so does the generic
/// form of the box that holds it.
pub proof fn lemma_forms_of_implementer_agree<T: Generic + Send + Sync>(
    implementer: T,
    items: Seq<i32>,
)
    ensures
        implementer.spec_erased_fn(items) == implementer.spec_generic_fn(items),
        Box::new(implementer).spec_generic_fn(items) == implementer.spec_generic_fn(items),
{
}

/// Both forms of a trait object agree: on streams of the same items, its
/// generic form gives the result of its erased form, and so does the generic
/// form of the box that holds it.
pub proof fn lemma_forms_of_trait_object_agree(handle: Box<dyn ErasedGeneric>, items: Seq<i32>)
    ensures
        (*handle).spec_generic_fn(items) == (*handle).spec_erased_fn(items),
        handle.spec_generic_fn(items) == (*handle).spec_erased_fn(items),
{
}

/// Round trip: an implementer of the generic form, made into a boxed trait
/// object of the erased form and called there in the generic form again, gives
/// exactly the result that it gives when called directly.
pub proof fn lemma_round_trip<T: Generic + Send + Sync + 'static>(implementer: T, items: Seq<i32>)
    ensures
        ({
            let handle: Box<dyn ErasedGeneric> = Box::new(implementer);
            &&& (*handle).spec_erased_fn(items) == implementer.spec_generic_fn(items)
            &&& (*handle).spec_generic_fn(items) == implementer.spec_generic_fn(items)
            &&& handle.spec_generic_fn(items) == implementer.spec_generic_fn(items)
        }),
{
}

/// A failure is passed on unchanged: where an implementer of the generic form
/// fails, its erased form fails with the same failure, and so do both forms of
/// the boxed trait object made from it.
pub proof fn lemma_failure_of_implementer_passes<T: Generic + Send + Sync + 'static>(
    implementer: T,
    items: Seq<i32>,
    failure: Failure,
)
    requires
        implementer.spec_generic_fn(items) == Err::<i32, Failure>(failure),
    ensures
        implementer.spec_erased_fn(items) == Err::<i32, Failure>(failure),
        ({
            let handle: Box<dyn ErasedGeneric> = Box::new(implementer);
            &&& (*handle).spec_erased_fn(items) == Err::<i32, Failure>(failure)
            &&& (*handle).spec_generic_fn(items) == Err::<i32, Failure>(failure)
            &&& handle.spec_generic_fn(items) == Err::<i32, Failure>(failure)
        }),
{
}

/// A failure is passed on unchanged: where the erased form of a trait object
/// fails, its generic form fails with the same failure, and so does the
/// generic form of the box that holds it.
pub proof fn lemma_failure_of_trait_object_passes(
    handle: Box<dyn ErasedGeneric>,
    items: Seq<i32>,
    failure: Failure,
)
    requires
        (*handle).spec_erased_fn(items) == Err::<i32, Failure>(failure),
    ensures
        (*handle).spec_generic_fn(items) == Err::<i32, Failure>(failure),
        handle.spec_generic_fn(items) == Err::<i32, Failure>(failure),
{
}

} // verus!
