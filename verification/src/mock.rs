use std::marker::PhantomData;
use vstd::prelude::*;

verus! {

/// Taken on trust of `<T as From<T>>::from`, the conversion of a value into
/// its own type: it returns its argument unchanged. With it, a value that is
/// configured as what it already is counts as converted into itself.
pub assume_specification<V>[ <V as core::convert::From<V>>::from ](value: V) -> (same: V)
    ensures
        same == value,
;

/// A call-recording double: it answers every call with one configured value and
/// keeps the arguments of the calls it has received, oldest first.
pub struct Mock<'a, C: 'a, R> {
    retval: R,
    calls: Vec<C>,
    phantom: PhantomData<&'a C>,
}

impl<'a, C, R> Mock<'a, C, R> {
    /// The value with which this double answers a call.
    pub closed spec fn answer(&self) -> R {
        self.retval
    }

    /// The arguments of the calls received so far, oldest first.
    pub closed spec fn log(&self) -> Seq<C> {
        self.calls@
    }

    /// A double that has received no call yet and answers with what `retval`
    /// converts into.
    pub fn new<T: Into<R>>(retval: T) -> (mock: Self)
        ensures
            call_ensures(<T as Into<R>>::into, (retval,), mock.answer()),
            mock.log() == Seq::<C>::empty(),
    {
        Mock { retval: retval.into(), calls: Vec::new(), phantom: PhantomData }
    }

    /// Configures the answer to what `retval` converts into. The log is kept.
    pub fn return_value<T: Into<R>>(&mut self, retval: T)
        ensures
            call_ensures(<T as Into<R>>::into, (retval,), final(self).answer()),
            final(self).log() == old(self).log(),
    {
        self.retval = retval.into();
    }

    /// Receives one call: appends `args` to the log and returns the
    /// configured answer, which stays configured.
    pub fn call(&mut self, args: C) -> (res: R) where R: Copy
        ensures
            res == old(self).answer(),
            final(self).answer() == old(self).answer(),
            final(self).log() == old(self).log().push(args),
    {
        self.calls.push(args);
        self.retval
    }

    /// The arguments of the calls received so far, oldest first.
    pub fn calls(&self) -> (calls: &Vec<C>)
        ensures
            calls@ == self.log(),
    {
        &self.calls
    }
}

} // verus!
