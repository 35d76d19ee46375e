use vstd::prelude::*;

verus! {

/// A finite, ordered producer of integers that hands its items out one at a
/// time and is consumed by doing so.
pub trait ItemStream {
    /// The items still to come, in the order in which they will be produced.
    spec fn remaining(&self) -> Seq<i32>;

    /// Produces the next item, or `None` once the stream is exhausted.
    fn next_item(&mut self) -> (item: Option<i32>)
        ensures
            match item {
                Some(x) => {
                    &&& old(self).remaining().len() > 0
                    &&& x == old(self).remaining().first()
                    &&& final(self).remaining() == old(self).remaining().drop_first()
                },
                None => {
                    &&& old(self).remaining().len() == 0
                    &&& final(self).remaining().len() == 0
                },
            },
    ;
}

/// The one fixed shape of producer that the erased interface accepts: the
/// items of some stream, held in order, with a cursor on the next one.
pub struct ErasedStream {
    items: Vec<i32>,
    next: usize,
}

impl ErasedStream {
    /// A stream that produces the elements of `items` from first to last.
    pub fn new(items: Vec<i32>) -> (stream: ErasedStream)
        ensures
            stream.remaining() == items@,
    {
        ErasedStream { items, next: 0 }
    }

    /// Erases a stream of any type into the fixed shape. The result produces
    /// what `stream` would have produced, in the same order.
    pub fn erase<S: ItemStream>(stream: S) -> (erased: ErasedStream)
        ensures
            erased.remaining() == stream.remaining(),
    {
        ErasedStream::new(collect(stream))
    }
}

impl ItemStream for ErasedStream {
    closed spec fn remaining(&self) -> Seq<i32> {
        if self.next <= self.items@.len() {
            self.items@.skip(self.next as int)
        } else {
            Seq::empty()
        }
    }

    fn next_item(&mut self) -> (item: Option<i32>) {
        if self.next < self.items.len() {
            let x: i32 = self.items[self.next];
            self.next = self.next + 1;
            assert(self.items@.skip(self.next as int) =~= old(self).items@.skip(
                old(self).next as int,
            ).drop_first());
            Some(x)
        } else {
            None
        }
    }
}

/// Runs `stream` to its end and returns everything it produced, in order.
pub fn collect<S: ItemStream>(stream: S) -> (items: Vec<i32>)
    ensures
        items@ == stream.remaining(),
{
    let mut stream = stream;
    let ghost all = stream.remaining();
    let mut items: Vec<i32> = Vec::new();
    loop
        invariant
            items@ + stream.remaining() == all,
        ensures
            items@ == all,
        decreases stream.remaining().len(),
    {
        let ghost before = stream.remaining();
        match stream.next_item() {
            Some(x) => {
                items.push(x);
                assert(items@ + stream.remaining() =~= all) by {
                    assert(before =~= seq![x] + before.drop_first());
                }
            },
            None => {
                assert(items@ + stream.remaining() =~= items@);
                break ;
            },
        }
    }
    items
}

} // verus!
