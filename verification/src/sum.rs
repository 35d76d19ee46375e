use crate::failure::Failure;
use crate::generic::Generic;
use crate::stream::{collect, ItemStream};
use vstd::prelude::*;

verus! {

/// The description carried by the failure that `Summer` reports when the sum
/// of the items is not an `i32`.
pub const SUM_OUT_OF_RANGE: &'static str = "the sum of the items does not fit in an i32";

/// The sum of `items`, as a mathematical integer.
pub open spec fn total(items: Seq<i32>) -> int
    decreases items.len(),
{
    if items.len() == 0 {
        0
    } else {
        total(items.drop_last()) + items.last()
    }
}

/// The result of summing `items`: their sum where it is an `i32`, and
/// otherwise the failure that carries `SUM_OUT_OF_RANGE`.
pub open spec fn sum_outcome(items: Seq<i32>) -> Result<i32, Failure> {
    if i32::MIN <= total(items) <= i32::MAX {
        Ok(total(items) as i32)
    } else {
        Err(Failure { message: SUM_OUT_OF_RANGE })
    }
}

/// Sums `items`. The sum is formed exactly, so intermediate sums outside the
/// range of `i32` do no harm as long as the sum of all items is inside it.
pub fn sum_items(items: &Vec<i32>) -> (res: Result<i32, Failure>)
    ensures
        res == sum_outcome(items@),
{
    let mut acc: i128 = 0;
    let mut i: usize = 0;
    while i < items.len()
        invariant
            i <= items.len(),
            acc == total(items@.take(i as int)),
            -0x8000_0000 * i <= acc <= 0x7fff_ffff * i,
        decreases items.len() - i,
    {
        assert(items@.take(i + 1).drop_last() =~= items@.take(i as int));
        acc = acc + items[i] as i128;
        i = i + 1;
    }
    assert(items@.take(i as int) =~= items@);
    if acc < i32::MIN as i128 || acc > i32::MAX as i128 {
        Err(Failure { message: SUM_OUT_OF_RANGE })
    } else {
        Ok(acc as i32)
    }
}

/// The implementer that sums: its result for a stream is the sum of the items
/// that the stream produces.
pub struct Summer;

impl Generic for Summer {
    open spec fn spec_generic_fn(&self, items: Seq<i32>) -> Result<i32, Failure> {
        sum_outcome(items)
    }

    fn generic_fn<S: ItemStream + Send + Sync>(&self, stream: S) -> (res: Result<i32, Failure>) {
        let items = collect(stream);
        sum_items(&items)
    }
}

} // verus!
