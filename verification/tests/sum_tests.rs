use erased_generic::failure::Failure;
use erased_generic::stream::{collect, ErasedStream, ItemStream};
use erased_generic::sum::{sum_items, SUM_OUT_OF_RANGE};

fn out_of_range() -> Result<i32, Failure> {
    Err(Failure { message: SUM_OUT_OF_RANGE })
}

#[test]
fn sum_of_nothing_is_zero() {
    assert_eq!(sum_items(&vec![]), Ok(0));
}

#[test]
fn sum_of_1_3_5_7_is_16() {
    assert_eq!(sum_items(&vec![1, 3, 5, 7]), Ok(16));
}

#[test]
fn sum_with_negative_items() {
    assert_eq!(sum_items(&vec![-5, 5, -7, 2]), Ok(-5));
}

#[test]
fn sum_at_the_edges_of_the_range() {
    assert_eq!(sum_items(&vec![i32::MAX]), Ok(i32::MAX));
    assert_eq!(sum_items(&vec![i32::MIN]), Ok(i32::MIN));
    assert_eq!(sum_items(&vec![i32::MAX, 0]), Ok(i32::MAX));
    assert_eq!(sum_items(&vec![i32::MAX, i32::MIN]), Ok(-1));
}

#[test]
fn sum_outside_the_range_is_a_failure() {
    assert_eq!(sum_items(&vec![i32::MAX, 1]), out_of_range());
    assert_eq!(sum_items(&vec![i32::MIN, -1]), out_of_range());
    assert_eq!(sum_items(&vec![i32::MAX, i32::MAX, i32::MAX]), out_of_range());
}

#[test]
fn intermediate_sums_may_leave_the_range() {
    assert_eq!(sum_items(&vec![i32::MAX, 1, -1]), Ok(i32::MAX));
    assert_eq!(sum_items(&vec![i32::MIN, -1, 1]), Ok(i32::MIN));
    assert_eq!(
        sum_items(&vec![i32::MAX, i32::MAX, i32::MIN, i32::MIN]),
        Ok(-2)
    );
}

#[test]
fn failure_carries_its_message() {
    let failure = Failure { message: "broken pipe" };
    assert_eq!(failure.message, "broken pipe");
    assert_eq!(failure, Failure { message: "broken pipe" });
    assert_ne!(failure, Failure { message: SUM_OUT_OF_RANGE });
}

#[test]
fn stream_produces_its_items_in_order_and_then_nothing() {
    let mut stream = ErasedStream::new(vec![4, -4, 9]);
    assert_eq!(stream.next_item(), Some(4));
    assert_eq!(stream.next_item(), Some(-4));
    assert_eq!(stream.next_item(), Some(9));
    assert_eq!(stream.next_item(), None);
    assert_eq!(stream.next_item(), None);
}

#[test]
fn collect_returns_what_is_left_of_a_stream() {
    let mut stream = ErasedStream::new(vec![1, 2, 3, 4]);
    assert_eq!(stream.next_item(), Some(1));
    assert_eq!(collect(stream), vec![2, 3, 4]);
    assert_eq!(collect(ErasedStream::new(vec![])), Vec::<i32>::new());
}

#[test]
fn erase_keeps_items_and_order() {
    let mut stream = ErasedStream::new(vec![1, 2, 3]);
    assert_eq!(stream.next_item(), Some(1));
    let mut erased = ErasedStream::erase(stream);
    assert_eq!(erased.next_item(), Some(2));
    assert_eq!(erased.next_item(), Some(3));
    assert_eq!(erased.next_item(), None);
}
