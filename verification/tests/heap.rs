use juliet::rpc::heap::{drain_heap_while, BinaryHeap};

#[test]
fn drain_works() {
    let mut heap = BinaryHeap::<i32>::new();

    heap.push(5);
    heap.push(3);
    heap.push(2);
    heap.push(7);
    heap.push(11);
    heap.push(13);

    assert!(drain_heap_while(&mut heap, |_| false).next().is_none());
    assert!(drain_heap_while(&mut heap, |&v| v > 14).next().is_none());

    assert_eq!(
        drain_heap_while(&mut heap, |&v| v > 10).collect(),
        vec![13, 11]
    );

    assert_eq!(
        drain_heap_while(&mut heap, |&v| v > 10).collect(),
        Vec::<i32>::new()
    );

    assert_eq!(
        drain_heap_while(&mut heap, |&v| v > 2).collect(),
        vec![7, 5, 3]
    );

    assert_eq!(
        drain_heap_while(&mut heap, |_| true).collect(),
        vec![2]
    );
}

#[test]
fn drain_on_empty_works() {
    let mut empty_heap = BinaryHeap::<u32>::new();

    assert!(drain_heap_while(&mut empty_heap, |_| true).next().is_none());
}

#[test]
fn items_leave_greatest_first() {
    let mut heap = BinaryHeap::<i32>::new();
    assert!(heap.peek().is_none());
    for item in [4, -2, 9, 4, 0, 7, -11, 9] {
        heap.push(item);
    }
    assert_eq!(heap.peek(), Some(&9));
    let mut items = Vec::new();
    while let Some(item) = heap.pop() {
        items.push(item);
    }
    assert_eq!(items, vec![9, 9, 7, 4, 4, 0, -2, -11]);
    assert!(heap.pop().is_none());
}

#[test]
fn draining_stops_at_the_first_item_that_is_kept() {
    let mut heap = BinaryHeap::<u32>::new();
    for item in [1, 8, 5, 6] {
        heap.push(item);
    }
    assert_eq!(
        drain_heap_while(&mut heap, |&v| v % 2 == 0).collect(),
        vec![8, 6]
    );
    assert_eq!(heap.peek(), Some(&5));
    let mut drain = drain_heap_while(&mut heap, |&v| v > 1);
    assert_eq!(drain.next(), Some(5));
    assert_eq!(drain.next(), None);
    assert_eq!(heap.pop(), Some(1));
    assert_eq!(heap.pop(), None);
}
