//! A binary heap that hands out its greatest item first.

use vstd::multiset::Multiset;
use vstd::prelude::*;

verus! {

/// Items that can be kept in a heap: each has a rank, and no two items share one.
pub trait HeapItem: Copy {
    /// The rank of the item.
    spec fn rank(self) -> int;

    /// Items of the same rank are the same.
    proof fn rank_is_unique(a: Self, b: Self)
        requires
            a.rank() == b.rank(),
        ensures
            a == b,
    ;

    /// Returns whether the item ranks above the other one.
    fn outranks(&self, other: &Self) -> (res: bool)
        ensures
            res == (self.rank() > other.rank()),
    ;
}

impl HeapItem for i32 {
    open spec fn rank(self) -> int {
        self as int
    }

    proof fn rank_is_unique(a: Self, b: Self) {
    }

    fn outranks(&self, other: &Self) -> (res: bool) {
        *self > *other
    }
}

impl HeapItem for u32 {
    open spec fn rank(self) -> int {
        self as int
    }

    proof fn rank_is_unique(a: Self, b: Self) {
    }

    fn outranks(&self, other: &Self) -> (res: bool) {
        *self > *other
    }
}

/// The index of the parent of a node.
spec fn parent(i: int) -> int {
    (i - 1) / 2
}

/// Whether every node ranks no higher than its parent.
spec fn is_heap<T: HeapItem>(s: Seq<T>) -> bool {
    forall|i: int| 0 < i < s.len() ==> (#[trigger] s[i]).rank() <= s[parent(i)].rank()
}

/// Whether every node but one ranks no higher than its parent, and the children of that one rank
/// no higher than its parent.
spec fn heap_but_up<T: HeapItem>(s: Seq<T>, at: int) -> bool {
    &&& forall|i: int|
        0 < i < s.len() && i != at ==> (#[trigger] s[i]).rank() <= s[parent(i)].rank()
    &&& forall|i: int|
        0 < i < s.len() && parent(i) == at && at > 0 ==> (#[trigger] s[i]).rank()
            <= s[parent(at)].rank()
}

/// Whether every node ranks no higher than its parent but for the children of one, and those rank
/// no higher than its parent.
spec fn heap_but_down<T: HeapItem>(s: Seq<T>, at: int) -> bool {
    &&& forall|i: int|
        0 < i < s.len() && parent(i) != at ==> (#[trigger] s[i]).rank() <= s[parent(i)].rank()
    &&& forall|i: int|
        0 < i < s.len() && parent(i) == at && at > 0 ==> (#[trigger] s[i]).rank()
            <= s[parent(at)].rank()
}

/// The root of a heap ranks highest.
proof fn root_is_greatest<T: HeapItem>(s: Seq<T>, i: int)
    requires
        is_heap(s),
        0 <= i < s.len(),
    ensures
        s[i].rank() <= s[0].rank(),
    decreases i,
{
    if i > 0 {
        root_is_greatest(s, parent(i));
    }
}

/// Exchanging two items leaves the same items.
proof fn swap_keeps_items<T>(s: Seq<T>, i: int, j: int)
    requires
        0 <= i < s.len(),
        0 <= j < s.len(),
    ensures
        s.update(i, s[j]).update(j, s[i]).to_multiset() == s.to_multiset(),
{
    broadcast use vstd::seq_lib::group_to_multiset_ensures;

    let swapped = s.update(i, s[j]).update(j, s[i]);
    assert(swapped.to_multiset() =~= s.to_multiset());
}

/// A priority queue that hands out its greatest item first.
#[derive(Debug)]
pub struct BinaryHeap<T: HeapItem> {
    items: Vec<T>,
}

impl<T: HeapItem> View for BinaryHeap<T> {
    type V = Multiset<T>;

    closed spec fn view(&self) -> Multiset<T> {
        self.items@.to_multiset()
    }
}

impl<T: HeapItem> BinaryHeap<T> {
    #[verifier::type_invariant]
    spec fn wf(self) -> bool {
        is_heap(self.items@)
    }

    /// Creates an empty heap.
    pub fn new() -> (heap: Self)
        ensures
            heap@ == Multiset::<T>::empty(),
    {
        let heap = BinaryHeap { items: Vec::new() };
        assert(heap@ =~= Multiset::<T>::empty()) by {
            heap.items@.to_multiset_ensures();
        }
        heap
    }

    /// Adds an item.
    pub fn push(&mut self, item: T)
        ensures
            final(self)@ == old(self)@.insert(item),
    {
        proof {
            use_type_invariant(&*self);
        }
        let mut items: Vec<T> = Vec::new();
        std::mem::swap(&mut items, &mut self.items);
        let ghost before = items@;
        items.push(item);
        proof {
            before.to_multiset_ensures();
        }
        let mut at: usize = items.len() - 1;
        while at > 0
            invariant
                0 <= at < items.len(),
                heap_but_up(items@, at as int),
                items@.to_multiset() == before.to_multiset().insert(item),
            ensures
                is_heap(items@),
                items@.to_multiset() == before.to_multiset().insert(item),
            decreases at,
        {
            let up: usize = (at - 1) / 2;
            let child = items[at];
            let above = items[up];
            if !child.outranks(&above) {
                break;
            }
            proof {
                swap_keeps_items(items@, at as int, up as int);
            }
            items.set(at, above);
            items.set(up, child);
            at = up;
        }
        self.items = items;
    }

    /// Returns the greatest item, if there is any.
    pub fn peek(&self) -> (res: Option<&T>)
        ensures
            match res {
                Some(item) => self@.contains(*item) && forall|other: T| #[trigger]
                    self@.contains(other) ==> other.rank() <= item.rank(),
                None => self@ == Multiset::<T>::empty(),
            },
    {
        proof {
            use_type_invariant(&*self);
            top_of_items(self.items@);
        }
        if self.items.len() == 0 {
            None
        } else {
            Some(&self.items[0])
        }
    }

    /// Removes and returns the greatest item, if there is any.
    pub fn pop(&mut self) -> (res: Option<T>)
        ensures
            match res {
                Some(item) => {
                    &&& old(self)@.contains(item)
                    &&& forall|other: T| #[trigger]
                        old(self)@.contains(other) ==> other.rank() <= item.rank()
                    &&& final(self)@ == old(self)@.remove(item)
                },
                None => old(self)@ == Multiset::<T>::empty() && final(self)@ == old(self)@,
            },
    {
        proof {
            use_type_invariant(&*self);
            top_of_items(self.items@);
        }
        let mut items: Vec<T> = Vec::new();
        std::mem::swap(&mut items, &mut self.items);
        let ghost before = items@;
        let last = match items.pop() {
            Some(last) => last,
            None => {
                assert(self.items@ =~= before);
                return None;
            },
        };
        let ghost kept = items@;
        proof {
            assert(kept.push(last) =~= before);
            kept.to_multiset_ensures();
            before.to_multiset_ensures();
        }
        if items.len() == 0 {
            self.items = items;
            assert(self@ =~= old(self)@.remove(last));
            return Some(last);
        }
        let top = items[0];
        items.set(0, last);
        proof {
            assert(before =~= kept.push(last));
            let full = before.update(0, last).update(before.len() - 1, top);
            swap_keeps_items(before, 0, before.len() - 1);
            assert(full =~= items@.push(top));
            items@.to_multiset_ensures();
            assert(items@.to_multiset() =~= before.to_multiset().remove(top));
            assert forall|i: int| 0 < i < items@.len() && parent(i) != 0 implies (
            #[trigger] items@[i]).rank() <= items@[parent(i)].rank() by {
                assert(before[i].rank() <= before[parent(i)].rank());
            }
        }
        let len: usize = items.len();
        let mut at: usize = 0;
        while at < len / 2
            invariant
                len == items.len(),
                0 <= at < len,
                heap_but_down(items@, at as int),
                items@.to_multiset() == before.to_multiset().remove(top),
            ensures
                is_heap(items@),
                items@.to_multiset() == before.to_multiset().remove(top),
            decreases len - at,
        {
            let left: usize = 2 * at + 1;
            let mut down: usize = left;
            if left + 1 < len && items[left + 1].outranks(&items[left]) {
                down = left + 1;
            }
            let above = items[at];
            let child = items[down];
            if !child.outranks(&above) {
                assert forall|i: int| 0 < i < items@.len() implies (#[trigger] items@[i]).rank()
                    <= items@[parent(i)].rank() by {
                    if parent(i) == at {
                        assert(i == left || i == left + 1);
                    }
                }
                break;
            }
            proof {
                swap_keeps_items(items@, at as int, down as int);
            }
            let ghost prior = items@;
            items.set(at, child);
            items.set(down, above);
            proof {
                assert forall|i: int| 0 < i < items@.len() && parent(i) != down implies (
                #[trigger] items@[i]).rank() <= items@[parent(i)].rank() by {
                    if parent(i) == at {
                        assert(i == left || i == left + 1);
                    } else if i == at {
                        assert(prior[down as int].rank() <= prior[parent(at as int)].rank());
                    } else {
                        assert(prior[i].rank() <= prior[parent(i)].rank());
                    }
                }
                assert forall|i: int|
                    0 < i < items@.len() && parent(i) == down && down > 0 implies (
                #[trigger] items@[i]).rank() <= items@[parent(down as int)].rank() by {
                    assert(prior[i].rank() <= prior[parent(i)].rank());
                    assert(parent(down as int) == at);
                }
            }
            at = down;
        }
        self.items = items;
        Some(top)
    }
}

/// A run over the items at the top of a heap that a predicate accepts, which removes them.
///
/// See [`drain_heap_while`] for details.
pub struct DrainConditional<'a, T: HeapItem, F: Fn(&T) -> bool> {
    /// Heap to be drained.
    pub heap: &'a mut BinaryHeap<T>,
    /// Predicate function to determine whether or not to drain a specific element.
    pub predicate: F,
}

/// Removes items from the top of a heap while a given predicate is true.
pub fn drain_heap_while<'a, T: HeapItem, F: Fn(&T) -> bool>(
    heap: &'a mut BinaryHeap<T>,
    predicate: F,
) -> (drain: DrainConditional<'a, T, F>)
    ensures
        drain.predicate == predicate,
        *drain.heap == *old(heap),
        *final(drain.heap) == *final(heap),
{
    DrainConditional { heap, predicate }
}

/// Whether an item is the greatest one of a heap.
pub open spec fn is_greatest<T: HeapItem>(items: Multiset<T>, item: T) -> bool {
    items.contains(item) && forall|other: T| #[trigger]
        items.contains(other) ==> other.rank() <= item.rank()
}

impl<'a, T: HeapItem, F: Fn(&T) -> bool> DrainConditional<'a, T, F> {
    /// Removes and returns the greatest item of the heap, provided that the predicate accepts it.
    pub fn next(&mut self) -> (res: Option<T>)
        requires
            forall|item: T| call_requires(old(self).predicate, (&item,)),
        ensures
            final(self).predicate == old(self).predicate,
            *final(final(self).heap) == *final(old(self).heap),
            match res {
                Some(item) => {
                    &&& is_greatest(old(self).heap@, item)
                    &&& call_ensures(old(self).predicate, (&item,), true)
                    &&& final(self).heap@ == old(self).heap@.remove(item)
                },
                None => {
                    &&& final(self).heap@ == old(self).heap@
                    &&& old(self).heap@ == Multiset::<T>::empty() || exists|item: T|
                        is_greatest(old(self).heap@, item) && call_ensures(
                            old(self).predicate,
                            (&item,),
                            false,
                        )
                },
            },
    {
        let candidate: T = match self.heap.peek() {
            Some(candidate) => *candidate,
            None => {
                return None;
            },
        };
        assert(is_greatest(self.heap@, candidate));
        if (self.predicate)(&candidate) {
            let popped = self.heap.pop();
            proof {
                assert(old(self).heap@.contains(candidate));
                T::rank_is_unique(popped->0, candidate);
            }
            popped
        } else {
            None
        }
    }

    /// Removes all items at the top of the heap that the predicate accepts, the greatest first.
    pub fn collect(self) -> (res: Vec<T>)
        requires
            forall|item: T| call_requires(self.predicate, (&item,)),
        ensures
            old(self.heap)@ == final(self.heap)@.add(res@.to_multiset()),
            forall|i: int|
                0 <= i < res.len() ==> call_ensures(self.predicate, (&#[trigger] res[i],), true),
            forall|i: int, j: int| 0 <= i < j < res.len() ==> res[i].rank() >= res[j].rank(),
            forall|i: int, other: T|
                0 <= i < res.len() && #[trigger] final(self.heap)@.contains(other)
                    ==> (#[trigger] res[i]).rank() >= other.rank(),
            final(self.heap)@ == Multiset::<T>::empty() || exists|item: T|
                is_greatest(final(self.heap)@, item) && call_ensures(
                    self.predicate,
                    (&item,),
                    false,
                ),
    {
        let mut drain = self;
        let mut res: Vec<T> = Vec::new();
        proof {
            res@.to_multiset_ensures();
            assert(self.heap@ =~= drain.heap@.add(res@.to_multiset()));
        }
        loop
            invariant
                drain.predicate == self.predicate,
                *final(drain.heap) == *final(self.heap),
                forall|item: T| call_requires(self.predicate, (&item,)),
                self.heap@ == drain.heap@.add(res@.to_multiset()),
                forall|i: int|
                    0 <= i < res.len() ==> call_ensures(
                        self.predicate,
                        (&#[trigger] res[i],),
                        true,
                    ),
                forall|i: int, j: int| 0 <= i < j < res.len() ==> res[i].rank() >= res[j].rank(),
                forall|i: int, other: T|
                    0 <= i < res.len() && #[trigger] drain.heap@.contains(other)
                        ==> (#[trigger] res[i]).rank() >= other.rank(),
            ensures
                drain.heap@ == Multiset::<T>::empty() || exists|item: T|
                    is_greatest(drain.heap@, item) && call_ensures(
                        self.predicate,
                        (&item,),
                        false,
                    ),
            decreases drain.heap@.len(),
        {
            let ghost left = drain.heap@;
            let ghost taken = res@;
            match drain.next() {
                Some(item) => {
                    res.push(item);
                    proof {
                        taken.to_multiset_ensures();
                        assert(self.heap@ =~= drain.heap@.add(res@.to_multiset()));
                        assert forall|other: T| #[trigger] drain.heap@.contains(other) implies
                            left.contains(other) by {}
                    }
                },
                None => {
                    break;
                },
            }
        }
        res
    }
}

/// The root of a heap is one of its items and ranks highest.
proof fn top_of_items<T: HeapItem>(s: Seq<T>)
    requires
        is_heap(s),
    ensures
        s.len() == 0 ==> s.to_multiset() == Multiset::<T>::empty(),
        s.len() > 0 ==> s.to_multiset().contains(s[0]) && forall|other: T| #[trigger]
            s.to_multiset().contains(other) ==> other.rank() <= s[0].rank(),
{
    s.to_multiset_ensures();
    if s.len() > 0 {
        assert(s.contains(s[0]));
        assert forall|other: T| #[trigger] s.to_multiset().contains(other) implies other.rank()
            <= s[0].rank() by {
            assert(s.contains(other));
            let i = choose|i: int| 0 <= i < s.len() && s[i] == other;
            root_is_greatest(s, i);
        }
    } else {
        assert(s.to_multiset() =~= Multiset::<T>::empty());
    }
}

/// Numbers rank by their value.
pub proof fn numbers_rank_by_value(a: i32, b: i32, c: u32, d: u32)
    ensures
        a.rank() > b.rank() <==> a > b,
        c.rank() > d.rank() <==> c > d,
{
}

/// An item is the greatest one exactly if it is in the heap and no item of the heap ranks above it.
pub proof fn greatest_items_outrank_all<T: HeapItem>(items: Multiset<T>, item: T, other: T)
    ensures
        is_greatest(items, item) ==> items.count(item) > 0,
        is_greatest(items, item) && items.count(other) > 0 ==> other.rank() <= item.rank(),
        !is_greatest(items, item) && items.count(item) > 0 ==> exists|better: T| #[trigger]
            items.contains(better) && better.rank() > item.rank(),
{
    assert(items.count(other) > 0 ==> items.contains(other));
    assert(items.count(item) > 0 ==> items.contains(item));
}

} // verus!
