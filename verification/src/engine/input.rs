use vstd::prelude::*;

verus! {

/// The number of ripple shockwaves the input controller keeps at once.
pub const MAX_RIPPLES: usize = 5;

/// The items of `items` whose flag in `alive` is set, in their order.
pub open spec fn kept<T>(items: Seq<T>, alive: Seq<bool>) -> Seq<T>
    decreases items.len(),
{
    if items.len() == 0 {
        Seq::empty()
    } else {
        let rest = kept(items.drop_last(), alive.drop_last());
        if alive.last() {
            rest.push(items.last())
        } else {
            rest
        }
    }
}

/// `items` after `item` arrives in a queue that holds at most `capacity`:
/// when the queue is full the oldest item leaves first.
pub open spec fn pushed<T>(items: Seq<T>, capacity: nat, item: T) -> Seq<T> {
    if items.len() >= capacity {
        items.drop_first().push(item)
    } else {
        items.push(item)
    }
}

/// The abstract state of a [`RippleQueue`]: its items, oldest first, and its capacity.
pub struct RippleQueueView<T> {
    pub items: Seq<T>,
    pub capacity: nat,
}

impl<T> RippleQueueView<T> {
    pub open spec fn wf(self) -> bool {
        &&& 0 < self.capacity
        &&& self.items.len() <= self.capacity
    }
}

/// The live ripple shockwaves of the input controller, oldest first, at most
/// `capacity` of them: a new ripple pushes the oldest out when the queue is full,
/// and ripples whose life has run out are evicted together.
pub struct RippleQueue<T> {
    items: Vec<T>,
    capacity: usize,
}

impl<T> View for RippleQueue<T> {
    type V = RippleQueueView<T>;

    closed spec fn view(&self) -> RippleQueueView<T> {
        RippleQueueView { items: self.items@, capacity: self.capacity as nat }
    }
}

impl<T> RippleQueue<T> {
    pub open spec fn wf(&self) -> bool {
        self@.wf()
    }

    /// An empty queue that holds at most `capacity` ripples.
    pub fn new(capacity: usize) -> (r: Self)
        requires
            capacity > 0,
        ensures
            r@.items == Seq::<T>::empty(),
            r@.capacity == capacity,
            r.wf(),
    {
        RippleQueue { items: Vec::new(), capacity }
    }

    /// The number of live ripples.
    pub fn len(&self) -> (r: usize)
        ensures
            r == self@.items.len(),
    {
        self.items.len()
    }

    pub fn capacity(&self) -> (r: usize)
        ensures
            r == self@.capacity,
    {
        self.capacity
    }

    /// The ripples, oldest first.
    pub fn items(&self) -> (r: &Vec<T>)
        ensures
            r@ == self@.items,
    {
        &self.items
    }

    /// The ripple at position `i`, counted from the oldest.
    pub fn get(&self, i: usize) -> (r: &T)
        requires
            i < self@.items.len(),
        ensures
            *r == self@.items[i as int],
    {
        &self.items[i]
    }

    /// Replaces the ripple at position `i`.
    pub fn set(&mut self, i: usize, item: T)
        requires
            old(self).wf(),
            i < old(self)@.items.len(),
        ensures
            final(self)@.items == old(self)@.items.update(i as int, item),
            final(self)@.capacity == old(self)@.capacity,
            final(self).wf(),
    {
        self.items.set(i, item);
    }

    /// Adds a ripple as the newest; when the queue is full the oldest leaves first.
    pub fn push(&mut self, item: T)
        requires
            old(self).wf(),
        ensures
            final(self)@.items == pushed(old(self)@.items, old(self)@.capacity, item),
            final(self)@.capacity == old(self)@.capacity,
            final(self).wf(),
    {
        if self.items.len() >= self.capacity {
            self.items.remove(0);
        }
        self.items.push(item);
    }

    /// Keeps the ripples whose flag in `alive` is set (one flag per ripple, in
    /// the same order) and drops the others.
    pub fn retain_alive(&mut self, alive: &Vec<bool>)
        requires
            old(self).wf(),
            alive@.len() == old(self)@.items.len(),
        ensures
            final(self)@.items == kept(old(self)@.items, alive@),
            final(self)@.capacity == old(self)@.capacity,
            final(self).wf(),
    {
        let n = self.items.len();
        let mut old_items: Vec<T> = Vec::new();
        std::mem::swap(&mut old_items, &mut self.items);
        let ghost all = old_items@;
        let mut survivors: Vec<T> = Vec::new();
        let mut i: usize = 0;
        while i < n
            invariant
                n == all.len(),
                alive@.len() == n,
                i <= n,
                old_items@ == all.skip(i as int),
                survivors@ == kept(all.take(i as int), alive@.take(i as int)),
                survivors@.len() <= i,
            decreases n - i,
        {
            let x = old_items.remove(0);
            assert(x == all[i as int]);
            assert(all.skip(i as int).drop_first() =~= all.skip(i + 1));
            assert(all.take(i + 1).drop_last() =~= all.take(i as int));
            assert(alive@.take(i + 1).drop_last() =~= alive@.take(i as int));
            if alive[i] {
                survivors.push(x);
            }
            i = i + 1;
        }
        assert(all.take(n as int) =~= all);
        assert(alive@.take(n as int) =~= alive@);
        self.items = survivors;
    }
}

/// A queue never holds more ripples than its capacity: a push keeps it within
/// bounds, keeps the new ripple as the newest, and drops the oldest only when
/// the queue was full.
pub proof fn law_push_bounded<T>(items: Seq<T>, capacity: nat, item: T)
    requires
        0 < capacity,
        items.len() <= capacity,
    ensures
        pushed(items, capacity, item).len() <= capacity,
        pushed(items, capacity, item).last() == item,
        items.len() < capacity ==> pushed(items, capacity, item) == items.push(item),
        items.len() == capacity ==> pushed(items, capacity, item) == items.subrange(1, items.len() as int).push(item),
{
}

/// The ripples that survive are a subsequence, in order, of the ones before:
/// each survivor is one of the old ripples and there are no more of them.
pub proof fn law_kept_is_subsequence<T>(items: Seq<T>, alive: Seq<bool>)
    requires
        alive.len() == items.len(),
    ensures
        kept(items, alive).len() <= items.len(),
        forall|x: T| kept(items, alive).contains(x) ==> items.contains(x),
    decreases items.len(),
{
    if items.len() > 0 {
        law_kept_is_subsequence(items.drop_last(), alive.drop_last());
        let rest = kept(items.drop_last(), alive.drop_last());
        assert forall|x: T| kept(items, alive).contains(x) implies items.contains(x) by {
            if rest.contains(x) {
                let k = choose|k: int| 0 <= k < rest.len() && rest[k] == x;
                assert(items.drop_last().contains(x));
                let m = choose|m: int| 0 <= m < items.drop_last().len() && items.drop_last()[m] == x;
                assert(items[m] == x);
            } else {
                let k = choose|k: int| 0 <= k < kept(items, alive).len() && kept(items, alive)[k] == x;
                assert(items[items.len() - 1] == x);
            }
        }
    }
}

/// When every ripple has run out, none is left; when every ripple is alive,
/// all stay, in their order.
pub proof fn law_kept_extremes<T>(items: Seq<T>, alive: Seq<bool>)
    requires
        alive.len() == items.len(),
    ensures
        (forall|j: int| 0 <= j < alive.len() ==> !#[trigger] alive[j]) ==> kept(items, alive).len() == 0,
        (forall|j: int| 0 <= j < alive.len() ==> #[trigger] alive[j]) ==> kept(items, alive) == items,
    decreases items.len(),
{
    if items.len() > 0 {
        law_kept_extremes(items.drop_last(), alive.drop_last());
        if forall|j: int| 0 <= j < alive.len() ==> !#[trigger] alive[j] {
            assert(!alive[alive.len() - 1]);
            assert forall|j: int| 0 <= j < alive.drop_last().len() implies !#[trigger] alive.drop_last()[j] by {
                assert(!alive[j]);
            }
        }
        if forall|j: int| 0 <= j < alive.len() ==> #[trigger] alive[j] {
            assert(alive[alive.len() - 1]);
            assert forall|j: int| 0 <= j < alive.drop_last().len() implies #[trigger] alive.drop_last()[j] by {
                assert(alive[j]);
            }
            assert(items.drop_last().push(items.last()) =~= items);
        }
    }
}

/// The number of set flags in `alive`.
pub open spec fn live_count(alive: Seq<bool>) -> nat
    decreases alive.len(),
{
    if alive.len() == 0 {
        0
    } else {
        live_count(alive.drop_last()) + if alive.last() { 1nat } else { 0nat }
    }
}

proof fn lemma_live_count_step(alive: Seq<bool>, i: int)
    requires
        0 <= i < alive.len(),
    ensures
        live_count(alive.take(i + 1)) == live_count(alive.take(i)) + if alive[i] { 1nat } else { 0nat },
{
    assert(alive.take(i + 1).drop_last() =~= alive.take(i));
}

proof fn lemma_live_count_prefix(alive: Seq<bool>, i: int)
    requires
        0 <= i <= alive.len(),
    ensures
        live_count(alive.take(i)) <= live_count(alive),
    decreases alive.len() - i,
{
    if i < alive.len() {
        lemma_live_count_step(alive, i);
        lemma_live_count_prefix(alive, i + 1);
    } else {
        assert(alive.take(i) =~= alive);
    }
}

/// Evicting keeps exactly the ripples whose flag is set, in their order: the
/// survivors are as many as the set flags, and the ripple at position `i`
/// with its flag set is the survivor that follows the survivors from the
/// positions before `i`. Adding a ripple and its flag at the end adds that
/// ripple at the end of the survivors exactly when its flag is set.
pub proof fn law_kept_selects_flagged<T>(items: Seq<T>, alive: Seq<bool>)
    requires
        alive.len() == items.len(),
    ensures
        kept(Seq::<T>::empty(), Seq::<bool>::empty()) == Seq::<T>::empty(),
        kept(items, alive).len() == live_count(alive),
        forall|i: int|
            0 <= i < items.len() && #[trigger] alive[i] ==> kept(items, alive)[live_count(alive.take(i)) as int]
                == items[i],
        forall|x: T, b: bool|
            #[trigger] kept(items.push(x), alive.push(b)) == if b {
                kept(items, alive).push(x)
            } else {
                kept(items, alive)
            },
    decreases items.len(),
{
    assert forall|x: T, b: bool|
        #[trigger] kept(items.push(x), alive.push(b)) == if b {
            kept(items, alive).push(x)
        } else {
            kept(items, alive)
        } by {
        assert(items.push(x).drop_last() =~= items);
        assert(alive.push(b).drop_last() =~= alive);
    }
    if items.len() > 0 {
        let s = items.drop_last();
        let a = alive.drop_last();
        law_kept_selects_flagged(s, a);
        let rest = kept(s, a);
        let n = items.len() - 1;
        assert forall|i: int|
            0 <= i < items.len() && #[trigger] alive[i] implies kept(items, alive)[live_count(
                alive.take(i),
            ) as int] == items[i] by {
            if i == n {
                assert(alive.take(i) =~= a);
            } else {
                assert(alive.take(i) =~= a.take(i));
                assert(a[i] == alive[i]);
                lemma_live_count_step(a, i);
                lemma_live_count_prefix(a, i + 1);
                assert(rest[live_count(a.take(i)) as int] == s[i]);
            }
        }
    }
}

} // verus!
