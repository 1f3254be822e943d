//! Binding-slot allocation with a free list: freed slots are reused before new ones are
//! minted from a growing counter.
use vstd::prelude::*;

verus! {

/// Mathematical model of a slot pool.
pub struct PoolModel {
    /// Next slot to mint when the free list is empty.
    pub next: nat,
    /// Released slots, the last one reused first.
    pub free: Seq<nat>,
}

impl PoolModel {
    /// The pool of a fresh context: nothing issued yet.
    pub open spec fn fresh() -> PoolModel {
        PoolModel { next: 0, free: Seq::empty() }
    }

    /// Free slots are distinct and were all issued before.
    pub open spec fn wf(self) -> bool {
        &&& self.free.no_duplicates()
        &&& forall|i: int| 0 <= i < self.free.len() ==> (#[trigger] self.free[i]) < self.next
    }

    /// A slot is live when it was issued and has not been released since.
    pub open spec fn is_live(self, slot: nat) -> bool {
        slot < self.next && !self.free.contains(slot)
    }

    /// No slot is held by a live binding.
    pub open spec fn no_live(self) -> bool {
        forall|s: nat| !(#[trigger] self.is_live(s))
    }

    /// The slot that the next allocation hands out.
    pub open spec fn alloc_slot(self) -> nat {
        if self.free.len() > 0 {
            self.free.last()
        } else {
            self.next
        }
    }

    /// The pool after one allocation.
    pub open spec fn allocated(self) -> PoolModel {
        if self.free.len() > 0 {
            PoolModel { next: self.next, free: self.free.drop_last() }
        } else {
            PoolModel { next: self.next + 1, free: self.free }
        }
    }

    /// The pool after a slot is released.
    pub open spec fn released(self, slot: nat) -> PoolModel {
        PoolModel { next: self.next, free: self.free.push(slot) }
    }

    /// The slots handed out by `n` allocations in a row, and the pool after them.
    pub open spec fn allocate_n(self, n: nat) -> (PoolModel, Seq<nat>)
        decreases n,
    {
        if n == 0 {
            (self, Seq::empty())
        } else {
            let (p, slots) = self.allocate_n((n - 1) as nat);
            (p.allocated(), slots.push(p.alloc_slot()))
        }
    }

    /// The pool after releasing the given slots in order.
    pub open spec fn release_all(self, slots: Seq<nat>) -> PoolModel
        decreases slots.len(),
    {
        if slots.len() == 0 {
            self
        } else {
            self.release_all(slots.drop_last()).released(slots.last())
        }
    }
}

/// Allocation hands out a slot that is not live, makes it live, and leaves every other
/// slot as it was.
pub proof fn lemma_allocate(p: PoolModel)
    requires
        p.wf(),
    ensures
        p.allocated().wf(),
        !p.is_live(p.alloc_slot()),
        p.allocated().is_live(p.alloc_slot()),
        p.alloc_slot() < p.allocated().next,
        forall|s: nat| s != p.alloc_slot() ==> p.allocated().is_live(s) == #[trigger] p.is_live(s),
{
    if p.free.len() > 0 {
        let q = p.allocated();
        let last = p.free.last();
        assert(p.free.contains(last));
        assert(p.free =~= q.free.push(last));
        assert forall|s: nat| s != p.alloc_slot() implies q.is_live(s) == #[trigger] p.is_live(s) by {
            if p.free.contains(s) && !q.free.contains(s) {
                let i = choose|i: int| 0 <= i < p.free.len() && p.free[i] == s;
                if i < q.free.len() {
                    assert(q.free[i] == p.free[i]);
                }
            }
            if q.free.contains(s) {
                let i = choose|i: int| 0 <= i < q.free.len() && q.free[i] == s;
                assert(p.free[i] == q.free[i]);
            }
        }
        assert(!q.free.contains(last)) by {
            if q.free.contains(last) {
                let i = choose|i: int| 0 <= i < q.free.len() && q.free[i] == last;
                assert(p.free[i] == p.free[p.free.len() - 1]);
            }
        }
    } else {
        assert forall|s: nat| s != p.alloc_slot() implies p.allocated().is_live(s)
            == #[trigger] p.is_live(s) by {}
    }
}

/// Releasing a live slot keeps the pool well formed, makes that slot free, and leaves
/// every other slot as it was.
pub proof fn lemma_release(p: PoolModel, slot: nat)
    requires
        p.wf(),
        p.is_live(slot),
    ensures
        p.released(slot).wf(),
        !p.released(slot).is_live(slot),
        forall|s: nat| s != slot ==> p.released(slot).is_live(s) == #[trigger] p.is_live(s),
{
    let q = p.released(slot);
    assert forall|i: int| 0 <= i < q.free.len() implies (#[trigger] q.free[i]) < q.next by {
        if i < p.free.len() {
            assert(q.free[i] == p.free[i]);
        }
    }
    assert(q.free[p.free.len() as int] == slot);
    assert forall|s: nat| s != slot implies q.is_live(s) == #[trigger] p.is_live(s) by {
        if q.free.contains(s) && s < p.next {
            let i = choose|i: int| 0 <= i < q.free.len() && q.free[i] == s;
            if i < p.free.len() {
                assert(p.free[i] == q.free[i]);
            }
        }
        if p.free.contains(s) {
            let i = choose|i: int| 0 <= i < p.free.len() && p.free[i] == s;
            assert(q.free[i] == p.free[i]);
        }
    }
}

/// Slot uniqueness: `n` allocations in a row hand out pairwise distinct slots, none of
/// them live beforehand, and all of them live afterwards.
pub proof fn lemma_slot_uniqueness(p: PoolModel, n: nat)
    requires
        p.wf(),
    ensures
        p.allocate_n(n).0.wf(),
        p.allocate_n(n).1.len() == n,
        p.allocate_n(n).1.no_duplicates(),
        forall|i: int| 0 <= i < n ==> !p.is_live(#[trigger] p.allocate_n(n).1[i]),
        forall|i: int| 0 <= i < n ==> p.allocate_n(n).0.is_live(#[trigger] p.allocate_n(n).1[i]),
        forall|s: nat| #[trigger]
            p.allocate_n(n).0.is_live(s) <==> (p.is_live(s) || p.allocate_n(n).1.contains(s)),
    decreases n,
{
    if n > 0 {
        lemma_slot_uniqueness(p, (n - 1) as nat);
        let (q, slots) = p.allocate_n((n - 1) as nat);
        lemma_allocate(q);
        let all = slots.push(q.alloc_slot());
        assert(p.allocate_n(n).1 == all);
        assert forall|i: int| 0 <= i < n implies !p.is_live(#[trigger] all[i]) && q.allocated().is_live(all[i]) by {
            if i < n - 1 {
                assert(all[i] == slots[i]);
                assert(q.is_live(slots[i]));
            }
        }
        assert forall|s: nat| #[trigger] q.allocated().is_live(s) <==> (p.is_live(s) || all.contains(s)) by {
            assert(q.is_live(s) <==> (p.is_live(s) || slots.contains(s)));
            if s != q.alloc_slot() {
                assert(q.allocated().is_live(s) == q.is_live(s));
            }
            if all.contains(s) && s != q.alloc_slot() {
                let i = choose|i: int| 0 <= i < all.len() && all[i] == s;
                assert(slots[i] == s);
            }
            if slots.contains(s) {
                let i = choose|i: int| 0 <= i < slots.len() && slots[i] == s;
                assert(all[i] == s);
            }
            if s == q.alloc_slot() {
                assert(all[n - 1] == s);
            }
        }
        assert forall|i: int, j: int| 0 <= i < j < all.len() implies all[i] != all[j] by {
            if j < n - 1 {
                assert(all[i] == slots[i] && all[j] == slots[j]);
            } else {
                assert(q.is_live(slots[i]));
            }
        }
    }
}

/// Slot reuse: after a live slot is released, the next allocation hands it back, before
/// any slot at or above the prior high-water mark.
pub proof fn lemma_slot_reuse(p: PoolModel, slot: nat)
    requires
        p.wf(),
        p.is_live(slot),
    ensures
        p.released(slot).alloc_slot() == slot,
        p.released(slot).alloc_slot() < p.next,
        p.released(slot).allocated().next == p.next,
{
}

/// The slots below `n`.
pub open spec fn slots_below(n: nat) -> Set<nat> {
    Set::new(|s: nat| s < n)
}

proof fn lemma_slots_below_len(n: nat)
    ensures
        slots_below(n).finite(),
        slots_below(n).len() == n,
    decreases n,
{
    if n > 0 {
        let m = (n - 1) as nat;
        lemma_slots_below_len(m);
        assert(slots_below(n) =~= slots_below(m).insert(m));
    } else {
        assert(slots_below(n) =~= Set::empty());
    }
}

/// In a well-formed pool, no slot is live exactly when every issued slot is free.
pub proof fn lemma_no_live_len(p: PoolModel)
    requires
        p.wf(),
    ensures
        p.no_live() ==> p.free.len() == p.next,
        p.no_live() <==> p.free.to_set() == slots_below(p.next),
{
    p.free.unique_seq_to_set();
    lemma_slots_below_len(p.next);
    if p.no_live() {
        assert forall|s: nat| #[trigger] p.free.to_set().contains(s) <==> slots_below(p.next).contains(s) by {
            assert(!p.is_live(s));
            if p.free.contains(s) {
                let i = choose|i: int| 0 <= i < p.free.len() && p.free[i] == s;
            }
        }
        assert(p.free.to_set() =~= slots_below(p.next));
    }
    if p.free.to_set() == slots_below(p.next) {
        assert forall|s: nat| !(#[trigger] p.is_live(s)) by {
            if s < p.next {
                assert(slots_below(p.next).contains(s));
            }
        }
    }
}

proof fn lemma_allocate_n_from_empty(p: PoolModel, n: nat)
    requires
        p.free.len() == 0,
    ensures
        p.allocate_n(n).0 == (PoolModel { next: p.next + n, free: p.free }),
    decreases n,
{
    if n > 0 {
        lemma_allocate_n_from_empty(p, (n - 1) as nat);
    }
}

/// Releasing distinct live slots one after the other keeps the pool well formed, frees
/// exactly those slots, and adds one free entry per slot.
pub proof fn lemma_release_all(p: PoolModel, slots: Seq<nat>)
    requires
        p.wf(),
        slots.no_duplicates(),
        forall|i: int| 0 <= i < slots.len() ==> p.is_live(#[trigger] slots[i]),
    ensures
        p.release_all(slots).wf(),
        p.release_all(slots).next == p.next,
        p.release_all(slots).free.len() == p.free.len() + slots.len(),
        forall|s: nat| #[trigger]
            p.release_all(slots).is_live(s) <==> (p.is_live(s) && !slots.contains(s)),
    decreases slots.len(),
{
    if slots.len() > 0 {
        let init = slots.drop_last();
        let last = slots.last();
        assert forall|i: int| 0 <= i < init.len() implies p.is_live(#[trigger] init[i]) by {
            assert(init[i] == slots[i]);
        }
        assert(init.no_duplicates()) by {
            assert forall|i: int, j: int| 0 <= i < j < init.len() implies init[i] != init[j] by {
                assert(init[i] == slots[i] && init[j] == slots[j]);
            }
        }
        lemma_release_all(p, init);
        let q = p.release_all(init);
        assert(!init.contains(last)) by {
            if init.contains(last) {
                let i = choose|i: int| 0 <= i < init.len() && init[i] == last;
                assert(slots[i] == slots[slots.len() - 1]);
            }
        }
        assert(p.is_live(slots[slots.len() - 1]));
        assert(q.is_live(last));
        lemma_release(q, last);
        assert forall|s: nat| #[trigger] q.released(last).is_live(s) <==> (p.is_live(s)
            && !slots.contains(s)) by {
            assert(q.is_live(s) <==> (p.is_live(s) && !init.contains(s)));
            if s != last {
                assert(q.released(last).is_live(s) == q.is_live(s));
            }
            if slots.contains(s) && s != last {
                let i = choose|i: int| 0 <= i < slots.len() && slots[i] == s;
                assert(init[i] == s);
            }
            if init.contains(s) {
                let i = choose|i: int| 0 <= i < init.len() && init[i] == s;
                assert(slots[i] == s);
            }
            if s == last {
                assert(slots[slots.len() - 1] == s);
            }
        }
    }
}

/// No leak across scopes: starting from a pool with no live slot, allocating `n` slots
/// and then releasing every one of them, in any order, leaves no live slot and a free
/// list as long as the number of slots ever issued; from a fresh pool, that is `n`.
pub proof fn lemma_no_leak(p: PoolModel, n: nat, order: Seq<nat>)
    requires
        p.wf(),
        p.no_live(),
        order.no_duplicates(),
        forall|s: nat| #[trigger] order.contains(s) <==> p.allocate_n(n).1.contains(s),
    ensures
        p.allocate_n(n).0.release_all(order).wf(),
        p.allocate_n(n).0.release_all(order).no_live(),
        p.allocate_n(n).0.release_all(order).free.len() == p.allocate_n(n).0.release_all(order).next,
        p == PoolModel::fresh() ==> p.allocate_n(n).0.release_all(order).free.len() == n,
{
    lemma_slot_uniqueness(p, n);
    let (q, slots) = p.allocate_n(n);
    assert forall|i: int| 0 <= i < order.len() implies q.is_live(#[trigger] order[i]) by {
        assert(order.contains(order[i]));
        assert(q.is_live(order[i]) <==> (p.is_live(order[i]) || slots.contains(order[i])));
    }
    lemma_release_all(q, order);
    let r = q.release_all(order);
    assert forall|s: nat| !(#[trigger] r.is_live(s)) by {
        assert(!p.is_live(s));
        assert(q.is_live(s) <==> (p.is_live(s) || slots.contains(s)));
    }
    lemma_no_live_len(r);
    if p == PoolModel::fresh() {
        lemma_allocate_n_from_empty(p, n);
    }
}

/// A pool of binding slots for one resource class: a growing counter and a free list.
pub struct SlotPool {
    next: u32,
    free: Vec<u32>,
}

impl View for SlotPool {
    type V = PoolModel;

    closed spec fn view(&self) -> PoolModel {
        PoolModel { next: self.next as nat, free: self.free@.map_values(|x: u32| x as nat) }
    }
}

impl SlotPool {
    /// A pool that has issued no slot yet.
    pub fn new() -> (r: SlotPool)
        ensures
            r@ == PoolModel::fresh(),
            r@.wf(),
    {
        let r = SlotPool { next: 0, free: Vec::new() };
        assert(r@.free =~= Seq::empty());
        r
    }

    /// Whether one more slot can be handed out without the counter overflowing.
    pub fn can_allocate(&self) -> (r: bool)
        ensures
            r == (self@.free.len() > 0 || self@.next < u32::MAX),
    {
        self.free.len() > 0 || self.next < u32::MAX
    }

    /// Hand out a slot: the most recently released one if any, else a new one.
    pub fn allocate(&mut self) -> (slot: u32)
        requires
            old(self)@.wf(),
            old(self)@.free.len() > 0 || old(self)@.next < u32::MAX,
        ensures
            final(self)@ == old(self)@.allocated(),
            final(self)@.wf(),
            slot as nat == old(self)@.alloc_slot(),
            !old(self)@.is_live(slot as nat),
            final(self)@.is_live(slot as nat),
    {
        proof {
            lemma_allocate(self@);
        }
        match self.free.pop() {
            Some(slot) => {
                assert(self@.free =~= old(self)@.free.drop_last());
                slot
            },
            None => {
                let slot = self.next;
                self.next = self.next + 1;
                slot
            },
        }
    }

    /// Put a live slot back on the free list.
    pub fn release(&mut self, slot: u32)
        requires
            old(self)@.wf(),
            old(self)@.is_live(slot as nat),
        ensures
            final(self)@ == old(self)@.released(slot as nat),
            final(self)@.wf(),
            !final(self)@.is_live(slot as nat),
    {
        proof {
            lemma_release(self@, slot as nat);
        }
        self.free.push(slot);
        assert(self@.free =~= old(self)@.free.push(slot as nat));
    }

    /// Whether a slot is currently held by a live binding.
    pub fn is_live(&self, slot: u32) -> (r: bool)
        ensures
            r == self@.is_live(slot as nat),
    {
        if slot >= self.next {
            return false;
        }
        let mut i: usize = 0;
        while i < self.free.len()
            invariant
                0 <= i <= self.free.len(),
                forall|j: int| 0 <= j < i ==> self.free@[j] != slot,
            decreases self.free.len() - i,
        {
            if self.free[i] == slot {
                assert(self@.free[i as int] == slot as nat);
                return false;
            }
            i = i + 1;
        }
        assert(!self@.free.contains(slot as nat)) by {
            if self@.free.contains(slot as nat) {
                let j = choose|j: int| 0 <= j < self@.free.len() && self@.free[j] == slot as nat;
                assert(self.free@[j] == slot);
            }
        }
        true
    }

    /// The number of slots issued so far.
    pub fn high_water_mark(&self) -> (r: u32)
        ensures
            r as nat == self@.next,
    {
        self.next
    }

    /// The number of slots on the free list.
    pub fn free_count(&self) -> (r: usize)
        ensures
            r as nat == self@.free.len(),
    {
        self.free.len()
    }
}

} // verus!
