//! The pool of cron transaction ids of a fanout, as a set of free ids below a
//! counter, and how a sorted list stands for that set.
use vstd::prelude::*;

verus! {

/// The ids of a fanout: every id below `next_id` has been handed out at some
/// time, and those in `free` have come back since.
pub struct SlotPool {
    pub next_id: u32,
    pub free: Set<u32>,
}

impl SlotPool {
    /// No free id is at or above the counter, and the id just below the
    /// counter is in use: a free one there would have lowered the counter.
    pub open spec fn wf(self) -> bool {
        &&& forall|id: u32| self.free.contains(id) ==> id < self.next_id
        &&& self.next_id > 0 ==> !self.free.contains((self.next_id - 1) as u32)
    }

    /// `id` is free and no free id is larger.
    pub open spec fn largest_free(self, id: u32) -> bool {
        &&& self.free.contains(id)
        &&& forall|other: u32| self.free.contains(other) ==> other <= id
    }

    /// Taking an id out of the pool gives `id` and leaves `after`: the
    /// largest free id if there is one, else the counter, which then moves up.
    pub open spec fn allocates(self, id: u32, after: SlotPool) -> bool {
        if self.free.is_empty() {
            &&& id == self.next_id
            &&& after.next_id == self.next_id + 1
            &&& after.free == self.free
        } else {
            &&& self.largest_free(id)
            &&& after.next_id == self.next_id
            &&& after.free == self.free.remove(id)
        }
    }

    /// Lowers the counter as long as the id just below it is free, taking
    /// that id out of the free set.
    pub open spec fn compact(self) -> SlotPool
        decreases self.next_id,
    {
        if self.next_id > 0 && self.free.contains((self.next_id - 1) as u32) {
            (SlotPool {
                next_id: (self.next_id - 1) as u32,
                free: self.free.remove((self.next_id - 1) as u32),
            }).compact()
        } else {
            self
        }
    }

    /// The pool after `id` has come back.
    pub open spec fn release(self, id: u32) -> SlotPool {
        (SlotPool { free: self.free.insert(id), ..self }).compact()
    }
}

/// Each element is smaller than the ones after it.
pub open spec fn ascending(s: Seq<u32>) -> bool {
    forall|i: int, j: int| 0 <= i < j < s.len() ==> s[i] < s[j]
}

/// Compacting leaves no free id at or above the counter if none was there,
/// and none just below it.
pub proof fn lemma_compact_wf(pool: SlotPool)
    requires
        forall|id: u32| pool.free.contains(id) ==> id < pool.next_id,
    ensures
        pool.compact().wf(),
        pool.compact().next_id <= pool.next_id,
    decreases pool.next_id,
{
    if pool.next_id > 0 && pool.free.contains((pool.next_id - 1) as u32) {
        let inner = SlotPool {
            next_id: (pool.next_id - 1) as u32,
            free: pool.free.remove((pool.next_id - 1) as u32),
        };
        assert forall|id: u32| inner.free.contains(id) implies id < inner.next_id by {
            assert(pool.free.contains(id));
        }
        lemma_compact_wf(inner);
    }
}

/// An id below the counter that comes back leaves the pool well formed.
pub proof fn lemma_release_wf(pool: SlotPool, id: u32)
    requires
        pool.wf(),
        id < pool.next_id,
    ensures
        pool.release(id).wf(),
{
    lemma_compact_wf(SlotPool { free: pool.free.insert(id), ..pool });
}

/// An id taken out of a well-formed pool leaves it well formed.
pub proof fn lemma_allocate_wf(pool: SlotPool, id: u32, after: SlotPool)
    requires
        pool.wf(),
        pool.allocates(id, after),
    ensures
        after.wf(),
        id < after.next_id,
        !after.free.contains(id),
{
    if pool.free.is_empty() {
        assert(!pool.free.contains(id));
    }
}

/// An id that is taken and given back at once leaves the pool as it was.
pub proof fn lemma_allocate_release(pool: SlotPool, id: u32, after: SlotPool)
    requires
        pool.wf(),
        pool.allocates(id, after),
    ensures
        after.release(id).next_id == pool.next_id,
        after.release(id).free == pool.free,
        after.release(id) == pool,
{
    let back = SlotPool { free: after.free.insert(id), ..after };
    if pool.free.is_empty() {
        // The counter moved up by one; giving the id back moves it down again.
        assert(back.free.contains((back.next_id - 1) as u32));
        let inner = SlotPool {
            next_id: (back.next_id - 1) as u32,
            free: back.free.remove((back.next_id - 1) as u32),
        };
        assert(inner.free =~= pool.free);
        assert(inner == pool);
        assert(back.compact() == inner.compact());
        assert(inner.compact() == inner);
    } else {
        assert(back.free =~= pool.free);
        assert(back == pool);
        assert(pool.compact() == pool);
    }
}

/// A sorted list holds no id twice.
pub proof fn lemma_ascending_no_duplicates(s: Seq<u32>)
    requires
        ascending(s),
    ensures
        s.no_duplicates(),
{
    assert forall|i: int, j: int| 0 <= i < s.len() && 0 <= j < s.len() && i != j implies s[i]
        != s[j] by {
        if i < j {
            assert(s[i] < s[j]);
        } else {
            assert(s[j] < s[i]);
        }
    }
}

/// Two sorted lists that hold the same ids are the same list.
pub proof fn lemma_ascending_unique(a: Seq<u32>, b: Seq<u32>)
    requires
        ascending(a),
        ascending(b),
        a.to_set() == b.to_set(),
    ensures
        a == b,
    decreases a.len(),
{
    if a.len() == 0 {
        if b.len() > 0 {
            assert(b.to_set().contains(b[0]));
            assert(a.contains(b[0]));
        }
        assert(a =~= b);
    } else {
        assert(a.to_set().contains(a.last()));
        assert(b.contains(a.last()));
        assert(b.len() > 0);
        assert(b.to_set().contains(b.last()));
        assert(a.contains(b.last()));
        // Both last elements are the largest of the same set.
        let ia = choose|i: int| 0 <= i < a.len() && a[i] == b.last();
        let ib = choose|i: int| 0 <= i < b.len() && b[i] == a.last();
        assert(a[ia] <= a.last());
        assert(b[ib] <= b.last());
        assert(a.last() == b.last());
        lemma_drop_last_to_set(a);
        lemma_drop_last_to_set(b);
        lemma_ascending_unique(a.drop_last(), b.drop_last());
        assert(a =~= a.drop_last().push(a.last()));
        assert(b =~= b.drop_last().push(b.last()));
    }
}

/// Dropping the last id of a sorted list takes that id out of the set.
pub proof fn lemma_drop_last_to_set(s: Seq<u32>)
    requires
        ascending(s),
        s.len() > 0,
    ensures
        ascending(s.drop_last()),
        s.drop_last().to_set() == s.to_set().remove(s.last()),
{
    let d = s.drop_last();
    assert forall|x: u32| d.to_set().contains(x) <==> s.to_set().remove(s.last()).contains(
        x,
    ) by {
        if d.contains(x) {
            let i = choose|i: int| 0 <= i < d.len() && d[i] == x;
            assert(s[i] == x);
            assert(s[i] < s[s.len() - 1]);
        }
        if s.contains(x) && x != s.last() {
            let i = choose|i: int| 0 <= i < s.len() && s[i] == x;
            assert(d[i] == x);
        }
    }
    assert(d.to_set() =~= s.to_set().remove(s.last()));
}

/// Putting an id into a sorted list at its place keeps the list sorted and
/// adds the id to the set.
pub proof fn lemma_insert_to_set(s: Seq<u32>, pos: int, id: u32)
    requires
        ascending(s),
        0 <= pos <= s.len(),
        forall|i: int| 0 <= i < pos ==> s[i] < id,
        forall|i: int| pos <= i < s.len() ==> id < s[i],
    ensures
        ascending(s.insert(pos, id)),
        s.insert(pos, id).to_set() == s.to_set().insert(id),
{
    let t = s.insert(pos, id);
    s.insert_ensures(pos, id);
    assert forall|i: int, j: int| 0 <= i < j < t.len() implies t[i] < t[j] by {
        if i < pos {
            assert(t[i] == s[i]);
        } else if i > pos {
            assert(t[i] == s[i - 1]);
        }
        if j < pos {
            assert(t[j] == s[j]);
        } else if j > pos {
            assert(t[j] == s[j - 1]);
        }
    }
    assert forall|x: u32| t.to_set().contains(x) <==> s.to_set().insert(id).contains(x) by {
        if t.contains(x) {
            let i = choose|i: int| 0 <= i < t.len() && t[i] == x;
            if i < pos {
                assert(s[i] == x);
            } else if i > pos {
                assert(s[i - 1] == x);
            }
        }
        if s.contains(x) {
            let i = choose|i: int| 0 <= i < s.len() && s[i] == x;
            if i < pos {
                assert(t[i] == x);
            } else {
                assert(t[i + 1] == x);
            }
        }
        if x == id {
            assert(t[pos] == x);
        }
    }
    assert(t.to_set() =~= s.to_set().insert(id));
}

} // verus!
