//! Hands out box-ids to concurrent workers without overlap.
use vstd::prelude::*;

verus! {

/// The id `k` places after `start`, counting `0..=max` round.
pub open spec fn probe(start: u32, k: nat, max: u32) -> nat {
    if start + k <= max {
        (start + k) as nat
    } else {
        (start + k - (max + 1)) as nat
    }
}

/// `new` is `old` after handing out `id`: the first id, counting forward
/// from the counter and wrapping after the largest, that no worker holds;
/// it is now held and the counter stands just past it.
pub open spec fn takes(old: BoxIdManager, new: BoxIdManager, id: u32) -> bool {
    &&& new.max_spec() == old.max_spec()
    &&& !old.held().contains(id)
    &&& new.held() == old.held().push(id)
    &&& exists|k: nat|
        k <= old.max_spec() && id == probe(old.next_spec(), k, old.max_spec()) && (forall|j: nat|
            j < k ==> old.held().contains(#[trigger] probe(old.next_spec(), j, old.max_spec()) as u32))
    &&& new.next_spec() == (if id == old.max_spec() {
        0
    } else {
        (id + 1) as u32
    })
}

/// A monotonic counter over `0..=max` that wraps after `max`, and the set
/// of ids currently held by workers, which it never hands out twice.
pub struct BoxIdManager {
    next: u32,
    max: u32,
    outstanding: Vec<u32>,
}

impl BoxIdManager {
    /// The id the next search starts from.
    pub closed spec fn next_spec(&self) -> u32 {
        self.next
    }

    /// The largest id.
    pub closed spec fn max_spec(&self) -> u32 {
        self.max
    }

    /// The ids held by workers.
    pub closed spec fn held(&self) -> Seq<u32> {
        self.outstanding@
    }

    /// The counter is in range; held ids are in range and distinct.
    pub open spec fn wf(&self) -> bool {
        &&& self.next_spec() <= self.max_spec()
        &&& self.max_spec() < u32::MAX
        &&& forall|i: int| 0 <= i < self.held().len() ==> #[trigger] self.held()[i] <= self.max_spec()
        &&& self.held().no_duplicates()
    }

    /// A manager over the jailer's default range, `0..=999`.
    pub fn new() -> (m: BoxIdManager)
        ensures
            m.wf(),
            m.next_spec() == 0,
            m.max_spec() == 999,
            m.held().len() == 0,
    {
        BoxIdManager { next: 0, max: 999, outstanding: Vec::new() }
    }

    /// A manager over `0..=max`.
    pub fn with_max(max: u32) -> (m: BoxIdManager)
        requires
            max < u32::MAX,
        ensures
            m.wf(),
            m.next_spec() == 0,
            m.max_spec() == max,
            m.held().len() == 0,
    {
        BoxIdManager { next: 0, max, outstanding: Vec::new() }
    }

    /// Whether a worker holds `id`.
    pub fn is_held(&self, id: u32) -> (r: bool)
        ensures
            r == self.held().contains(id),
    {
        let mut i: usize = 0;
        while i < self.outstanding.len()
            invariant
                i <= self.outstanding@.len(),
                forall|k: int| 0 <= k < i ==> self.outstanding@[k] != id,
            decreases self.outstanding@.len() - i,
        {
            if self.outstanding[i] == id {
                assert(self.held()[i as int] == id);
                return true;
            }
            i = i + 1;
        }
        false
    }

    /// Takes the first id, counting forward from the counter and wrapping
    /// after the largest, that no worker holds; registers it as held and
    /// moves the counter past it. `None` where every id is held.
    pub fn get_next_id(&mut self) -> (r: Option<u32>)
        requires
            old(self).wf(),
        ensures
            final(self).wf(),
            final(self).max_spec() == old(self).max_spec(),
            r is Some ==> takes(*old(self), *final(self), r->Some_0),
            r is None ==> *final(self) == *old(self) && forall|x: u32| x <= old(self).max_spec()
                ==> #[trigger] old(self).held().contains(x),
    {
        let max = self.max;
        let start = self.next;
        let mut k: u32 = 0;
        while k <= max
            invariant
                self == old(self),
                self.wf(),
                max == self.max,
                start == self.next,
                k <= max + 1,
                forall|j: nat| j < k ==> self.held().contains(
                    #[trigger] probe(start, j, max) as u32,
                ),
            decreases max + 1 - k,
        {
            let c: u32 = if k <= max - start { start + k } else { k - (max - start) - 1 };
            assert(c == probe(start, k as nat, max));
            if !self.is_held(c) {
                self.outstanding.push(c);
                self.next = if c == max { 0 } else { c + 1 };
                proof {
                    assert(self.held() == old(self).held().push(c));
                    assert forall|i: int| 0 <= i < self.held().len() implies #[trigger] self.held()[i]
                        <= self.max_spec() by {
                        if i < old(self).held().len() {
                            assert(self.held()[i] == old(self).held()[i]);
                        }
                    }
                    assert(self.held().no_duplicates()) by {
                        assert forall|i: int, j: int|
                            0 <= i < self.held().len() && 0 <= j < self.held().len() && i != j
                            implies self.held()[i] != self.held()[j] by {
                            if i < old(self).held().len() && j < old(self).held().len() {
                                assert(self.held()[i] == old(self).held()[i]);
                                assert(self.held()[j] == old(self).held()[j]);
                            } else if i < old(self).held().len() {
                                assert(self.held()[i] == old(self).held()[i]);
                                assert(old(self).held().contains(old(self).held()[i]));
                            } else if j < old(self).held().len() {
                                assert(self.held()[j] == old(self).held()[j]);
                                assert(old(self).held().contains(old(self).held()[j]));
                            }
                        }
                    }
                    assert(c == probe(old(self).next_spec(), k as nat, old(self).max_spec()));
                }
                return Some(c);
            }
            k = k + 1;
        }
        proof {
            assert forall|x: u32| x <= max implies #[trigger] self.held().contains(x) by {
                let j: nat = if x >= start { (x - start) as nat } else { (x + max + 1 - start) as nat };
                assert(probe(start, j, max) == x);
                assert(self.held().contains(probe(start, j, max) as u32));
            }
        }
        None
    }

    /// Gives `id` back once its sandbox is cleaned up; the other held ids
    /// stay held.
    pub fn release(&mut self, id: u32)
        requires
            old(self).wf(),
        ensures
            final(self).wf(),
            final(self).max_spec() == old(self).max_spec(),
            final(self).next_spec() == old(self).next_spec(),
            forall|x: u32| #[trigger] final(self).held().contains(x) <==> (old(
                self,
            ).held().contains(x) && x != id),
    {
        let mut i: usize = 0;
        while i < self.outstanding.len()
            invariant
                self == old(self),
                self.wf(),
                i <= self.outstanding@.len(),
                forall|k: int| 0 <= k < i ==> self.outstanding@[k] != id,
            decreases self.outstanding@.len() - i,
        {
            if self.outstanding[i] == id {
                let ghost before = self.outstanding@;
                self.outstanding.remove(i);
                proof {
                    assert(before == old(self).held());
                    assert(before[i as int] == id);
                    assert(self.held() == before.remove(i as int));
                    assert forall|a: int| 0 <= a < self.held().len() implies #[trigger] self.held()[a]
                        == before[if a < i { a } else { a + 1 }] by {}
                    assert forall|x: u32| #[trigger] self.held().contains(x) <==> (before.contains(x)
                        && x != id) by {
                        if before.contains(x) && x != id {
                            let t = choose|t: int| 0 <= t < before.len() && before[t] == x;
                            if t < i {
                                assert(self.held()[t] == x);
                            } else {
                                assert(t != i);
                                assert(self.held()[t - 1] == x);
                            }
                        }
                        if self.held().contains(x) {
                            let t = choose|t: int| 0 <= t < self.held().len() && self.held()[t] == x;
                            let t2 = if t < i { t } else { t + 1 };
                            assert(before[t2] == x);
                            assert(t2 != i);
                            assert(before[t2] != before[i as int]);
                        }
                    }
                    assert forall|a: int| 0 <= a < self.held().len() implies #[trigger] self.held()[a]
                        <= self.max_spec() by {
                        let a2 = if a < i { a } else { a + 1 };
                        assert(self.held()[a] == before[a2]);
                        assert(old(self).held()[a2] <= old(self).max_spec());
                    }
                    assert(self.held().no_duplicates()) by {
                        assert forall|a: int, b: int|
                            0 <= a < self.held().len() && 0 <= b < self.held().len() && a != b
                            implies self.held()[a] != self.held()[b] by {
                            let a2 = if a < i { a } else { a + 1 };
                            let b2 = if b < i { b } else { b + 1 };
                            assert(self.held()[a] == before[a2]);
                            assert(self.held()[b] == before[b2]);
                            assert(a2 != b2);
                        }
                    }
                }
                return;
            }
            i = i + 1;
        }
        proof {
            assert forall|x: u32| #[trigger] self.held().contains(x) <==> (old(self).held().contains(x)
                && x != id) by {
                if x == id && self.held().contains(x) {
                    let t = choose|t: int| 0 <= t < self.held().len() && self.held()[t] == x;
                    assert(self.outstanding@[t] != id);
                }
            }
        }
    }
}

/// The ids held at any time, one per live sandbox, are pairwise distinct.
pub proof fn lemma_live_ids_distinct(m: BoxIdManager, i: int, j: int)
    requires
        m.wf(),
        0 <= i < m.held().len(),
        0 <= j < m.held().len(),
        i != j,
    ensures
        m.held()[i] != m.held()[j],
{
}

/// The counter wraps at the largest id: standing on it, with neither it
/// nor 0 held, two requests hand out the largest id and then 0; every id
/// handed out is at most the largest.
pub proof fn lemma_wraps_at_max(m0: BoxIdManager, m1: BoxIdManager, m2: BoxIdManager, a: u32, b: u32)
    requires
        m0.wf(),
        m0.max_spec() >= 1,
        m0.next_spec() == m0.max_spec(),
        !m0.held().contains(m0.max_spec()),
        !m0.held().contains(0),
        takes(m0, m1, a),
        takes(m1, m2, b),
    ensures
        a == m0.max_spec(),
        b == 0,
        a <= m0.max_spec() && b <= m0.max_spec(),
{
    let max = m0.max_spec();
    let k = choose|k: nat|
        k <= max && a == probe(m0.next_spec(), k, max) && (forall|j: nat|
            j < k ==> m0.held().contains(#[trigger] probe(m0.next_spec(), j, max) as u32));
    if k > 0 {
        assert(m0.held().contains(probe(m0.next_spec(), 0, max) as u32));
    }
    assert(a == max);
    assert(m1.next_spec() == 0);
    assert(!m1.held().contains(0)) by {
        if m1.held().contains(0) {
            let t = choose|t: int| 0 <= t < m1.held().len() && m1.held()[t] == 0;
            if t < m0.held().len() {
                assert(m0.held()[t] == 0);
            }
        }
    }
    let k2 = choose|k2: nat|
        k2 <= max && b == probe(m1.next_spec(), k2, max) && (forall|j: nat|
            j < k2 ==> m1.held().contains(#[trigger] probe(m1.next_spec(), j, max) as u32));
    if k2 > 0 {
        assert(m1.held().contains(probe(m1.next_spec(), 0, max) as u32));
    }
}

} // verus!
