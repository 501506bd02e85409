use vstd::prelude::*;

use crate::error::Error;

verus! {

/// An opaque reference to a value held by a `HandleTable`: a slot and the generation of that
/// slot at the time the value was placed there.
#[derive(PartialEq, Eq, Structural, Clone, Copy, Debug)]
pub struct Handle {
    pub index: usize,
    pub generation: u64,
}

struct Slot<T> {
    generation: u64,
    value: Option<T>,
}

/// Values handed to a host environment by handle. A slot is reused with a new generation, so a
/// handle that was destroyed never names a value again.
pub struct HandleTable<T> {
    slots: Vec<Slot<T>>,
}

impl<T> HandleTable<T> {
    /// The values reachable through a live handle.
    pub closed spec fn live(&self) -> Map<Handle, T> {
        Map::new(
            |h: Handle|
                h.index < self.slots@.len() && self.slots@[h.index as int].generation
                    == h.generation && self.slots@[h.index as int].value is Some,
            |h: Handle| self.slots@[h.index as int].value->0,
        )
    }

    /// A table with no live handle.
    pub fn new() -> (r: Self)
        ensures
            r.live() == Map::<Handle, T>::empty(),
    {
        let r = HandleTable { slots: Vec::new() };
        assert(r.live() =~= Map::<Handle, T>::empty());
        r
    }

    /// Stores `v` under a handle that was not live.
    pub fn create(&mut self, v: T) -> (h: Handle)
        ensures
            !old(self).live().contains_key(h),
            final(self).live() == old(self).live().insert(h, v),
    {
        let n = self.slots.len();
        let mut i: usize = 0;
        while i < n
            invariant
                n == self.slots@.len(),
                self.slots@ == old(self).slots@,
                i <= n,
            decreases n - i,
        {
            let free = self.slots[i].value.is_none() && self.slots[i].generation < u64::MAX;
            if free {
                let g = self.slots[i].generation + 1;
                let mut slot = Slot { generation: g, value: Some(v) };
                std::mem::swap(&mut self.slots[i], &mut slot);
                let h = Handle { index: i, generation: g };
                proof {
                    assert(self.slots@ == old(self).slots@.update(i as int, Slot { generation: g, value: Some(v) }));
                    assert(self.live() =~= old(self).live().insert(h, v));
                }
                return h;
            }
            i = i + 1;
        }
        self.slots.push(Slot { generation: 0, value: Some(v) });
        let h = Handle { index: n, generation: 0 };
        proof {
            assert(self.live() =~= old(self).live().insert(h, v));
        }
        h
    }

    /// Takes the value of a live handle out of the table, after which the handle is dead;
    /// `HandleNotLive`, with the table unchanged, for a handle that is not live.
    pub fn destroy(&mut self, h: Handle) -> (r: Result<T, Error>)
        ensures
            old(self).live().contains_key(h) <==> r is Ok,
            r matches Ok(v) ==> v == old(self).live()[h] && final(self).live() == old(
                self,
            ).live().remove(h),
            r is Err ==> r->Err_0 == Error::HandleNotLive && final(self).live() == old(
                self,
            ).live(),
    {
        if h.index >= self.slots.len() || self.slots[h.index].generation != h.generation
            || self.slots[h.index].value.is_none() {
            return Err(Error::HandleNotLive);
        }
        let mut slot = Slot { generation: h.generation, value: None };
        std::mem::swap(&mut self.slots[h.index], &mut slot);
        proof {
            assert(self.slots@ == old(self).slots@.update(h.index as int, Slot { generation: h.generation, value: None }));
            assert(self.live() =~= old(self).live().remove(h));
        }
        match slot.value {
            Some(v) => Ok(v),
            None => Err(Error::HandleNotLive),
        }
    }

    /// Whether `h` names a value.
    pub fn is_live(&self, h: Handle) -> (r: bool)
        ensures
            r == self.live().contains_key(h),
    {
        h.index < self.slots.len() && self.slots[h.index].generation == h.generation
            && self.slots[h.index].value.is_some()
    }
}

/// Creating a value and destroying its handle at once leaves the live handles as they were
/// and hands the value back; the handle is then dead, so a second destroy of it is refused.
pub proof fn lemma_create_destroy_round_trip<T>(
    t0: HandleTable<T>,
    h: Handle,
    v: T,
    t1: HandleTable<T>,
    t2: HandleTable<T>,
)
    requires
        !t0.live().contains_key(h),
        t1.live() == t0.live().insert(h, v),
        t2.live() == t1.live().remove(h),
    ensures
        t1.live().contains_key(h),
        t1.live()[h] == v,
        t2.live() == t0.live(),
        !t2.live().contains_key(h),
{
    assert(t2.live() =~= t0.live());
}

} // verus!
