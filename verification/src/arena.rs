use vstd::prelude::*;

verus! {

/// Generation-checked reference to a slot in an [`Arena`]. A handle stays
/// valid until its slot's occupant is removed; removal bumps the slot's
/// generation, so a reused slot index can never alias an old handle.
#[derive(Clone, Copy, Debug, PartialEq, Eq, Structural)]
pub struct Handle {
    pub index: usize,
    pub generation: u64,
}

pub struct Slot<T> {
    pub generation: u64,
    pub item: Option<T>,
}

/// Generational slot storage: stable opaque handles that remain valid until
/// explicit removal, after which any further access through the old handle
/// fails rather than reading stale memory.
pub struct Arena<T> {
    pub slots: Vec<Slot<T>>,
}

/// First slot that can take a new occupant, scanning from `i`.
pub open spec fn find_free_spec<V>(s: Seq<(u64, Option<V>)>, i: nat) -> Option<nat>
    decreases s.len() - i,
{
    if i >= s.len() {
        None
    } else if s[i as int].1 is None && s[i as int].0 < u64::MAX {
        Some(i)
    } else {
        find_free_spec(s, i + 1)
    }
}

/// The handle the next insertion will return, given the slot shape.
pub open spec fn fresh_handle<V>(s: Seq<(u64, Option<V>)>) -> Handle {
    match find_free_spec(s, 0) {
        Some(i) => Handle { index: i as usize, generation: s[i as int].0 },
        None => Handle { index: s.len() as usize, generation: 0 },
    }
}

/// The slot shape after inserting an occupant with view `v`.
pub open spec fn insert_slots<V>(s: Seq<(u64, Option<V>)>, v: V) -> Seq<(u64, Option<V>)> {
    match find_free_spec(s, 0) {
        Some(i) => s.update(i as int, (s[i as int].0, Some(v))),
        None => s.push((0u64, Some(v))),
    }
}

impl<T: View> Arena<T> {
    /// Slot-level model: generation and occupant view per index. The
    /// representation behind it stays abstract; everything callers may rely
    /// on is said in the operations' contracts.
    pub closed spec fn smodel(self) -> Seq<(u64, Option<T::V>)> {
        self.slots@.map_values(
            |s: Slot<T>|
                (
                    s.generation,
                    match s.item {
                        Some(t) => Some(t@),
                        None => None,
                    },
                ),
        )
    }

    /// A handle is live when its slot exists, is occupied, and carries the
    /// same generation as the handle.
    pub open spec fn contains_spec(self, h: Handle) -> bool {
        &&& h.index < self.smodel().len()
        &&& self.smodel()[h.index as int].0 == h.generation
        &&& self.smodel()[h.index as int].1 is Some
    }

    /// Count of occupied slots among the first `n`.
    pub open spec fn occupied_upto(self, n: int) -> int
        decreases n,
    {
        if n <= 0 {
            0
        } else {
            self.occupied_upto(n - 1) + if self.smodel()[n - 1].1 is Some {
                1int
            } else {
                0int
            }
        }
    }

    pub fn new() -> (r: Self)
        ensures
            r.smodel() == Seq::<(u64, Option<T::V>)>::empty(),
    {
        let r = Arena { slots: Vec::new() };
        proof {
            assert(r.smodel() =~= Seq::<(u64, Option<T::V>)>::empty());
        }
        r
    }

    /// Length of the slot table, live and free slots together.
    pub fn slot_count(&self) -> (r: usize)
        ensures
            r == self.smodel().len(),
    {
        self.slots.len()
    }

    pub fn contains(&self, h: Handle) -> (r: bool)
        ensures
            r == self.contains_spec(h),
    {
        h.index < self.slots.len() && self.slots[h.index].generation == h.generation
            && self.slots[h.index].item.is_some()
    }

    pub fn get(&self, h: Handle) -> (r: Option<&T>)
        ensures
            match r {
                Some(t) => self.contains_spec(h) && t@ == self.smodel()[h.index as int].1.unwrap(),
                None => !self.contains_spec(h),
            },
    {
        if h.index < self.slots.len() && self.slots[h.index].generation == h.generation {
            match &self.slots[h.index].item {
                Some(t) => Some(t),
                None => None,
            }
        } else {
            None
        }
    }

    /// Index of the first slot that can take a new occupant.
    fn find_free(&self) -> (r: Option<usize>)
        ensures
            match r {
                Some(i) => i < self.smodel().len() && self.smodel()[i as int].1 is None
                    && self.smodel()[i as int].0 < u64::MAX
                    && find_free_spec(self.smodel(), 0) == Some(i as nat),
                None => find_free_spec(self.smodel(), 0) is None,
            },
    {
        let n = self.slots.len();
        let mut i: usize = 0;
        while i < n
            invariant
                n == self.slots@.len(),
                i <= n,
                find_free_spec(self.smodel(), 0) == find_free_spec(self.smodel(), i as nat),
            decreases n - i,
        {
            if self.slots[i].item.is_none() && self.slots[i].generation < u64::MAX {
                return Some(i);
            }
            i += 1;
        }
        None
    }

    /// Insert under a fresh handle: one never live in the current state.
    /// Reuses the first reusable free slot (at its current generation) or
    /// appends a new slot.
    pub fn insert(&mut self, v: T) -> (h: Handle)
        ensures
            !old(self).contains_spec(h),
            final(self).contains_spec(h),
            h == fresh_handle(old(self).smodel()),
            final(self).smodel() == insert_slots(old(self).smodel(), v@),
    {
        match self.find_free() {
            Some(i) => {
                let g = self.slots[i].generation;
                let h = Handle { index: i, generation: g };
                self.slots[i] = Slot { generation: g, item: Some(v) };
                proof {
                    assert(final(self).smodel() =~= insert_slots(old(self).smodel(), v@));
                }
                h
            }
            None => {
                let n = self.slots.len();
                let h = Handle { index: n, generation: 0 };
                self.slots.push(Slot { generation: 0, item: Some(v) });
                proof {
                    assert(final(self).smodel() =~= insert_slots(old(self).smodel(), v@));
                }
                h
            }
        }
    }

    /// Remove the occupant and invalidate the handle permanently: the slot's
    /// generation is bumped, so no later insertion can be reached through `h`.
    pub fn remove(&mut self, h: Handle) -> (r: Option<T>)
        ensures
            match r {
                Some(t) => old(self).contains_spec(h) && t@ == old(self).smodel()[
                    h.index as int
                ].1.unwrap(),
                None => !old(self).contains_spec(h),
            },
            old(self).contains_spec(h) ==> final(self).smodel() == old(self).smodel().update(
                h.index as int,
                (
                    if h.generation < u64::MAX {
                        (h.generation + 1) as u64
                    } else {
                        h.generation
                    },
                    None,
                ),
            ),
            !old(self).contains_spec(h) ==> *final(self) == *old(self),
            !final(self).contains_spec(h),
    {
        if h.index < self.slots.len() && self.slots[h.index].generation == h.generation
            && self.slots[h.index].item.is_some() {
            let g = self.slots[h.index].generation;
            let it = self.slots[h.index].item.take();
            if g < u64::MAX {
                self.slots[h.index].generation = g + 1;
            }
            proof {
                assert(final(self).smodel() =~= old(self).smodel().update(
                    h.index as int,
                    (
                        if h.generation < u64::MAX {
                            (h.generation + 1) as u64
                        } else {
                            h.generation
                        },
                        None,
                    ),
                ));
            }
            it
        } else {
            None
        }
    }

    /// Take the occupant out, leaving the slot transiently empty at the same
    /// generation. Intended for a local take-modify-[`Arena::put`] span; the
    /// handle itself stays reserved for the put.
    pub fn take(&mut self, h: Handle) -> (r: Option<T>)
        ensures
            match r {
                Some(t) => old(self).contains_spec(h) && t@ == old(self).smodel()[
                    h.index as int
                ].1.unwrap(),
                None => !old(self).contains_spec(h),
            },
            old(self).contains_spec(h) ==> final(self).smodel() == old(self).smodel().update(
                h.index as int,
                (h.generation, None),
            ),
            !old(self).contains_spec(h) ==> *final(self) == *old(self),
    {
        if h.index < self.slots.len() && self.slots[h.index].generation == h.generation
            && self.slots[h.index].item.is_some() {
            let it = self.slots[h.index].item.take();
            proof {
                assert(final(self).smodel() =~= old(self).smodel().update(
                    h.index as int,
                    (h.generation, None),
                ));
            }
            it
        } else {
            None
        }
    }

    /// Put an item back into the slot a [`Arena::take`] emptied.
    pub fn put(&mut self, h: Handle, v: T) -> (ok: bool)
        ensures
            ok == (h.index < old(self).smodel().len() && old(self).smodel()[h.index as int].0
                == h.generation && old(self).smodel()[h.index as int].1 is None),
            ok ==> final(self).smodel() == old(self).smodel().update(
                h.index as int,
                (h.generation, Some(v@)),
            ) && final(self).contains_spec(h),
            !ok ==> *final(self) == *old(self),
    {
        if h.index < self.slots.len() && self.slots[h.index].generation == h.generation
            && self.slots[h.index].item.is_none() {
            self.slots[h.index] = Slot { generation: h.generation, item: Some(v) };
            proof {
                assert(final(self).smodel() =~= old(self).smodel().update(
                    h.index as int,
                    (h.generation, Some(v@)),
                ));
            }
            true
        } else {
            false
        }
    }

    /// Take whatever occupies slot `i`, regardless of generation.
    pub fn take_at(&mut self, i: usize) -> (r: Option<T>)
        requires
            i < old(self).smodel().len(),
        ensures
            match r {
                Some(t) => old(self).smodel()[i as int].1 == Some(t@) && final(self).smodel()
                    == old(self).smodel().update(
                    i as int,
                    (old(self).smodel()[i as int].0, None),
                ),
                None => old(self).smodel()[i as int].1 is None && final(self).smodel()
                    == old(self).smodel(),
            },
            final(self).smodel().len() == old(self).smodel().len(),
    {
        proof {
            assert(self.smodel().len() == self.slots@.len());
        }
        let it = self.slots[i].item.take();
        match it {
            Some(t) => {
                proof {
                    assert(old(self).smodel()[i as int] == (
                        old(self).slots@[i as int].generation,
                        Some(old(self).slots@[i as int].item.unwrap()@),
                    ));
                    assert(old(self).smodel()[i as int].1 == Some(t@));
                    assert(final(self).smodel() =~= old(self).smodel().update(
                        i as int,
                        (old(self).smodel()[i as int].0, None),
                    ));
                }
                Some(t)
            }
            None => {
                proof {
                    assert(old(self).smodel()[i as int].1 is None);
                    assert(final(self).smodel() =~= old(self).smodel());
                }
                None
            }
        }
    }

    /// Refill slot `i` after a [`Arena::take_at`].
    pub fn put_at(&mut self, i: usize, v: T)
        requires
            i < old(self).smodel().len(),
            old(self).smodel()[i as int].1 is None,
        ensures
            final(self).smodel() == old(self).smodel().update(
                i as int,
                (old(self).smodel()[i as int].0, Some(v@)),
            ),
    {
        let g = self.slots[i].generation;
        self.slots[i] = Slot { generation: g, item: Some(v) };
        proof {
            assert(final(self).smodel() =~= old(self).smodel().update(
                i as int,
                (old(self).smodel()[i as int].0, Some(v@)),
            ));
        }
    }

    /// Number of live entries.
    pub fn live_count(&self) -> (r: usize)
        ensures
            r == self.occupied_upto(self.smodel().len() as int),
    {
        let n = self.slots.len();
        let mut i: usize = 0;
        let mut c: usize = 0;
        while i < n
            invariant
                n == self.slots@.len(),
                n == self.smodel().len(),
                i <= n,
                c == self.occupied_upto(i as int),
                c <= i,
            decreases n - i,
        {
            if self.slots[i].item.is_some() {
                c += 1;
            }
            i += 1;
        }
        c
    }
}

} // verus!
