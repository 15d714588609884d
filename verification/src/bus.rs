//! An address-indexed bus: a sorted map from half-open guest I/O ranges
//! to device handles, with non-overlapping insertion and address lookup.
//!
//! The bus is generic over the device handle so that the routing logic is
//! verified independently of what a device does; the front end instantiates
//! it with shared handles to its emulated devices.

use vstd::prelude::*;

verus! {

/// Why an insertion was refused.
#[derive(Clone, Copy, Debug, PartialEq, Eq, Structural)]
pub enum BusError {
    /// The new range was empty.
    ZeroSizedRange,
    /// The new range shares at least one address with an existing range.
    Overlap,
}

/// One bus entry: the half-open range `[base, base + len)` and the device
/// that services it.
#[derive(Clone)]
pub struct BusEntry<D> {
    pub base: u64,
    pub len: u64,
    pub device: D,
}

/// Do the half-open ranges `[b1, b1 + l1)` and `[b2, b2 + l2)` share an
/// address?  (Empty ranges share none.)
pub open spec fn ranges_overlap(b1: u64, l1: u64, b2: u64, l2: u64) -> bool {
    l1 > 0 && l2 > 0 && b1 < b2 + l2 && b2 < b1 + l1
}

/// A device container routing reads and writes over an address space.
///
/// No two entries overlap, every entry has a positive length, and the
/// entries are sorted by base address.
#[derive(Clone)]
pub struct Bus<D> {
    entries: Vec<BusEntry<D>>,
}

impl<D> Bus<D> {
    /// The entries, sorted by base address.
    pub closed spec fn entries_seq(&self) -> Seq<BusEntry<D>> {
        self.entries@
    }

    /// Every entry is non-empty, stays within the 64-bit address space,
    /// and strictly precedes the next one: the ranges are sorted and
    /// pairwise disjoint.
    pub open spec fn wf(&self) -> bool {
        &&& forall|i: int|
            0 <= i < self.entries_seq().len() ==> (#[trigger] self.entries_seq()[i]).len > 0
        &&& forall|i: int|
            0 <= i < self.entries_seq().len() ==> (#[trigger] self.entries_seq()[i]).base
                + self.entries_seq()[i].len <= u64::MAX + 1
        &&& forall|i: int, j: int|
            0 <= i < j < self.entries_seq().len() ==> (#[trigger] self.entries_seq()[i]).base
                + self.entries_seq()[i].len <= (#[trigger] self.entries_seq()[j]).base
    }

    /// Entry `i` covers address `addr`.
    pub open spec fn covers(&self, i: int, addr: u64) -> bool {
        &&& 0 <= i < self.entries_seq().len()
        &&& self.entries_seq()[i].base <= addr
        &&& addr < self.entries_seq()[i].base + self.entries_seq()[i].len
    }

    /// Some entry covers address `addr`.
    pub open spec fn has_device_at(&self, addr: u64) -> bool {
        exists|i: int| self.covers(i, addr)
    }

    /// The index of the entry covering `addr` (meaningful only when one
    /// exists; on a well-formed bus it is unique).
    pub open spec fn index_at(&self, addr: u64) -> int {
        choose|i: int| self.covers(i, addr)
    }

    /// The new range would share an address with an existing entry.
    pub open spec fn overlaps_existing(&self, base: u64, len: u64) -> bool {
        exists|i: int|
            0 <= i < self.entries_seq().len() && ranges_overlap(
                (#[trigger] self.entries_seq()[i]).base,
                self.entries_seq()[i].len,
                base,
                len,
            )
    }

    /// On a well-formed bus at most one entry covers any address.
    pub proof fn lemma_covers_unique(&self, i: int, j: int, addr: u64)
        requires
            self.wf(),
            self.covers(i, addr),
            self.covers(j, addr),
        ensures
            i == j,
    {
    }

    /// Constructs a bus with an empty address space.
    pub fn new() -> (bus: Bus<D>)
        ensures
            bus.wf(),
            bus.entries_seq().len() == 0,
    {
        Bus { entries: Vec::new() }
    }

    /// The index of the last entry whose base does not exceed `addr`,
    /// if any entry's base does.
    fn first_before(&self, addr: u64) -> (r: Option<usize>)
        requires
            self.wf(),
        ensures
            match r {
                Some(i) => {
                    &&& 0 <= i < self.entries_seq().len()
                    &&& self.entries_seq()[i as int].base <= addr
                    &&& forall|j: int|
                        i < j < self.entries_seq().len() ==> (#[trigger] self.entries_seq()[j]).base
                            > addr
                },
                None => forall|j: int|
                    0 <= j < self.entries_seq().len() ==> (#[trigger] self.entries_seq()[j]).base
                        > addr,
            },
    {
        let mut idx: usize = self.entries.len();
        while idx > 0
            invariant
                idx <= self.entries_seq().len(),
                forall|j: int|
                    idx <= j < self.entries_seq().len() ==> (#[trigger] self.entries_seq()[j]).base
                        > addr,
            decreases idx,
        {
            idx = idx - 1;
            if self.entries[idx].base <= addr {
                return Some(idx);
            }
        }
        None
    }

    /// Returns the offset into the covering range and the device found at
    /// `addr`, if an entry covers that address.
    pub fn get_device(&self, addr: u64) -> (r: Option<(u64, &D)>)
        requires
            self.wf(),
        ensures
            r is Some <==> self.has_device_at(addr),
            r is Some ==> self.covers(self.index_at(addr), addr),
            r is Some ==> (r->0).0 == addr - self.entries_seq()[self.index_at(addr)].base,
            r is Some ==> (r->0).1 == self.entries_seq()[self.index_at(addr)].device,
    {
        if let Some(i) = self.first_before(addr) {
            let entry = &self.entries[i];
            let offset = addr - entry.base;
            if offset < entry.len {
                proof {
                    assert(self.covers(i as int, addr));
                    self.lemma_covers_unique(i as int, self.index_at(addr), addr);
                }
                return Some((offset, &entry.device));
            }
            proof {
                if self.has_device_at(addr) {
                    let k = self.index_at(addr);
                    assert(self.covers(k, addr));
                    assert(self.entries_seq()[k].base <= addr);
                    assert(k <= i as int);
                }
            }
        }
        None
    }

    /// Puts the given device at the given address space.
    ///
    /// Fails, leaving the bus unchanged, exactly when the range is empty
    /// or shares an address with an existing range; otherwise the entry
    /// is added at its sorted position.
    pub fn insert(&mut self, device: D, base: u64, len: u64) -> (r: Result<(), BusError>)
        requires
            old(self).wf(),
            len == 0 || base + len <= u64::MAX + 1,
        ensures
            final(self).wf(),
            r is Err ==> final(self).entries_seq() == old(self).entries_seq(),
            (r matches Err(BusError::ZeroSizedRange)) <==> len == 0,
            (r matches Err(BusError::Overlap)) <==> len > 0 && old(self).overlaps_existing(
                base,
                len,
            ),
            r is Ok <==> (len > 0 && !old(self).overlaps_existing(base, len)),
            r is Ok ==> exists|k: int|
                0 <= k <= old(self).entries_seq().len() && final(self).entries_seq()
                    =~= old(self).entries_seq().insert(
                    k,
                    (BusEntry { base, len, device }),
                ),
    {
        if len == 0 {
            return Err(BusError::ZeroSizedRange);
        }

        // Reject all cases where the new range's base is inside an
        // existing range.
        if self.get_device(base).is_some() {
            proof {
                let k = self.index_at(base);
                assert(ranges_overlap(
                    self.entries_seq()[k].base,
                    self.entries_seq()[k].len,
                    base,
                    len,
                ));
            }
            return Err(BusError::Overlap);
        }

        // That check misses an existing range that starts inside the new
        // one.  Look for the last entry starting at or before the new
        // range's final address: if it starts at or after the new base it
        // overlaps; if it starts before, the first check already ruled an
        // overlap out.
        let last: u64 = base + (len - 1);
        let n = self.entries.len();
        let insert_pos: usize = match self.first_before(last) {
            Some(i) => {
                if self.entries[i].base >= base {
                    proof {
                        assert(ranges_overlap(
                            self.entries_seq()[i as int].base,
                            self.entries_seq()[i as int].len,
                            base,
                            len,
                        ));
                    }
                    return Err(BusError::Overlap);
                }
                proof {
                    self.lemma_no_overlap_below(i as int, base, len);
                    assert(i < n);
                }
                i + 1
            },
            None => {
                proof {
                    self.lemma_no_overlap_none(base, len);
                }
                0
            },
        };

        self.entries.insert(insert_pos, BusEntry { base, len, device });

        proof {
            assert(final(self).entries_seq() =~= old(self).entries_seq().insert(
                insert_pos as int,
                (BusEntry { base, len, device }),
            ));
        }
        Ok(())
    }

    /// If the last entry starting at or before `base + len - 1` starts
    /// strictly below `base` and `base` itself is uncovered, nothing
    /// overlaps the new range, and every entry past index `i` starts
    /// beyond it.
    proof fn lemma_no_overlap_below(&self, i: int, base: u64, len: u64)
        requires
            self.wf(),
            len > 0,
            base + len <= u64::MAX + 1,
            !self.has_device_at(base),
            0 <= i < self.entries_seq().len(),
            self.entries_seq()[i].base <= base + len - 1,
            self.entries_seq()[i].base < base,
            forall|j: int|
                i < j < self.entries_seq().len() ==> (#[trigger] self.entries_seq()[j]).base > base
                    + len - 1,
        ensures
            !self.overlaps_existing(base, len),
            forall|j: int|
                0 <= j <= i ==> (#[trigger] self.entries_seq()[j]).base + self.entries_seq()[j].len
                    <= base,
            forall|j: int|
                i < j < self.entries_seq().len() ==> base + len <= (
                #[trigger] self.entries_seq()[j]).base,
    {
        assert forall|j: int| 0 <= j <= i implies (#[trigger] self.entries_seq()[j]).base
            + self.entries_seq()[j].len <= base by {
            // Entries at or before `i` start no later than entry `i`,
            // hence strictly below `base`; were one to reach `base`, it
            // would cover it.
            if j < i {
                assert(self.entries_seq()[j].base + self.entries_seq()[j].len
                    <= self.entries_seq()[i].base);
            }
            if self.entries_seq()[j].base + self.entries_seq()[j].len > base {
                assert(self.covers(j, base));
            }
        }
        assert forall|k: int| 0 <= k < self.entries_seq().len() implies !ranges_overlap(
            (#[trigger] self.entries_seq()[k]).base,
            self.entries_seq()[k].len,
            base,
            len,
        ) by {
            if k <= i {
                assert(self.entries_seq()[k].base + self.entries_seq()[k].len <= base);
            }
        }
    }

    /// After a successful insertion of `[base, base + len)`, every
    /// address of the new range is serviced by the inserted device, at
    /// its offset from `base`; and the addresses just below and just
    /// above the range are covered exactly when an entry of the old bus
    /// covered them.
    pub proof fn lemma_insert_covers(
        pre: Bus<D>,
        post: Bus<D>,
        device: D,
        base: u64,
        len: u64,
        k: int,
        a: u64,
    )
        requires
            pre.wf(),
            post.wf(),
            len > 0,
            base + len <= u64::MAX + 1,
            !pre.overlaps_existing(base, len),
            0 <= k <= pre.entries_seq().len(),
            post.entries_seq() == pre.entries_seq().insert(k, (BusEntry { base, len, device })),
        ensures
            base <= a < base + len ==> post.has_device_at(a) && post.entries_seq()[post.index_at(
                a,
            )] == (BusEntry { base, len, device }),
            a == base - 1 || a == base + len ==> (post.has_device_at(a) <==> pre.has_device_at(a)),
    {
        if base <= a < base + len {
            assert(post.entries_seq()[k] == (BusEntry { base, len, device }));
            assert(post.covers(k, a));
            post.lemma_covers_unique(k, post.index_at(a), a);
        }
        if a == base - 1 || a == base + len {
            if post.has_device_at(a) {
                let i = post.index_at(a);
                assert(post.covers(i, a));
                if i < k {
                    assert(pre.entries_seq()[i] == post.entries_seq()[i]);
                    assert(pre.covers(i, a));
                } else if i == k {
                    assert(post.entries_seq()[k] == (BusEntry { base, len, device }));
                    assert(false);
                } else {
                    assert(pre.entries_seq()[i - 1] == post.entries_seq()[i]);
                    assert(pre.covers(i - 1, a));
                }
            }
            if pre.has_device_at(a) {
                let j = choose|j: int| pre.covers(j, a);
                if j < k {
                    assert(post.entries_seq()[j] == pre.entries_seq()[j]);
                    assert(post.covers(j, a));
                } else {
                    assert(post.entries_seq()[j + 1] == pre.entries_seq()[j]);
                    assert(post.covers(j + 1, a));
                }
            }
        }
    }

    /// If no entry starts at or before `base + len - 1`, nothing overlaps
    /// the new range.
    proof fn lemma_no_overlap_none(&self, base: u64, len: u64)
        requires
            self.wf(),
            len > 0,
            base + len <= u64::MAX + 1,
            forall|j: int|
                0 <= j < self.entries_seq().len() ==> (#[trigger] self.entries_seq()[j]).base > base
                    + len - 1,
        ensures
            !self.overlaps_existing(base, len),
            forall|j: int|
                0 <= j < self.entries_seq().len() ==> base + len <= (
                #[trigger] self.entries_seq()[j]).base,
    {
    }
}

} // verus!
