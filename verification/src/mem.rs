//! Guest RAM: one contiguous region of guest-physical memory based at
//! address zero, backed by a vm-memory mapping.
//!
//! The region itself lives in the `vm_memory` crate and is opaque here.
//! `GuestRam` keeps beside it the one fact the boot builder needs (the
//! region's size) and a ghost log of the words the builder has stored,
//! so that the boot-construction functions can state exactly which table
//! entries they wrote and where.

use vstd::prelude::*;

use vm_memory::Bytes;

verus! {

#[verifier::external_type_specification]
#[verifier::external_body]
#[verifier::reject_recursive_types(R)]
pub struct ExGuestRegionCollection<R>(vm_memory::GuestRegionCollection<R>);

#[verifier::external_type_specification]
#[verifier::external_body]
#[verifier::reject_recursive_types(B)]
pub struct ExGuestRegionMmap<B>(vm_memory::GuestRegionMmap<B>);

/// Why guest RAM could not be set up.
#[derive(Clone, Copy, Debug, PartialEq, Eq, Structural)]
pub enum MemError {
    /// The host mapping for the region could not be created.
    RegionCreate,
}

/// The word log of freshly created guest RAM: no word stored yet.
pub open spec fn empty_word_log() -> Map<u64, u64> {
    Map::empty()
}

/// A single guest RAM region of `size` bytes based at guest address 0.
///
/// `word_log` records, per address, the last 64-bit word stored there
/// through `write_u64`; it is the model over which the boot builder's
/// contracts speak.
pub struct GuestRam {
    mem: vm_memory::GuestMemoryMmap<()>,
    size: u64,
    words: Ghost<Map<u64, u64>>,
}

impl GuestRam {
    /// The region's size in bytes.
    pub closed spec fn spec_size(&self) -> u64 {
        self.size
    }

    /// The last word stored at each address through `write_u64`.
    pub closed spec fn word_log(&self) -> Map<u64, u64> {
        self.words@
    }

    /// Relies on `vm_memory::GuestMemoryMmap::from_ranges`: on success it
    /// returns a collection holding exactly one anonymous region of
    /// `size` bytes based at guest address 0.
    #[verifier::external_body]
    fn mmap_region(size: u64) -> (r: Result<vm_memory::GuestMemoryMmap<()>, MemError>) {
        match vm_memory::GuestMemoryMmap::<()>::from_ranges(&[(
            vm_memory::GuestAddress(0),
            size as usize,
        )]) {
            Ok(mem) => Ok(mem),
            Err(_) => Err(MemError::RegionCreate),
        }
    }

    /// Sets up guest RAM of `size` bytes based at guest address 0, with
    /// an empty word log.
    pub fn create(size: u64) -> (r: Result<GuestRam, MemError>)
        ensures
            r is Ok ==> r->Ok_0.spec_size() == size,
            r is Ok ==> r->Ok_0.word_log() == empty_word_log(),
    {
        match Self::mmap_region(size) {
            Ok(mem) => Ok(GuestRam { mem, size, words: Ghost(Map::empty()) }),
            Err(e) => Err(e),
        }
    }

    /// The region's size in bytes.
    pub fn size(&self) -> (s: u64)
        ensures
            s == self.spec_size(),
    {
        self.size
    }

    /// The underlying vm-memory collection, for the unverified front end
    /// (hypervisor registration and image loading).
    pub fn inner(&self) -> &vm_memory::GuestMemoryMmap<()> {
        &self.mem
    }

    /// Relies on vm-memory's `Bytes::write_obj` over a single region
    /// based at 0: the store succeeds exactly when all eight bytes lie
    /// inside the region, and on failure nothing but partially covered
    /// trailing bytes can have been touched, so no full word was stored.
    #[verifier::external_body]
    pub fn write_u64(&mut self, addr: u64, val: u64) -> (r: bool)
        ensures
            final(self).spec_size() == old(self).spec_size(),
            r <==> addr as int + 8 <= old(self).spec_size() as int,
            r ==> final(self).word_log() == old(self).word_log().insert(addr, val),
            !r ==> final(self).word_log() == old(self).word_log(),
    {
        self.mem.write_obj(val, vm_memory::GuestAddress(addr)).is_ok()
    }

    /// Relies on vm-memory's `Bytes::write_slice` over a single region
    /// based at 0: the store succeeds exactly when the whole slice lies
    /// inside the region.  The word log only tracks `write_u64` stores.
    #[verifier::external_body]
    pub fn write_bytes(&mut self, addr: u64, data: &[u8]) -> (r: bool)
        ensures
            final(self).spec_size() == old(self).spec_size(),
            final(self).word_log() == old(self).word_log(),
            data@.len() > 0 ==> (r <==> addr as int + data@.len() <= old(self).spec_size() as int),
    {
        self.mem.write_slice(data, vm_memory::GuestAddress(addr)).is_ok()
    }
}

} // verus!
