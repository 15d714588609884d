//! CPUID masking: the KVM paravirtual signature leaf is rewritten so
//! the guest finds the hypervisor.

use vstd::prelude::*;

verus! {

/// The KVM paravirtual signature leaf.
pub const KVM_CPUID_SIGNATURE: u32 = 0x4000_0000;

/// The highest paravirtual leaf, reported in the signature leaf's eax.
pub const KVM_CPUID_FEATURES: u32 = 0x4000_0001;

/// "KVMK" in little-endian, the first third of the signature.
pub const KVM_SIGNATURE_EBX: u32 = 0x4b4d_564b;

/// "VMKV" in little-endian, the second third of the signature.
pub const KVM_SIGNATURE_ECX: u32 = 0x564b_4d56;

/// "M" and three NULs in little-endian, the last third of the signature.
pub const KVM_SIGNATURE_EDX: u32 = 0x0000_004d;

/// One CPUID entry: the leaf, subleaf and flags that select it, and the
/// four registers it reports.
#[derive(Clone, Copy, Debug, PartialEq, Eq, Structural)]
pub struct CpuidEntry {
    pub function: u32,
    pub index: u32,
    pub flags: u32,
    pub eax: u32,
    pub ebx: u32,
    pub ecx: u32,
    pub edx: u32,
}

/// The entry after masking: a signature leaf reports the highest
/// paravirtual leaf in eax and "KVMKVMKVM\0\0\0" in ebx:ecx:edx; every
/// other leaf passes through unchanged.
pub open spec fn spec_masked_entry(e: CpuidEntry) -> CpuidEntry {
    if e.function == KVM_CPUID_SIGNATURE {
        CpuidEntry {
            function: e.function,
            index: e.index,
            flags: e.flags,
            eax: KVM_CPUID_FEATURES,
            ebx: KVM_SIGNATURE_EBX,
            ecx: KVM_SIGNATURE_ECX,
            edx: KVM_SIGNATURE_EDX,
        }
    } else {
        e
    }
}

/// Rewrites the KVM signature leaf in place: every entry for leaf
/// `0x4000_0000` reports the KVM signature, every other entry is kept
/// unchanged.
pub fn mask_cpuid(entries: &mut Vec<CpuidEntry>)
    ensures
        final(entries)@.len() == old(entries)@.len(),
        forall|i: int|
            0 <= i < old(entries)@.len() ==> final(entries)@[i] == spec_masked_entry(
                old(entries)@[i],
            ),
{
    let n: usize = entries.len();
    let mut i: usize = 0;
    while i < n
        invariant
            i <= n,
            n == entries@.len(),
            entries@.len() == old(entries)@.len(),
            forall|j: int| 0 <= j < i ==> entries@[j] == spec_masked_entry(old(entries)@[j]),
            forall|j: int| i <= j < n ==> entries@[j] == old(entries)@[j],
        decreases n - i,
    {
        if entries[i].function == KVM_CPUID_SIGNATURE {
            let e = entries[i];
            entries.set(
                i,
                CpuidEntry {
                    function: e.function,
                    index: e.index,
                    flags: e.flags,
                    eax: KVM_CPUID_FEATURES,
                    ebx: KVM_SIGNATURE_EBX,
                    ecx: KVM_SIGNATURE_ECX,
                    edx: KVM_SIGNATURE_EDX,
                },
            );
        }
        i = i + 1;
    }
}

} // verus!
