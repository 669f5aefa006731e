//! Guest memory provisioning: the memory-region registration record and the
//! construction of the guest-physical memory image.
//!
//! The backing host allocation and its registration with the host kernel are
//! performed outside the library; what is verified here is the content of the
//! registration request and the exact bytes the region must hold before the
//! guest first runs.

use vstd::prelude::*;

verus! {

use crate::MEM_SIZE;

/// The fixed-shape memory-region registration request handed to the host
/// kernel: it asks that guest-physical addresses `guest_phys_address ..
/// guest_phys_address + memory_size` alias the host allocation that starts
/// at `userspace_addr`.
#[allow(non_camel_case_types)]
pub struct kvm_memory_region {
    pub slot: u32,
    pub flags: u32,
    pub guest_phys_address: u64,
    pub memory_size: u64,
    pub userspace_addr: u64,
}

/// Builds the one registration request this monitor ever issues: slot 0,
/// no special flags, guest-physical base 0, and exactly the size of the
/// backing allocation.
pub fn gen_memory_region(userspace_addr: u64, memory_size: u64) -> (r: kvm_memory_region)
    ensures
        r.slot == 0,
        r.flags == 0,
        r.guest_phys_address == 0,
        r.memory_size == memory_size,
        r.userspace_addr == userspace_addr,
{
    kvm_memory_region {
        slot: 0,
        flags: 0,
        guest_phys_address: 0,
        memory_size,
        userspace_addr,
    }
}

/// The bytes the guest memory region must hold before first execution:
/// the program verbatim at offset 0, zero in every byte after it.
pub open spec fn spec_guest_image(code: Seq<u8>) -> Seq<u8> {
    Seq::new(MEM_SIZE as nat, |i: int| if i < code.len() { code[i] } else { 0u8 })
}

/// Lays the guest program out as the full memory-region image: the program
/// at offset 0, zeroes up to the region size. A program larger than the
/// region is rejected rather than allowed to overflow into memory the
/// region does not own.
pub fn build_guest_image(code: &Vec<u8>) -> (r: Option<Vec<u8>>)
    ensures
        code@.len() > MEM_SIZE ==> r is None,
        code@.len() <= MEM_SIZE ==> (r matches Some(image) && image@ == spec_guest_image(code@)),
{
    if code.len() > MEM_SIZE {
        return None;
    }
    let mut image: Vec<u8> = Vec::new();
    let mut i: usize = 0;
    while i < code.len()
        invariant
            i <= code@.len() <= MEM_SIZE,
            image@ == code@.subrange(0, i as int),
        decreases code@.len() - i,
    {
        image.push(code[i]);
        i = i + 1;
    }
    assert(image@ =~= code@);
    while image.len() < MEM_SIZE
        invariant
            code@.len() <= image@.len() <= MEM_SIZE,
            image@.subrange(0, code@.len() as int) =~= code@,
            forall|j: int| code@.len() <= j < image@.len() ==> image@[j] == 0u8,
        decreases MEM_SIZE - image@.len(),
    {
        image.push(0u8);
    }
    assert(image@ =~= spec_guest_image(code@));
    Some(image)
}

} // verus!
