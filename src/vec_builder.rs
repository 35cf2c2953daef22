use vstd::prelude::*;

use crate::error::MmapVecError;
use crate::mmap_vec::MmapVec;
use crate::segment::Segment;
use crate::segment_builder::{DefaultSegmentBuilder, SegmentBuilder};
use crate::utils::{fits_in_bytes, os_page_size};

verus! {

/// The capacity that a builder starts with: the elements that fit in one
/// page.
pub open spec fn default_capacity(page_bytes: nat, elem_bytes: nat) -> nat
    recommends
        elem_bytes > 0,
{
    page_bytes / elem_bytes
}

/// Sets up an `MmapVec` with a chosen capacity and segment policy.
pub struct MmapVecBuilder<T, SB: SegmentBuilder = DefaultSegmentBuilder> {
    segment_builder: SB,
    capacity: usize,
    page_bytes: usize,
    _phantom: core::marker::PhantomData<T>,
}

impl<T, SB: SegmentBuilder> MmapVecBuilder<T, SB> {
    /// Capacity of the vector that `try_build` makes.
    pub closed spec fn spec_capacity(&self) -> nat {
        self.capacity as nat
    }

    /// Page size in bytes that the built vector rounds its growth to.
    pub closed spec fn spec_page_bytes(&self) -> nat {
        self.page_bytes as nat
    }

    /// A builder with the default policy and a capacity of one page.
    /// Zero-sized element types are refused.
    pub fn new() -> (r: Self)
        requires
            vstd::layout::size_of::<T>() > 0,
        ensures
            r.spec_capacity() == default_capacity(
                r.spec_page_bytes(),
                vstd::layout::size_of::<T>(),
            ),
    {
        let page_bytes = os_page_size();
        let capacity = page_bytes / core::mem::size_of::<T>();
        MmapVecBuilder {
            segment_builder: SB::default(),
            capacity,
            page_bytes,
            _phantom: core::marker::PhantomData,
        }
    }

    /// Uses `segment_builder` to name the backing file.
    pub fn segment_builder(self, segment_builder: SB) -> (r: Self)
        ensures
            r.spec_capacity() == self.spec_capacity(),
            r.spec_page_bytes() == self.spec_page_bytes(),
    {
        MmapVecBuilder { segment_builder, ..self }
    }

    /// Sets the capacity of the vector to build.
    pub fn capacity(self, capacity: usize) -> (r: Self)
        ensures
            r.spec_capacity() == capacity,
            r.spec_page_bytes() == self.spec_page_bytes(),
    {
        MmapVecBuilder { capacity, ..self }
    }

    /// An empty vector with the chosen capacity, at a fresh path from the
    /// policy. Fails when that capacity in bytes does not fit in a `usize`.
    /// Zero-sized element types are refused.
    pub fn try_build(self) -> (r: Result<MmapVec<T, SB>, MmapVecError>)
        requires
            vstd::layout::size_of::<T>() > 0,
        ensures
            r is Ok <==> fits_in_bytes::<T>(self.spec_capacity()),
            r is Err ==> r == Err::<MmapVec<T, SB>, MmapVecError>(MmapVecError::CapacityOverflow),
            r matches Ok(v) ==> {
                &&& v.wf()
                &&& v@ == Seq::<T>::empty()
                &&& v.spec_capacity() == self.spec_capacity()
                &&& v.spec_page_bytes() == self.spec_page_bytes()
            },
    {
        if self.capacity.checked_mul(core::mem::size_of::<T>()).is_none() {
            return Err(MmapVecError::CapacityOverflow);
        }
        let path = self.segment_builder.new_segment_path();
        let segment = Segment::with_capacity(self.capacity);
        Ok(MmapVec::from_parts(segment, self.segment_builder, path, self.page_bytes))
    }
}

} // verus!
