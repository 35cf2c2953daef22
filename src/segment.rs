use vstd::prelude::*;

use crate::error::MmapVecError;
use crate::utils::{
    elements_per_page, fits_in_bytes, page_start, reserve_target, reserved_capacity,
    PrefetchRange,
};

verus! {

/// A fixed-capacity array of `T`: the live elements `[0, len)` followed by
/// `capacity - len` free slots. A segment never grows; a larger one is made
/// and the elements move into it.
#[derive(Debug)]
pub struct Segment<T> {
    data: Vec<T>,
    capacity: usize,
}

/// `s` cut down to its first `n` elements; unchanged when it is not longer.
pub open spec fn truncated<T>(s: Seq<T>, n: nat) -> Seq<T> {
    if n >= s.len() {
        s
    } else {
        s.subrange(0, n as int)
    }
}

/// `s` without its first `k` elements; empty when `k` reaches its length.
pub open spec fn first_truncated<T>(s: Seq<T>, k: nat) -> Seq<T> {
    if k >= s.len() {
        Seq::empty()
    } else {
        s.subrange(k as int, s.len() as int)
    }
}

/// What `clear` leaves of `s`: nothing.
pub open spec fn cleared<T>(s: Seq<T>) -> Seq<T> {
    Seq::empty()
}

impl<T> View for Segment<T> {
    type V = Seq<T>;

    /// The live elements, in order.
    closed spec fn view(&self) -> Seq<T> {
        self.data@
    }
}

impl<T> Segment<T> {
    /// Number of element slots.
    pub closed spec fn spec_capacity(&self) -> nat {
        self.capacity as nat
    }

    /// Byte size of the backing storage.
    pub open spec fn spec_disk_size(&self) -> nat {
        self.spec_capacity() * vstd::layout::size_of::<T>()
    }

    /// The live elements fit in the capacity, and the capacity's byte size
    /// fits in a `usize`.
    pub closed spec fn wf(&self) -> bool {
        &&& self.data@.len() <= self.capacity
        &&& self.capacity * vstd::layout::size_of::<T>() <= usize::MAX
    }

    /// What well-formedness gives callers.
    pub proof fn lemma_wf(&self)
        requires
            self.wf(),
        ensures
            self@.len() <= self.spec_capacity(),
            self.spec_capacity() <= usize::MAX,
            self.spec_disk_size() <= usize::MAX,
    {
    }

    /// A segment with no slots.
    pub fn null() -> (r: Self)
        ensures
            r.wf(),
            r@ == Seq::<T>::empty(),
            r.spec_capacity() == 0,
    {
        Segment { data: Vec::new(), capacity: 0 }
    }

    /// An empty segment with `capacity` slots.
    pub fn with_capacity(capacity: usize) -> (r: Self)
        requires
            capacity * vstd::layout::size_of::<T>() <= usize::MAX,
        ensures
            r.wf(),
            r@ == Seq::<T>::empty(),
            r.spec_capacity() == capacity,
    {
        Segment { data: Vec::new(), capacity }
    }

    /// Number of element slots.
    pub fn capacity(&self) -> (r: usize)
        ensures
            r == self.spec_capacity(),
    {
        self.capacity
    }

    /// Number of live elements.
    pub fn len(&self) -> (r: usize)
        ensures
            r == self@.len(),
    {
        self.data.len()
    }

    /// The live elements.
    pub fn as_slice(&self) -> (r: &[T])
        ensures
            r@ == self@,
    {
        self.data.as_slice()
    }

    /// Replaces the element at `index`.
    pub fn set(&mut self, index: usize, value: T)
        requires
            old(self).wf(),
            index < old(self)@.len(),
        ensures
            final(self).wf(),
            final(self)@ == old(self)@.update(index as int, value),
            final(self).spec_capacity() == old(self).spec_capacity(),
    {
        self.data.set(index, value);
    }

    /// Writes `value` into the first free slot; a full segment hands it back
    /// in `Err`.
    pub fn push_within_capacity(&mut self, value: T) -> (r: Result<(), T>)
        requires
            old(self).wf(),
        ensures
            final(self).wf(),
            final(self).spec_capacity() == old(self).spec_capacity(),
            old(self)@.len() < old(self).spec_capacity() ==> r is Ok && final(self)@ == old(
                self,
            )@.push(value),
            old(self)@.len() >= old(self).spec_capacity() ==> r == Err::<(), T>(value)
                && final(self)@ == old(self)@,
    {
        if self.data.len() == self.capacity {
            return Err(value);
        }
        self.data.push(value);
        Ok(())
    }

    /// Moves the last element out, if there is one.
    pub fn pop(&mut self) -> (r: Option<T>)
        requires
            old(self).wf(),
        ensures
            final(self).wf(),
            final(self).spec_capacity() == old(self).spec_capacity(),
            old(self)@.len() == 0 ==> r is None && final(self)@ == old(self)@,
            old(self)@.len() > 0 ==> r == Some(old(self)@.last()) && final(self)@ == old(
                self,
            )@.drop_last(),
    {
        self.data.pop()
    }

    /// Keeps the first `new_len` elements and drops the rest; nothing happens
    /// when `new_len` is not below the length.
    pub fn truncate(&mut self, new_len: usize)
        requires
            old(self).wf(),
        ensures
            final(self).wf(),
            final(self).spec_capacity() == old(self).spec_capacity(),
            final(self)@ == truncated(old(self)@, new_len as nat),
    {
        self.data.truncate(new_len);
    }

    /// Drops the first `delete_count` elements and moves the others to the
    /// front; a count at or above the length empties the segment.
    pub fn truncate_first(&mut self, delete_count: usize)
        requires
            old(self).wf(),
        ensures
            final(self).wf(),
            final(self).spec_capacity() == old(self).spec_capacity(),
            final(self)@ == first_truncated(old(self)@, delete_count as nat),
    {
        let len = self.data.len();
        if delete_count >= len {
            self.data.clear();
        } else {
            let rest = self.data.split_off(delete_count);
            self.data = rest;
        }
    }

    /// Drops every element.
    pub fn clear(&mut self)
        requires
            old(self).wf(),
        ensures
            final(self).wf(),
            final(self).spec_capacity() == old(self).spec_capacity(),
            final(self)@ == cleared(old(self)@),
    {
        self.data.clear();
    }

    /// Moves every element of `other` behind the elements of `self`.
    pub fn extend_from_segment(&mut self, other: Segment<T>)
        requires
            old(self).wf(),
            old(self)@.len() + other@.len() <= old(self).spec_capacity(),
        ensures
            final(self).wf(),
            final(self).spec_capacity() == old(self).spec_capacity(),
            final(self)@ == old(self)@ + other@,
    {
        let mut other = other;
        self.data.append(&mut other.data);
    }

    /// Moves every element of `values` behind the elements of `self`.
    pub fn extend_from_vec(&mut self, values: Vec<T>)
        requires
            old(self).wf(),
            old(self)@.len() + values@.len() <= old(self).spec_capacity(),
        ensures
            final(self).wf(),
            final(self).spec_capacity() == old(self).spec_capacity(),
            final(self)@ == old(self)@ + values@,
    {
        let mut values = values;
        self.data.append(&mut values);
    }

    /// Grows the capacity to make room for `additional` more elements, keeping
    /// the elements where they are. The new capacity is `len + additional`
    /// rounded up to whole pages of `page_bytes` bytes. Growth needs a backing
    /// path: with an empty `path` it fails with `MissingSegmentPath`.
    pub fn reserve_in_place(&mut self, path: &str, additional: usize, page_bytes: usize) -> (r:
        Result<(), MmapVecError>)
        requires
            old(self).wf(),
        ensures
            final(self).wf(),
            final(self)@ == old(self)@,
            ({
                let needed = old(self)@.len() + additional;
                let target = reserved_capacity(
                    old(self)@.len(),
                    old(self).spec_capacity(),
                    additional as nat,
                    elements_per_page(page_bytes as nat, vstd::layout::size_of::<T>()),
                );
                if needed <= old(self).spec_capacity() {
                    r is Ok && final(self).spec_capacity() == old(self).spec_capacity()
                } else if path@.len() == 0 {
                    r == Err::<(), MmapVecError>(MmapVecError::MissingSegmentPath)
                        && final(self).spec_capacity() == old(self).spec_capacity()
                } else if !fits_in_bytes::<T>(target) {
                    r == Err::<(), MmapVecError>(MmapVecError::CapacityOverflow)
                        && final(self).spec_capacity() == old(self).spec_capacity()
                } else {
                    r is Ok && final(self).spec_capacity() == target
                }
            }),
    {
        let len = self.data.len();
        if len as u128 + additional as u128 <= self.capacity as u128 {
            return Ok(());
        }
        if path.is_empty() {
            return Err(MmapVecError::MissingSegmentPath);
        }
        match reserve_target::<T>(len, self.capacity, additional, page_bytes) {
            Some(target) => {
                self.capacity = target;
                Ok(())
            },
            None => Err(MmapVecError::CapacityOverflow),
        }
    }

    /// The byte range that a read-ahead hint over every live element covers;
    /// `None` for a segment with no slots or no elements.
    pub fn advice_prefetch_all_pages(&self) -> (r: Option<PrefetchRange>)
        requires
            self.wf(),
        ensures
            self.spec_capacity() == 0 || self@.len() == 0 ==> r is None,
            self.spec_capacity() > 0 && self@.len() > 0 ==> r == Some(
                PrefetchRange {
                    offset: 0,
                    len: (self@.len() * vstd::layout::size_of::<T>()) as usize,
                },
            ),
    {
        let len = self.data.len();
        if self.capacity == 0 || len == 0 {
            return None;
        }
        proof {
            assert(len * vstd::layout::size_of::<T>() <= self.capacity * vstd::layout::size_of::<
                T,
            >()) by (nonlinear_arith)
                requires
                    len <= self.capacity,
            ;
        }
        Some(PrefetchRange { offset: 0, len: len * core::mem::size_of::<T>() })
    }

    /// The page of `page_bytes` bytes that holds the element at `index`, as a
    /// byte range for a read-ahead hint; `None` when there is no such element
    /// or no page size.
    pub fn advice_prefetch_page_at(&self, index: usize, page_bytes: usize) -> (r: Option<
        PrefetchRange,
    >)
        requires
            self.wf(),
        ensures
            self.spec_capacity() == 0 || index >= self@.len() || page_bytes == 0 ==> r is None,
            self.spec_capacity() > 0 && index < self@.len() && page_bytes > 0 ==> r == Some(
                PrefetchRange {
                    offset: page_start(
                        (index * vstd::layout::size_of::<T>()) as nat,
                        page_bytes as nat,
                    ) as usize,
                    len: page_bytes,
                },
            ),
    {
        if self.capacity == 0 || index >= self.data.len() || page_bytes == 0 {
            return None;
        }
        proof {
            assert(index * vstd::layout::size_of::<T>() <= self.capacity * vstd::layout::size_of::<
                T,
            >()) by (nonlinear_arith)
                requires
                    index <= self.capacity,
            ;
        }
        let byte = index * core::mem::size_of::<T>();
        assert(byte % page_bytes <= byte) by (nonlinear_arith)
            requires
                page_bytes > 0,
        ;
        Some(PrefetchRange { offset: byte - byte % page_bytes, len: page_bytes })
    }

    /// Bytes that the backing storage takes.
    pub fn disk_size(&self) -> (r: usize)
        requires
            self.wf(),
        ensures
            r == self.spec_disk_size(),
    {
        self.capacity * core::mem::size_of::<T>()
    }
}

impl<T> core::ops::Deref for Segment<T> {
    type Target = [T];

    fn deref(&self) -> (r: &[T])
        ensures
            r@ == self@,
    {
        self.data.as_slice()
    }
}

} // verus!
