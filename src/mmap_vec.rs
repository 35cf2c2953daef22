use vstd::prelude::*;
use vstd::std_specs::cmp::PartialEqSpec;

use crate::error::MmapVecError;
use crate::segment::{cleared, first_truncated, truncated, Segment};
use crate::segment_builder::{DefaultSegmentBuilder, SegmentBuilder};
use crate::laws::lemma_round_up_to;
use crate::vec_builder::MmapVecBuilder;
use crate::utils::{
    checked_round_up, elements_per_page, fits_in_bytes, os_page_size, page_elements, page_start,
    reserve_target, reserved_capacity, round_up_to, PrefetchRange,
};

verus! {

/// The capacity that a push into a full vector of `len` elements grows to:
/// `max(2 * len, per_page)`, rounded up to whole pages of `per_page` elements.
pub open spec fn growth_capacity(len: nat, per_page: nat) -> nat {
    round_up_to(if 2 * len > per_page { 2 * len } else { per_page }, per_page)
}

/// Element-wise equality of two sequences under `PartialEq`.
pub open spec fn elementwise_eq<T: PartialEq<U>, U>(a: Seq<T>, b: Seq<U>) -> bool {
    &&& a.len() == b.len()
    &&& forall|i: int| 0 <= i < a.len() ==> (#[trigger] a[i]).eq_spec(&b[i])
}

/// A growable vector stored in one segment at a time, sized in whole pages.
///
/// A full vector grows by making a larger segment and moving the live
/// elements into it; the old segment is left empty, so no element is dropped
/// twice.
#[derive(Debug)]
pub struct MmapVec<T, B: SegmentBuilder = DefaultSegmentBuilder> {
    segment: Segment<T>,
    builder: B,
    path: String,
    page_bytes: usize,
}

impl<T, B: SegmentBuilder> View for MmapVec<T, B> {
    type V = Seq<T>;

    /// The live elements, in order.
    closed spec fn view(&self) -> Seq<T> {
        self.segment@
    }
}

impl<T, B: SegmentBuilder> MmapVec<T, B> {
    /// Number of element slots of the current segment.
    pub closed spec fn spec_capacity(&self) -> nat {
        self.segment.spec_capacity()
    }

    /// Size in bytes of the memory pages that capacities are rounded to.
    pub closed spec fn spec_page_bytes(&self) -> nat {
        self.page_bytes as nat
    }

    /// Path of the backing file.
    pub closed spec fn spec_path(&self) -> Seq<char> {
        self.path@
    }

    /// Elements of `T` in one page, and at least one.
    pub open spec fn spec_per_page(&self) -> nat {
        elements_per_page(self.spec_page_bytes(), vstd::layout::size_of::<T>())
    }

    /// The current segment is well formed, and `T` takes memory.
    pub closed spec fn wf(&self) -> bool {
        &&& self.segment.wf()
        &&& vstd::layout::size_of::<T>() > 0
    }

    /// What well-formedness gives callers.
    pub proof fn lemma_wf(&self)
        requires
            self.wf(),
        ensures
            self@.len() <= self.spec_capacity(),
            fits_in_bytes::<T>(self.spec_capacity()),
            self.spec_page_bytes() <= usize::MAX,
            vstd::layout::size_of::<T>() > 0,
    {
        self.segment.lemma_wf();
    }

    /// Assembles a vector from its parts.
    pub(crate) fn from_parts(segment: Segment<T>, builder: B, path: String, page_bytes: usize) -> (r:
        Self)
        requires
            segment.wf(),
            vstd::layout::size_of::<T>() > 0,
        ensures
            r.wf(),
            r@ == segment@,
            r.spec_capacity() == segment.spec_capacity(),
            r.spec_path() == path@,
            r.spec_page_bytes() == page_bytes,
    {
        MmapVec { segment, builder, path, page_bytes }
    }

    /// An empty vector with no segment yet; the first push makes one.
    /// Zero-sized element types are refused.
    pub fn new() -> (r: Self)
        requires
            vstd::layout::size_of::<T>() > 0,
        ensures
            r.wf(),
            r@ == Seq::<T>::empty(),
            r.spec_capacity() == 0,
    {
        Self::empty()
    }

    /// An empty vector with no segment, for any `T`.
    fn empty() -> (r: Self)
        ensures
            vstd::layout::size_of::<T>() > 0 ==> r.wf(),
            r@ == Seq::<T>::empty(),
            r.spec_capacity() == 0,
    {
        let builder = B::default();
        let path = builder.new_segment_path();
        MmapVec { segment: Segment::null(), builder, path, page_bytes: os_page_size() }
    }

    /// An empty vector with room for `capacity` elements, in a segment named
    /// by a `B::default()` policy. Fails when that capacity in bytes does not fit
    /// in a `usize`. Zero-sized element types are refused.
    pub fn with_capacity(capacity: usize) -> (r: Result<Self, MmapVecError>)
        requires
            vstd::layout::size_of::<T>() > 0,
        ensures
            r is Ok <==> fits_in_bytes::<T>(capacity as nat),
            r is Err ==> r == Err::<Self, MmapVecError>(MmapVecError::CapacityOverflow),
            r matches Ok(v) ==> {
                &&& v.wf()
                &&& v@ == Seq::<T>::empty()
                &&& v.spec_capacity() == capacity
            },
    {
        MmapVecBuilder::new().capacity(capacity).try_build()
    }

    /// Number of element slots of the current segment.
    pub fn capacity(&self) -> (r: usize)
        ensures
            r == self.spec_capacity(),
    {
        self.segment.capacity()
    }

    /// Number of live elements.
    pub fn len(&self) -> (r: usize)
        ensures
            r == self@.len(),
    {
        self.segment.len()
    }

    /// The live elements.
    pub fn as_slice(&self) -> (r: &[T])
        ensures
            r@ == self@,
    {
        self.segment.as_slice()
    }

    /// Bytes that the backing file takes.
    pub fn disk_size(&self) -> (r: usize)
        requires
            self.wf(),
        ensures
            r == self.spec_capacity() * vstd::layout::size_of::<T>(),
    {
        self.segment.disk_size()
    }

    /// Replaces the element at `index`.
    pub fn set(&mut self, index: usize, value: T)
        requires
            old(self).wf(),
            index < old(self)@.len(),
        ensures
            final(self).wf(),
            final(self)@ == old(self)@.update(index as int, value),
            final(self).spec_capacity() == old(self).spec_capacity(),
            final(self).spec_page_bytes() == old(self).spec_page_bytes(),
            final(self).spec_path() == old(self).spec_path(),
    {
        self.segment.set(index, value);
    }

    /// Keeps the first `new_len` elements and drops the rest.
    pub fn truncate(&mut self, new_len: usize)
        requires
            old(self).wf(),
        ensures
            final(self).wf(),
            final(self)@ == truncated(old(self)@, new_len as nat),
            final(self).spec_capacity() == old(self).spec_capacity(),
            final(self).spec_page_bytes() == old(self).spec_page_bytes(),
            final(self).spec_path() == old(self).spec_path(),
    {
        self.segment.truncate(new_len);
    }

    /// Drops the first `delete_count` elements; the others keep their order.
    /// A count at or above the length clears the vector.
    pub fn truncate_first(&mut self, delete_count: usize)
        requires
            old(self).wf(),
        ensures
            final(self).wf(),
            final(self)@ == first_truncated(old(self)@, delete_count as nat),
            final(self).spec_capacity() == old(self).spec_capacity(),
            final(self).spec_page_bytes() == old(self).spec_page_bytes(),
            final(self).spec_path() == old(self).spec_path(),
    {
        self.segment.truncate_first(delete_count);
    }

    /// Drops every element; the capacity stays.
    pub fn clear(&mut self)
        requires
            old(self).wf(),
        ensures
            final(self).wf(),
            final(self)@ == cleared(old(self)@),
            final(self).spec_capacity() == old(self).spec_capacity(),
            final(self).spec_page_bytes() == old(self).spec_page_bytes(),
            final(self).spec_path() == old(self).spec_path(),
    {
        self.segment.clear();
    }

    /// Moves the last element out, if there is one.
    pub fn pop(&mut self) -> (r: Option<T>)
        requires
            old(self).wf(),
        ensures
            final(self).wf(),
            old(self)@.len() == 0 ==> r is None && final(self)@ == old(self)@,
            old(self)@.len() > 0 ==> r == Some(old(self)@.last()) && final(self)@ == old(
                self,
            )@.drop_last(),
            final(self).spec_capacity() == old(self).spec_capacity(),
            final(self).spec_page_bytes() == old(self).spec_page_bytes(),
            final(self).spec_path() == old(self).spec_path(),
    {
        self.segment.pop()
    }

    /// Appends `value` without growing; a full vector hands it back in `Err`.
    pub fn push_within_capacity(&mut self, value: T) -> (r: Result<(), T>)
        requires
            old(self).wf(),
        ensures
            final(self).wf(),
            old(self)@.len() < old(self).spec_capacity() ==> r is Ok && final(self)@ == old(
                self,
            )@.push(value),
            old(self)@.len() >= old(self).spec_capacity() ==> r == Err::<(), T>(value)
                && final(self)@ == old(self)@,
            final(self).spec_capacity() == old(self).spec_capacity(),
            final(self).spec_page_bytes() == old(self).spec_page_bytes(),
            final(self).spec_path() == old(self).spec_path(),
    {
        self.segment.push_within_capacity(value)
    }

    /// Makes room for at least `additional` more elements. When the current
    /// segment is too small, a segment of `len + additional` slots rounded up
    /// to whole pages replaces it and the elements move over in order. Fails,
    /// leaving the vector as it was, when that capacity in bytes does not fit
    /// in a `usize`.
    pub fn reserve(&mut self, additional: usize) -> (r: Result<(), MmapVecError>)
        requires
            old(self).wf(),
        ensures
            final(self).wf(),
            final(self)@ == old(self)@,
            final(self).spec_page_bytes() == old(self).spec_page_bytes(),
            final(self).spec_path() == old(self).spec_path(),
            ({
                let target = reserved_capacity(
                    old(self)@.len(),
                    old(self).spec_capacity(),
                    additional as nat,
                    old(self).spec_per_page(),
                );
                &&& r is Ok <==> fits_in_bytes::<T>(target)
                &&& r is Ok ==> final(self).spec_capacity() == target
                &&& r is Err ==> r == Err::<(), MmapVecError>(MmapVecError::CapacityOverflow)
                    && final(self).spec_capacity() == old(self).spec_capacity()
            }),
    {
        match self.capacity_for_reserve(additional) {
            None => Err(MmapVecError::CapacityOverflow),
            Some(target) => {
                self.grow_to(target);
                Ok(())
            },
        }
    }

    /// Appends `value`. A full vector first grows to
    /// `growth_capacity(len, per_page)` slots: twice its length or one page,
    /// whichever is more, rounded up to whole pages. Fails, leaving the vector as it was, only when that
    /// capacity in bytes does not fit in a `usize`.
    pub fn push(&mut self, value: T) -> (r: Result<(), MmapVecError>)
        requires
            old(self).wf(),
        ensures
            final(self).wf(),
            final(self).spec_page_bytes() == old(self).spec_page_bytes(),
            final(self).spec_path() == old(self).spec_path(),
            ({
                let full = old(self)@.len() == old(self).spec_capacity();
                let target = growth_capacity(old(self)@.len(), old(self).spec_per_page());
                &&& r is Ok <==> !full || fits_in_bytes::<T>(target)
                &&& r is Ok ==> final(self)@ == old(self)@.push(value)
                &&& r is Ok && !full ==> final(self).spec_capacity() == old(self).spec_capacity()
                &&& r is Ok && full ==> final(self).spec_capacity() == target
                &&& r is Err ==> r == Err::<(), MmapVecError>(MmapVecError::CapacityOverflow)
                    && final(self)@ == old(self)@ && final(self).spec_capacity() == old(
                    self,
                ).spec_capacity()
            }),
    {
        proof {
            self.segment.lemma_wf();
            let len = self@.len();
            let per_page = self.spec_per_page();
            lemma_round_up_to(if 2 * len > per_page { 2 * len } else { per_page }, per_page);
        }
        match self.capacity_for_push() {
            None => Err(MmapVecError::CapacityOverflow),
            Some(target) => {
                self.grow_to(target);
                // The growth above left a free slot, so the value is always taken.
                match self.segment.push_within_capacity(value) {
                    Ok(()) => Ok(()),
                    Err(_) => Ok(()),
                }
            },
        }
    }

    /// The capacity that `reserve(additional)` leaves, or `None` when it
    /// fails. Nothing changes; a caller can prepare storage of that size first.
    pub fn capacity_for_reserve(&self, additional: usize) -> (r: Option<usize>)
        requires
            self.wf(),
        ensures
            ({
                let target = reserved_capacity(
                    self@.len(),
                    self.spec_capacity(),
                    additional as nat,
                    self.spec_per_page(),
                );
                &&& r is Some <==> fits_in_bytes::<T>(target)
                &&& r matches Some(v) ==> v == target
            }),
    {
        proof {
            self.segment.lemma_wf();
        }
        reserve_target::<T>(self.segment.len(), self.segment.capacity(), additional, self.page_bytes)
    }

    /// The capacity that `push` leaves, or `None` when it fails. Nothing
    /// changes; a caller can prepare storage of that size first.
    pub fn capacity_for_push(&self) -> (r: Option<usize>)
        requires
            self.wf(),
        ensures
            self@.len() < self.spec_capacity() ==> r == Some(self.spec_capacity() as usize),
            self@.len() == self.spec_capacity() ==> {
                let target = growth_capacity(self@.len(), self.spec_per_page());
                &&& r is Some <==> fits_in_bytes::<T>(target)
                &&& r matches Some(v) ==> v == target
            },
    {
        proof {
            self.segment.lemma_wf();
        }
        let len = self.segment.len();
        let capacity = self.segment.capacity();
        if len < capacity {
            return Some(capacity);
        }
        let per_page = page_elements::<T>(self.page_bytes);
        let doubled = match len.checked_mul(2) {
            Some(d) => d,
            None => {
                proof {
                    let want = 2 * len;
                    lemma_round_up_to(want as nat, per_page as nat);
                }
                return None;
            },
        };
        let wanted = if doubled > per_page {
            doubled
        } else {
            per_page
        };
        let target = match checked_round_up(wanted, per_page) {
            Some(t) => t,
            None => return None,
        };
        match target.checked_mul(core::mem::size_of::<T>()) {
            Some(_) => Some(target),
            None => None,
        }
    }

    /// Moves the elements into a new segment of `target` slots when that is
    /// more than the current capacity.
    fn grow_to(&mut self, target: usize)
        requires
            old(self).wf(),
            old(self)@.len() <= target,
            fits_in_bytes::<T>(target as nat),
        ensures
            final(self).wf(),
            final(self)@ == old(self)@,
            final(self).spec_capacity() == if target > old(self).spec_capacity() {
                target as nat
            } else {
                old(self).spec_capacity()
            },
            final(self).spec_page_bytes() == old(self).spec_page_bytes(),
            final(self).spec_path() == old(self).spec_path(),
    {
        if target > self.segment.capacity() {
            let mut moved = Segment::with_capacity(target);
            core::mem::swap(&mut self.segment, &mut moved);
            self.segment.extend_from_segment(moved);
        }
    }

    /// Byte range, from the start of the segment, of a read-ahead hint over
    /// every live element; `None` when there is nothing to read.
    pub fn advice_prefetch_all_pages(&self) -> (r: Option<PrefetchRange>)
        requires
            self.wf(),
        ensures
            self@.len() == 0 ==> r is None,
            self@.len() > 0 ==> r == Some(
                PrefetchRange {
                    offset: 0,
                    len: (self@.len() * vstd::layout::size_of::<T>()) as usize,
                },
            ),
    {
        proof {
            self.segment.lemma_wf();
        }
        self.segment.advice_prefetch_all_pages()
    }

    /// Byte range of the page that holds the element at `index`, for a
    /// read-ahead hint; `None` when there is no such element.
    pub fn advice_prefetch_page_at(&self, index: usize) -> (r: Option<PrefetchRange>)
        requires
            self.wf(),
        ensures
            index >= self@.len() || self.spec_page_bytes() == 0 ==> r is None,
            index < self@.len() && self.spec_page_bytes() > 0 ==> r == Some(
                PrefetchRange {
                    offset: page_start(
                        (index * vstd::layout::size_of::<T>()) as nat,
                        self.spec_page_bytes(),
                    ) as usize,
                    len: self.spec_page_bytes() as usize,
                },
            ),
    {
        proof {
            self.segment.lemma_wf();
        }
        self.segment.advice_prefetch_page_at(index, self.page_bytes)
    }

    /// Path of the backing file.
    pub fn path(&self) -> (r: String)
        ensures
            r@ == self.spec_path(),
    {
        self.path.clone()
    }
}

impl<T: Clone, B: SegmentBuilder + Clone> MmapVec<T, B> {
    /// A copy in a new segment of the same capacity, with a new backing path
    /// from the same policy; each element is a clone of the element at the
    /// same place.
    pub fn try_clone(&self) -> (r: Result<Self, MmapVecError>)
        requires
            self.wf(),
        ensures
            r is Ok,
            r matches Ok(c) ==> {
                &&& c.wf()
                &&& c@.len() == self@.len()
                &&& forall|i: int| 0 <= i < self@.len() ==> cloned::<T>(self@[i], #[trigger] c@[i])
                &&& c.spec_capacity() == self.spec_capacity()
                &&& c.spec_page_bytes() == self.spec_page_bytes()
            },
    {
        let len = self.segment.len();
        proof {
            self.segment.lemma_wf();
        }
        let other_path = self.builder.new_segment_path();
        let mut other_segment = Segment::with_capacity(self.segment.capacity());
        let items = self.segment.as_slice();
        let mut i: usize = 0;
        while i < len
            invariant
                items@ == self@,
                len == self@.len(),
                i <= len,
                len <= self.spec_capacity(),
                other_segment.wf(),
                other_segment.spec_capacity() == self.spec_capacity(),
                other_segment@.len() == i,
                forall|j: int| 0 <= j < i ==> cloned::<T>(self@[j], #[trigger] other_segment@[j]),
            decreases len - i,
        {
            let value = items[i].clone();
            let pushed = other_segment.push_within_capacity(value);
            assert(pushed is Ok);
            i = i + 1;
        }
        Ok(MmapVec {
            segment: other_segment,
            builder: self.builder.clone(),
            path: other_path,
            page_bytes: self.page_bytes,
        })
    }
}

impl<T, B: SegmentBuilder> Default for MmapVec<T, B> {
    /// Same as `new`. A zero-sized `T` gives a vector that is not well
    /// formed, on which no operation can be called.
    fn default() -> (r: Self)
        ensures
            vstd::layout::size_of::<T>() > 0 ==> r.wf(),
            r@ == Seq::<T>::empty(),
            r.spec_capacity() == 0,
    {
        Self::empty()
    }
}

impl<T, B: SegmentBuilder> core::ops::Deref for MmapVec<T, B> {
    type Target = [T];

    fn deref(&self) -> (r: &[T])
        ensures
            r@ == self@,
    {
        self.segment.as_slice()
    }
}

impl<T, U, B1, B2> PartialEq<MmapVec<U, B2>> for MmapVec<T, B1> where T: PartialEq<U>, B1: SegmentBuilder, B2: SegmentBuilder {
    /// Equal when the live elements are equal pair by pair; capacities, paths
    /// and policies play no part.
    fn eq(&self, other: &MmapVec<U, B2>) -> (r: bool) {
        let a = self.segment.as_slice();
        let b = other.segment.as_slice();
        if a.len() != b.len() {
            return false;
        }
        let mut i: usize = 0;
        while i < a.len()
            invariant
                a@ == self@,
                b@ == other@,
                a@.len() == b@.len(),
                i <= a@.len(),
                T::obeys_eq_spec() ==> forall|j: int|
                    0 <= j < i ==> (#[trigger] self@[j]).eq_spec(&other@[j]),
            decreases a@.len() - i,
        {
            if !a[i].eq(&b[i]) {
                return false;
            }
            i = i + 1;
        }
        true
    }
}

impl<T, U, B1, B2> vstd::std_specs::cmp::PartialEqSpecImpl<MmapVec<U, B2>> for MmapVec<T, B1> where T: PartialEq<U>, B1: SegmentBuilder, B2: SegmentBuilder {
    open spec fn obeys_eq_spec() -> bool {
        T::obeys_eq_spec()
    }

    open spec fn eq_spec(&self, other: &MmapVec<U, B2>) -> bool {
        elementwise_eq(self@, other@)
    }
}

impl<T: Eq, B: SegmentBuilder> Eq for MmapVec<T, B> {

}

/// Relies on std's `Vec::from` for arrays: the array's elements, in order.
#[verifier::external_body]
fn array_into_vec<T, const N: usize>(values: [T; N]) -> (r: Vec<T>)
    ensures
        r@ == values@,
{
    Vec::from(values)
}

impl<T, B: SegmentBuilder> TryFrom<Vec<T>> for MmapVec<T, B> {
    type Error = MmapVecError;

    /// A vector of capacity `values.len()` holding `values` in order;
    /// zero-sized element types are refused.
    fn try_from(values: Vec<T>) -> (r: Result<Self, MmapVecError>)
        ensures
            r is Ok <==> vstd::layout::size_of::<T>() > 0 && fits_in_bytes::<T>(values@.len()),
            vstd::layout::size_of::<T>() == 0 ==> r == Err::<Self, MmapVecError>(
                MmapVecError::ZeroSizedType,
            ),
            vstd::layout::size_of::<T>() > 0 && r is Err ==> r == Err::<Self, MmapVecError>(
                MmapVecError::CapacityOverflow,
            ),
            r matches Ok(v) ==> {
                &&& v.wf()
                &&& v@ == values@
                &&& v.spec_capacity() == values@.len()
            },
    {
        if core::mem::size_of::<T>() == 0 {
            return Err(MmapVecError::ZeroSizedType);
        }
        match Self::with_capacity(values.len()) {
            Err(e) => Err(e),
            Ok(out) => {
                let mut out = out;
                out.segment.extend_from_vec(values);
                Ok(out)
            },
        }
    }
}

impl<T, B: SegmentBuilder, const N: usize> TryFrom<[T; N]> for MmapVec<T, B> {
    type Error = MmapVecError;

    /// A vector of capacity `N` holding the array's elements in order;
    /// zero-sized element types are refused.
    fn try_from(values: [T; N]) -> (r: Result<Self, MmapVecError>)
        ensures
            r is Ok <==> vstd::layout::size_of::<T>() > 0 && fits_in_bytes::<T>(N as nat),
            vstd::layout::size_of::<T>() == 0 ==> r == Err::<Self, MmapVecError>(
                MmapVecError::ZeroSizedType,
            ),
            vstd::layout::size_of::<T>() > 0 && r is Err ==> r == Err::<Self, MmapVecError>(
                MmapVecError::CapacityOverflow,
            ),
            r matches Ok(v) ==> {
                &&& v.wf()
                &&& v@ == values@
                &&& v.spec_capacity() == N
            },
    {
        let values = array_into_vec(values);
        Self::try_from(values)
    }
}

impl<'a, T: Clone, B: SegmentBuilder> TryFrom<&'a [T]> for MmapVec<T, B> {
    type Error = MmapVecError;

    /// A vector of capacity `values.len()` holding clones of `values` in
    /// order; zero-sized element types are refused.
    fn try_from(values: &'a [T]) -> (r: Result<Self, MmapVecError>)
        ensures
            r is Ok <==> vstd::layout::size_of::<T>() > 0 && fits_in_bytes::<T>(values@.len()),
            vstd::layout::size_of::<T>() == 0 ==> r == Err::<Self, MmapVecError>(
                MmapVecError::ZeroSizedType,
            ),
            vstd::layout::size_of::<T>() > 0 && r is Err ==> r == Err::<Self, MmapVecError>(
                MmapVecError::CapacityOverflow,
            ),
            r matches Ok(v) ==> {
                &&& v.wf()
                &&& v@.len() == values@.len()
                &&& forall|i: int| 0 <= i < values@.len() ==> cloned::<T>(values@[i], #[trigger] v@[i])
                &&& v.spec_capacity() == values@.len()
            },
    {
        if core::mem::size_of::<T>() == 0 {
            return Err(MmapVecError::ZeroSizedType);
        }
        let n = values.len();
        let mut out = match Self::with_capacity(n) {
            Err(e) => {
                return Err(e);
            },
            Ok(out) => out,
        };
        let mut i: usize = 0;
        while i < n
            invariant
                n == values@.len(),
                i <= n,
                out.wf(),
                out.spec_capacity() == n,
                out@.len() == i,
                forall|j: int| 0 <= j < i ==> cloned::<T>(values@[j], #[trigger] out@[j]),
            decreases n - i,
        {
            let pushed = out.segment.push_within_capacity(values[i].clone());
            assert(pushed is Ok);
            i = i + 1;
        }
        Ok(out)
    }
}

// The built vector's backing path is drawn at random, so no function of
// the input describes the result; the `try_from` bodies state what holds.
impl<T, B: SegmentBuilder> vstd::std_specs::convert::TryFromSpecImpl<Vec<T>> for MmapVec<T, B> {
    open spec fn obeys_try_from_spec() -> bool {
        false
    }

    open spec fn try_from_spec(v: Vec<T>) -> Result<Self, MmapVecError> {
        arbitrary()
    }
}

impl<T, B: SegmentBuilder, const N: usize> vstd::std_specs::convert::TryFromSpecImpl<[T; N]> for MmapVec<T, B> {
    open spec fn obeys_try_from_spec() -> bool {
        false
    }

    open spec fn try_from_spec(v: [T; N]) -> Result<Self, MmapVecError> {
        arbitrary()
    }
}

impl<'a, T: Clone, B: SegmentBuilder> vstd::std_specs::convert::TryFromSpecImpl<&'a [T]> for MmapVec<T, B> {
    open spec fn obeys_try_from_spec() -> bool {
        false
    }

    open spec fn try_from_spec(v: &'a [T]) -> Result<Self, MmapVecError> {
        arbitrary()
    }
}

} // verus!
