use vstd::prelude::*;

verus! {

/// Number of elements of `elem_bytes` bytes that one page of `page_bytes`
/// bytes holds, and never less than one, so that every growth step makes room.
pub open spec fn elements_per_page(page_bytes: nat, elem_bytes: nat) -> nat {
    if elem_bytes == 0 || page_bytes / elem_bytes == 0 {
        1
    } else {
        page_bytes / elem_bytes
    }
}

/// The least multiple of `unit` that is at least `n`.
pub open spec fn round_up_to(n: nat, unit: nat) -> nat
    recommends
        unit > 0,
{
    if n % unit == 0 {
        n
    } else {
        (n + (unit - n % unit)) as nat
    }
}

/// Whether `capacity` elements of `T`, and their byte size, fit in a `usize`.
pub open spec fn fits_in_bytes<T>(capacity: nat) -> bool {
    &&& capacity <= usize::MAX
    &&& capacity * vstd::layout::size_of::<T>() <= usize::MAX
}

/// The capacity that room for `additional` more elements calls for: the
/// current one when `len + additional` already fits, else `len + additional`
/// rounded up to whole pages of `per_page` elements.
pub open spec fn reserved_capacity(len: nat, capacity: nat, additional: nat, per_page: nat) -> nat {
    if len + additional <= capacity {
        capacity
    } else {
        round_up_to(len + additional, per_page)
    }
}

/// Start of the page of `page_bytes` bytes that holds byte `byte`.
pub open spec fn page_start(byte: nat, page_bytes: nat) -> nat
    recommends
        page_bytes > 0,
{
    (byte - byte % page_bytes) as nat
}

/// Computes `reserved_capacity` for elements of `T` and pages of `page_bytes`
/// bytes; `None` when that capacity does not fit in bytes.
pub fn reserve_target<T>(len: usize, capacity: usize, additional: usize, page_bytes: usize) -> (r:
    Option<usize>)
    requires
        fits_in_bytes::<T>(capacity as nat),
    ensures
        ({
            let target = reserved_capacity(
                len as nat,
                capacity as nat,
                additional as nat,
                elements_per_page(page_bytes as nat, vstd::layout::size_of::<T>()),
            );
            &&& r is Some <==> fits_in_bytes::<T>(target)
            &&& r matches Some(v) ==> v == target
        }),
{
    let per_page = page_elements::<T>(page_bytes);
    let needed = match len.checked_add(additional) {
        Some(n) => n,
        None => {
            proof {
                let n = len as nat + additional as nat;
                assert(round_up_to(n, per_page as nat) >= n) by (nonlinear_arith)
                    requires
                        per_page > 0,
                        round_up_to(n, per_page as nat) == if n % (per_page as nat) == 0 {
                            n
                        } else {
                            (n + (per_page - n % (per_page as nat))) as nat
                        },
                ;
            }
            return None;
        },
    };
    if needed <= capacity {
        return Some(capacity);
    }
    let target = match checked_round_up(needed, per_page) {
        Some(t) => t,
        None => return None,
    };
    match target.checked_mul(core::mem::size_of::<T>()) {
        Some(_) => Some(target),
        None => None,
    }
}

/// A byte range, relative to the start of a segment, that a read-ahead hint
/// covers.
#[derive(Debug, Clone, Copy, PartialEq, Eq, Structural)]
pub struct PrefetchRange {
    /// First byte of the range.
    pub offset: usize,
    /// Number of bytes in the range.
    pub len: usize,
}

/// Relies on `page_size::get`: the size in bytes of one memory page of this
/// machine. Nothing is assumed about the value.
#[verifier::external_body]
pub(crate) fn os_page_size() -> (r: usize) {
    page_size::get()
}

/// Whether values of `T` occupy memory; zero-sized types have nothing to store
/// in a backing file and are refused by callers that map them.
pub fn check_zst<T>() -> (r: bool)
    ensures
        r == (vstd::layout::size_of::<T>() > 0),
{
    core::mem::size_of::<T>() > 0
}

/// Executable form of `elements_per_page` for elements of type `T`.
pub fn page_elements<T>(page_bytes: usize) -> (r: usize)
    ensures
        r as nat == elements_per_page(page_bytes as nat, vstd::layout::size_of::<T>()),
        r >= 1,
{
    let size = core::mem::size_of::<T>();
    if size == 0 {
        1
    } else {
        let per_page = page_bytes / size;
        if per_page == 0 {
            1
        } else {
            per_page
        }
    }
}

/// Rounds `n` up to a multiple of `unit`, or `None` where the result does not
/// fit in a `usize`.
pub fn checked_round_up(n: usize, unit: usize) -> (r: Option<usize>)
    requires
        unit > 0,
    ensures
        r matches Some(v) ==> v as nat == round_up_to(n as nat, unit as nat),
        r is None <==> round_up_to(n as nat, unit as nat) > usize::MAX,
{
    let rem = n % unit;
    if rem == 0 {
        Some(n)
    } else {
        n.checked_add(unit - rem)
    }
}

} // verus!
