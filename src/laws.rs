use vstd::prelude::*;
use vstd::laws_eq::obeys_concrete_eq;
use vstd::std_specs::cmp::PartialEqSpec;

use crate::mmap_vec::{elementwise_eq, growth_capacity, MmapVec};
use crate::segment::{cleared, first_truncated, truncated};
use crate::segment_builder::SegmentBuilder;
use crate::utils::{reserved_capacity, round_up_to};

verus! {

/// `s` after pushing each of `values` in turn.
pub open spec fn pushed_all<T>(s: Seq<T>, values: Seq<T>) -> Seq<T>
    decreases values.len(),
{
    if values.len() == 0 {
        s
    } else {
        pushed_all(s, values.drop_last()).push(values.last())
    }
}

/// `s` after `k` pops; popping an empty sequence leaves it empty.
pub open spec fn popped_n<T>(s: Seq<T>, k: nat) -> Seq<T>
    decreases k,
{
    if k == 0 || s.len() == 0 {
        s
    } else {
        popped_n(s.drop_last(), (k - 1) as nat)
    }
}

/// Rounding up to a multiple of a positive unit gives a multiple of it that
/// is at least the input and less than one unit above it.
pub proof fn lemma_round_up_to(n: nat, unit: nat)
    requires
        unit > 0,
    ensures
        round_up_to(n, unit) >= n,
        round_up_to(n, unit) < n + unit,
        round_up_to(n, unit) % unit == 0,
{
    if n % unit != 0 {
        let r = n % unit;
        let q = n / unit;
        assert(n == q * unit + r) by (nonlinear_arith)
            requires
                r == n % unit,
                q == n / unit,
                unit > 0,
        ;
        assert(n + (unit - r) == (q + 1) * unit) by (nonlinear_arith)
            requires
                n == q * unit + r,
        ;
        assert(((q + 1) * unit) % unit == 0) by (nonlinear_arith)
            requires
                unit > 0,
        ;
    }
}

/// Pushing values one at a time, from any starting contents, appends them in
/// the order they were pushed; the length grows by one per push.
pub proof fn law_pushes_keep_order<T>(s: Seq<T>, values: Seq<T>)
    ensures
        pushed_all(s, values) == s + values,
        pushed_all(s, values).len() == s.len() + values.len(),
    decreases values.len(),
{
    if values.len() > 0 {
        law_pushes_keep_order(s, values.drop_last());
        assert(s + values =~= (s + values.drop_last()).push(values.last()));
    }
}

/// Pops undo pushes last-first: after pushing `values` onto `s`, the `k`-th
/// pop (counting from zero) yields `values[n - 1 - k]`, and after `k` pops the
/// contents are `s` followed by the first `n - k` pushed values.
pub proof fn law_pops_are_lifo<T>(s: Seq<T>, values: Seq<T>, k: nat)
    requires
        k <= values.len(),
    ensures
        popped_n(s + values, k) == s + values.subrange(0, values.len() - k),
        popped_n(s + values, k).len() == s.len() + values.len() - k,
        k < values.len() ==> popped_n(s + values, k).last() == values[values.len() - 1 - k],
    decreases k,
{
    if k > 0 {
        let shorter = values.drop_last();
        assert((s + values).drop_last() =~= s + shorter);
        law_pops_are_lifo(s, shorter, (k - 1) as nat);
        assert(shorter.subrange(0, shorter.len() - (k - 1)) =~= values.subrange(
            0,
            values.len() - k,
        ));
    }
    let rest = s + values.subrange(0, values.len() - k);
    if k < values.len() {
        assert(rest.last() == values[values.len() - 1 - k]);
    }
    assert(rest.len() == s.len() + values.len() - k);
}

/// One call on a vector used as a stack: a push of a value, or a pop.
pub enum StackOp<T> {
    Push(T),
    Pop,
}

/// The contents and the popped value after one call, as the contracts of
/// `push` (when it succeeds) and `pop` give them.
pub open spec fn stack_step<T>(s: Seq<T>, op: StackOp<T>) -> (Seq<T>, Option<T>) {
    match op {
        StackOp::Push(x) => (s.push(x), None),
        StackOp::Pop => if s.len() == 0 {
            (s, None)
        } else {
            (s.drop_last(), Some(s.last()))
        },
    }
}

/// The contents after `ops`, in order, starting from `s`.
pub open spec fn run_stack_ops<T>(s: Seq<T>, ops: Seq<StackOp<T>>) -> Seq<T>
    decreases ops.len(),
{
    if ops.len() == 0 {
        s
    } else {
        stack_step(run_stack_ops(s, ops.drop_last()), ops.last()).0
    }
}

/// Number of pushes in `ops`.
pub open spec fn push_count<T>(ops: Seq<StackOp<T>>) -> nat
    decreases ops.len(),
{
    if ops.len() == 0 {
        0
    } else {
        push_count(ops.drop_last()) + if ops.last() is Push {
            1nat
        } else {
            0nat
        }
    }
}

/// Number of pops in `ops`, starting from `s`, that found an element.
pub open spec fn pop_count<T>(s: Seq<T>, ops: Seq<StackOp<T>>) -> nat
    decreases ops.len(),
{
    if ops.len() == 0 {
        0
    } else {
        pop_count(s, ops.drop_last()) + if ops.last() is Pop && run_stack_ops(
            s,
            ops.drop_last(),
        ).len() > 0 {
            1nat
        } else {
            0nat
        }
    }
}

/// Under any interleaving of pushes and pops, each pop returns the most
/// recently pushed element still present, or nothing on empty contents; a
/// pop right after a push returns that pushed value and restores the
/// contents; and the length is the starting length plus the pushes minus the
/// pops that found an element.
pub proof fn law_push_pop_interleaving<T>(s: Seq<T>, ops: Seq<StackOp<T>>, x: T)
    ensures
        run_stack_ops(s, ops).len() == s.len() + push_count(ops) - pop_count(s, ops),
        stack_step(run_stack_ops(s, ops), StackOp::Pop).1 == if run_stack_ops(s, ops).len()
            == 0 {
            None
        } else {
            Some(run_stack_ops(s, ops).last())
        },
        stack_step(stack_step(run_stack_ops(s, ops), StackOp::Push(x)).0, StackOp::Pop) == (
            run_stack_ops(s, ops),
            Some(x),
        ),
    decreases ops.len(),
{
    if ops.len() > 0 {
        law_push_pop_interleaving(s, ops.drop_last(), x);
    }
    let t = run_stack_ops(s, ops);
    assert(t.push(x).drop_last() =~= t);
}

/// `truncate(n)` leaves contents of length at most `n` untouched; otherwise
/// it leaves exactly the first `n` elements, unchanged.
pub proof fn law_truncate<T>(s: Seq<T>, n: nat)
    ensures
        n >= s.len() ==> truncated(s, n) == s,
        n < s.len() ==> truncated(s, n).len() == n && forall|i: int|
            0 <= i < n ==> #[trigger] truncated(s, n)[i] == s[i],
{
}

/// `truncate_first(k)` empties contents of length at most `k`; otherwise it
/// leaves the elements after the first `k`, in their order.
pub proof fn law_truncate_first<T>(s: Seq<T>, k: nat)
    ensures
        k >= s.len() ==> first_truncated(s, k).len() == 0,
        k < s.len() ==> first_truncated(s, k).len() == s.len() - k && forall|i: int|
            0 <= i < s.len() - k ==> #[trigger] first_truncated(s, k)[i] == s[i + k],
{
}

/// Clearing twice is clearing once: `clear` on contents that a `clear` left
/// behind leaves them as they are.
pub proof fn law_clear_idempotent<T>(s: Seq<T>)
    ensures
        cleared(cleared(s)) == cleared(s),
        cleared(s).len() == 0,
{
}

/// A push into a full vector keeps every earlier element in place, and the
/// capacity it grows to is more than the old one, at least a page of
/// elements, and at least double the old one.
pub proof fn law_growth<T>(old_contents: Seq<T>, value: T, per_page: nat)
    requires
        per_page >= 1,
    ensures
        forall|i: int|
            0 <= i < old_contents.len() ==> #[trigger] old_contents.push(value)[i]
                == old_contents[i],
        growth_capacity(old_contents.len(), per_page) > old_contents.len(),
        growth_capacity(old_contents.len(), per_page) >= per_page,
        growth_capacity(old_contents.len(), per_page) >= 2 * old_contents.len(),
{
    let len = old_contents.len();
    lemma_round_up_to(if 2 * len > per_page { 2 * len } else { per_page }, per_page);
}

/// `reserve(n)` never lowers the capacity, leaves room for `n` more
/// elements, and when it grows, grows to a whole number of pages.
pub proof fn law_reserve(len: nat, capacity: nat, additional: nat, per_page: nat)
    requires
        per_page >= 1,
        len <= capacity,
    ensures
        reserved_capacity(len, capacity, additional, per_page) >= capacity,
        reserved_capacity(len, capacity, additional, per_page) >= len + additional,
        len + additional > capacity ==> reserved_capacity(len, capacity, additional, per_page)
            % per_page == 0,
{
    lemma_round_up_to(len + additional, per_page);
}

/// With an element type whose `==` is plain equality and whose `clone`
/// copies, a clone of a vector compares equal to it.
pub proof fn law_clone_compares_equal<T: PartialEq + Clone>(source: Seq<T>, copy: Seq<T>)
    requires
        obeys_concrete_eq::<T>(),
        forall|a: T, b: T| #[trigger] cloned::<T>(a, b) ==> a == b,
        copy.len() == source.len(),
        forall|i: int| 0 <= i < source.len() ==> cloned::<T>(source[i], #[trigger] copy[i]),
    ensures
        elementwise_eq(source, copy),
{
    reveal(obeys_concrete_eq);
    assert forall|i: int| 0 <= i < source.len() implies (#[trigger] source[i]).eq_spec(&copy[i]) by {
        assert(cloned::<T>(source[i], copy[i]));
    }
}

/// Vectors compare equal exactly when their live elements do, pair by pair,
/// whatever their capacities, paths and policies.
pub proof fn law_eq_ignores_capacity<T: PartialEq<U>, U, B1: SegmentBuilder, B2: SegmentBuilder>(
    a: MmapVec<T, B1>,
    b: MmapVec<U, B2>,
)
    ensures
        a.eq_spec(&b) <==> elementwise_eq(a@, b@),
{
}

/// Every element is accounted for exactly once by the removing operations:
/// a pop hands the last element to the caller rather than dropping it, and
/// `truncate` and `truncate_first` split the contents into the elements they
/// keep and the elements they drop, with no element in both or in neither.
pub proof fn law_removals_account_for_each_element<T>(s: Seq<T>, n: nat)
    ensures
        s.len() > 0 ==> s.drop_last().to_multiset().insert(s.last()) == s.to_multiset(),
        n < s.len() ==> truncated(s, n) + s.subrange(n as int, s.len() as int) == s,
        n < s.len() ==> s.subrange(0, n as int) + first_truncated(s, n) == s,
        n < s.len() ==> truncated(s, n).to_multiset().add(
            s.subrange(n as int, s.len() as int).to_multiset(),
        ) == s.to_multiset(),
{
    broadcast use vstd::seq_lib::group_to_multiset_ensures;

    if s.len() > 0 {
        assert(s.drop_last().push(s.last()) =~= s);
    }
    if n < s.len() {
        let kept = s.subrange(0, n as int);
        let dropped = s.subrange(n as int, s.len() as int);
        assert(kept + dropped =~= s);
        assert(kept + first_truncated(s, n) =~= s);
        vstd::seq_lib::lemma_multiset_commutative(kept, dropped);
    }
}

} // verus!
