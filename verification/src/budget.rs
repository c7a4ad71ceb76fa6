//! Accounting for a bounded budget of concurrently open file handles.
//!
//! A scan over a live process filesystem may open thousands of small files;
//! without a gate, it can exhaust the process's descriptor table. The budget
//! counts how many more handles may be opened; a handle is wrapped in a
//! [`FileCounter`], which holds one unit of the budget for as long as it
//! lives and gives the unit back on release.

use vstd::prelude::*;

verus! {

/// The remaining-handle budget: how many more file handles may be open at
/// once. It is initialized once, at process startup, to a configured ceiling
/// and then only moves by one unit per acquire or release.
///
/// The budget is the single piece of state shared by all scanning code; it is
/// threaded through acquire and release by exclusive reference, so each update
/// is one indivisible check-then-act step.
pub struct FileBudget {
    remaining: u64,
    ceiling: u64,
}

impl FileBudget {
    /// How many units are still free.
    pub closed spec fn remaining_units(&self) -> u64 {
        self.remaining
    }

    /// The configured ceiling the budget was created with.
    pub closed spec fn ceiling_units(&self) -> u64 {
        self.ceiling
    }

    /// How many units have been acquired and not yet released.
    pub open spec fn outstanding(&self) -> int {
        self.ceiling_units() - self.remaining_units()
    }

    /// The budget never underflows and never exceeds its ceiling.
    pub open spec fn inv(&self) -> bool {
        self.remaining_units() <= self.ceiling_units()
    }

    /// Creates a budget with `ceiling` free units and no handle outstanding.
    pub fn new(ceiling: u64) -> (b: Self)
        ensures
            b.inv(),
            b.remaining_units() == ceiling,
            b.ceiling_units() == ceiling,
            b.outstanding() == 0,
    {
        FileBudget { remaining: ceiling, ceiling }
    }

    /// How many units are still free.
    pub fn remaining(&self) -> (r: u64)
        ensures
            r == self.remaining_units(),
    {
        self.remaining
    }

    /// The configured ceiling.
    pub fn ceiling(&self) -> (r: u64)
        ensures
            r == self.ceiling_units(),
    {
        self.ceiling
    }
}

/// At any instant at most `ceiling_units()` handles are outstanding, and when
/// that bound is reached the budget is empty, so the next acquire
/// (`FileCounter::new`) fails rather than oversubscribing.
pub proof fn lemma_outstanding_bounded(b: FileBudget)
    requires
        b.inv(),
    ensures
        0 <= b.outstanding() <= b.ceiling_units(),
        b.outstanding() == b.ceiling_units() ==> b.remaining_units() == 0,
{
}

/// One step a budget can take: an acquire attempt, or the release of a held
/// unit.
pub enum BudgetOp {
    Acquire,
    Release,
}

/// The remaining count after one step. An acquire takes a unit when one is
/// free and is refused — leaving the count unchanged — when none is; a
/// release gives one unit back, and can only happen while a unit is held,
/// that is, while the count is below the ceiling. `FileCounter::new` and
/// `FileCounter::release` each state that they take exactly one such step.
pub open spec fn apply_op(remaining: int, ceiling: int, op: BudgetOp) -> int {
    match op {
        BudgetOp::Acquire => if remaining > 0 {
            remaining - 1
        } else {
            remaining
        },
        BudgetOp::Release => if remaining < ceiling {
            remaining + 1
        } else {
            remaining
        },
    }
}

/// The remaining count after a whole sequence of steps, applied in order.
pub open spec fn run_ops(remaining: int, ceiling: int, ops: Seq<BudgetOp>) -> int
    decreases ops.len(),
{
    if ops.len() == 0 {
        remaining
    } else {
        run_ops(apply_op(remaining, ceiling, ops.first()), ceiling, ops.drop_first())
    }
}

/// Any interleaving of acquire attempts and releases, starting from a budget
/// whose remaining count is within its ceiling — as a fresh budget's is —
/// keeps the count between zero and the ceiling. The units held at any
/// instant are the ceiling minus the remaining count, so at most `ceiling`
/// handles ever exist at once, the acquire attempted when the count is zero
/// is refused, and the count never underflows.
pub proof fn lemma_any_interleaving_bounded(remaining: int, ceiling: int, ops: Seq<BudgetOp>)
    requires
        0 <= remaining <= ceiling,
    ensures
        0 <= run_ops(remaining, ceiling, ops) <= ceiling,
    decreases ops.len(),
{
    if ops.len() > 0 {
        lemma_any_interleaving_bounded(
            apply_op(remaining, ceiling, ops.first()),
            ceiling,
            ops.drop_first(),
        );
    }
}

/// An open handle together with ownership of one unit of the remaining-handle
/// budget. A value of this type exists only after a successful acquire; it
/// cannot be copied, so the unit it holds is given back exactly once, by
/// [`FileCounter::release`]. For read or seek work the wrapped handle is
/// reached through [`FileCounter::get`] and [`FileCounter::get_mut`]; the
/// wrapper adds no behaviour of its own.
pub struct FileCounter<T> {
    handle: T,
}

impl<T> FileCounter<T> {
    /// The wrapped handle.
    pub closed spec fn handle_view(&self) -> T {
        self.handle
    }

    /// Attempts to take one unit of the budget for the open handle `f`.
    ///
    /// When a unit is free, it is consumed and the returned wrapper owns `f`
    /// together with that unit. When the budget is exhausted, no value is
    /// returned, the budget is left exactly as it was (it never underflows),
    /// and `f` is dropped here, which closes an OS handle.
    pub fn new(f: T, budget: &mut FileBudget) -> (r: Option<Self>)
        requires
            old(budget).inv(),
        ensures
            final(budget).inv(),
            final(budget).ceiling_units() == old(budget).ceiling_units(),
            old(budget).remaining_units() == 0 ==> r is None
                && final(budget).remaining_units() == 0,
            old(budget).remaining_units() > 0 ==> (r matches Some(c)
                && c.handle_view() == f
                && final(budget).remaining_units() == old(budget).remaining_units() - 1),
            final(budget).remaining_units() == apply_op(
                old(budget).remaining_units() as int,
                old(budget).ceiling_units() as int,
                BudgetOp::Acquire,
            ),
    {
        if budget.remaining > 0 {
            budget.remaining = budget.remaining - 1;
            Some(FileCounter { handle: f })
        } else {
            None
        }
    }

    /// Gives the held unit back to the budget — exactly one unit, always —
    /// and hands the wrapped handle to the caller, who may close or reuse it.
    ///
    /// The unit this wrapper holds is one of the outstanding ones, so the
    /// budget cannot already be full.
    pub fn release(self, budget: &mut FileBudget) -> (t: T)
        requires
            old(budget).inv(),
            old(budget).outstanding() > 0,
        ensures
            final(budget).inv(),
            final(budget).ceiling_units() == old(budget).ceiling_units(),
            final(budget).remaining_units() == old(budget).remaining_units() + 1,
            final(budget).remaining_units() == apply_op(
                old(budget).remaining_units() as int,
                old(budget).ceiling_units() as int,
                BudgetOp::Release,
            ),
            t == self.handle_view(),
    {
        budget.remaining = budget.remaining + 1;
        self.handle
    }

    /// Read access to the wrapped handle.
    pub fn get(&self) -> (r: &T)
        ensures
            r == self.handle_view(),
    {
        &self.handle
    }

    /// Write access to the wrapped handle, for seek and read calls.
    pub fn get_mut(&mut self) -> (r: &mut T)
        ensures
            *r == old(self).handle_view(),
            final(self).handle_view() == *final(r),
    {
        &mut self.handle
    }
}

} // verus!
