//! The host side of the callback bridge.
//!
//! A menu item lives in a foreign object system that can carry an integer but
//! not a closure. The bridge therefore keeps every closure in a table of its
//! own and hands the foreign side a `ClosureHandle`, an integer that finds the
//! closure again each time the item is activated. States are never reclaimed:
//! a handle, once minted, stays resolvable for as long as the table lives.

use vstd::prelude::*;
pub use crate::state::CallbackState;

verus! {

/// The raw value that stands for "no closure": what the slot of a proxy object
/// holds before a handle is bound into it. No minted handle has this value.
pub const NULL_HANDLE: u64 = 0;

/// A stable integer token for one `CallbackState`. It owns nothing; it is a
/// lookup key, and means something only to the table that minted it: handles
/// of one table never repeat, handles of two tables may.
#[derive(Clone, Copy, Debug, PartialEq, Eq, Hash, Structural)]
pub struct ClosureHandle {
    pub raw: u64,
}

impl ClosureHandle {
    /// Reads a handle back from the integer that a foreign slot stored.
    pub fn from_raw(raw: u64) -> (h: ClosureHandle)
        ensures
            h.raw == raw,
    {
        ClosureHandle { raw }
    }

    /// The integer to store in a foreign slot.
    pub fn raw(&self) -> (raw: u64)
        ensures
            raw == self.raw,
    {
        self.raw
    }

    /// Whether this is the value of a slot into which nothing was bound yet.
    pub fn is_null(&self) -> (b: bool)
        ensures
            b == (self.raw == NULL_HANDLE),
    {
        self.raw == NULL_HANDLE
    }
}

/// What a `CallbackTable` holds, as mathematics.
///
/// `slots[i]` belongs to the handle whose raw value is `i + 1`. It is
/// `Some(cb)` while the closure rests in the table and `None` while an
/// invocation of it is under way and the closure is out of the table.
/// `runs[i]` is how many times that closure ran. `history` lists, oldest
/// first, the handle of every delivery that began.
pub ghost struct TableView<F> {
    pub slots: Seq<Option<F>>,
    pub runs: Seq<nat>,
    pub history: Seq<ClosureHandle>,
}

/// How many times `k` stands in `hs`.
pub open spec fn occurrences(hs: Seq<ClosureHandle>, k: ClosureHandle) -> nat
    decreases hs.len(),
{
    if hs.len() == 0 {
        0
    } else {
        occurrences(hs.drop_last(), k) + if hs.last() == k {
            1nat
        } else {
            0nat
        }
    }
}

impl<F> TableView<F> {
    /// The table that holds nothing and has invoked nothing.
    pub open spec fn empty() -> Self {
        TableView { slots: Seq::empty(), runs: Seq::empty(), history: Seq::empty() }
    }

    /// Whether `h` was minted by this table.
    pub open spec fn live(self, h: ClosureHandle) -> bool {
        1 <= h.raw <= self.slots.len()
    }

    /// The slot that `h` addresses.
    pub open spec fn slot(self, h: ClosureHandle) -> Option<F>
        recommends
            self.live(h),
    {
        self.slots[h.raw - 1]
    }

    /// Whether `h` is live and its closure rests in the table.
    pub open spec fn resident(self, h: ClosureHandle) -> bool {
        self.live(h) && self.slot(h) is Some
    }

    /// Whether `h` is live and an invocation of its closure is under way.
    pub open spec fn in_flight(self, h: ClosureHandle) -> bool {
        self.live(h) && self.slot(h) is None
    }

    /// The closure that `h` resolves to.
    pub open spec fn closure(self, h: ClosureHandle) -> F
        recommends
            self.resident(h),
    {
        self.slot(h)->0
    }

    /// How many times the closure of `h` ran.
    pub open spec fn times_run(self, h: ClosureHandle) -> nat
        recommends
            self.live(h),
    {
        self.runs[h.raw - 1]
    }

    /// The handle that the next `mint` returns.
    pub open spec fn next_handle(self) -> ClosureHandle {
        ClosureHandle { raw: (self.slots.len() + 1) as u64 }
    }

    /// The table after `cb` was minted: it rests behind the next handle and
    /// has not run.
    pub open spec fn minted(self, cb: F) -> Self {
        TableView {
            slots: self.slots.push(Some(cb)),
            runs: self.runs.push(0),
            history: self.history,
        }
    }

    /// The table after a delivery to `h` began: the closure has left its slot
    /// and the delivery is on record. Nothing begins while the closure is
    /// already out.
    pub open spec fn began(self, h: ClosureHandle) -> Self {
        if self.resident(h) {
            TableView {
                slots: self.slots.update(h.raw - 1, None),
                runs: self.runs,
                history: self.history.push(h),
            }
        } else {
            self
        }
    }

    /// The table after `cb`, which has run `runs` times, was put into the
    /// slot of `h`.
    pub open spec fn ended(self, h: ClosureHandle, cb: F, runs: nat) -> Self {
        TableView {
            slots: self.slots.update(h.raw - 1, Some(cb)),
            runs: self.runs.update(h.raw - 1, runs),
            history: self.history,
        }
    }

    /// The table after one whole delivery to `h`: the delivery is on record,
    /// the closure of `h` ran once more, and everything else is as it was.
    pub open spec fn invoked(self, h: ClosureHandle) -> Self {
        if self.resident(h) {
            TableView {
                slots: self.slots,
                runs: self.runs.update(h.raw - 1, self.times_run(h) + 1),
                history: self.history.push(h),
            }
        } else {
            self
        }
    }

    /// The table after the deliveries `hs`, first to last.
    pub open spec fn invoked_all(self, hs: Seq<ClosureHandle>) -> Self
        decreases hs.len(),
    {
        if hs.len() == 0 {
            self
        } else {
            self.invoked_all(hs.drop_last()).invoked(hs.last())
        }
    }
}

impl<F: FnMut() -> ()> TableView<F> {
    /// Whether a delivery to `h` may have returned: where the closure of `h`
    /// rests in the table, what it promises of a call with no arguments
    /// holds. Nothing is asked where the closure is out of the table, because
    /// such a delivery runs nothing.
    pub open spec fn ran(self, h: ClosureHandle) -> bool {
        self.resident(h) ==> call_ensures(self.closure(h), (), ())
    }

    /// The invariant of a table: its handles fit the foreign slot, every
    /// closure has a count of runs, every resting closure may be called, and
    /// only minted handles were delivered to.
    pub open spec fn wf(self) -> bool {
        &&& self.slots.len() <= usize::MAX
        &&& self.runs.len() == self.slots.len()
        &&& forall|i: int|
            0 <= i < self.slots.len() && (#[trigger] self.slots[i]) is Some ==> call_requires(
                self.slots[i]->0,
                (),
            )
        &&& forall|k: int| 0 <= k < self.history.len() ==> self.live(#[trigger] self.history[k])
    }
}

/// The table of callback states, addressed by handle.
pub struct CallbackTable<F> {
    slots: Vec<Option<CallbackState<F>>>,
    away: Ghost<Map<int, nat>>,
    history: Ghost<Seq<ClosureHandle>>,
}

impl<F> CallbackTable<F> {
    /// The closure in a slot.
    spec fn closure_in(slot: Option<CallbackState<F>>) -> Option<F> {
        match slot {
            Some(state) => Some(state.closure()),
            None => None,
        }
    }

    /// The count of runs of slot `i`: that of the state that rests there, or
    /// the count with which the state left.
    spec fn runs_in(&self, i: int) -> nat {
        match self.slots@[i] {
            Some(state) => state.runs(),
            None => self.away@[i],
        }
    }

    /// What the view says of each slot.
    proof fn lemma_view(&self)
        ensures
            self@.slots.len() == self.slots@.len(),
            self@.runs.len() == self.slots@.len(),
            self@.history == self.history@,
            forall|k: int|
                0 <= k < self.slots@.len() ==> #[trigger] self@.slots[k] == Self::closure_in(
                    self.slots@[k],
                ) && self@.runs[k] == self.runs_in(k),
    {
    }
}

impl<F> View for CallbackTable<F> {
    type V = TableView<F>;

    closed spec fn view(&self) -> TableView<F> {
        TableView {
            slots: Seq::new(self.slots@.len(), |i: int| Self::closure_in(self.slots@[i])),
            runs: Seq::new(self.slots@.len(), |i: int| self.runs_in(i)),
            history: self.history@,
        }
    }
}

impl<F: FnMut() -> ()> CallbackTable<F> {
    /// Whether the table's invariant holds.
    pub open spec fn wf(&self) -> bool {
        self@.wf()
    }

    /// A table without states.
    pub fn new() -> (table: Self)
        ensures
            table.wf(),
            table@ == TableView::<F>::empty(),
    {
        let table = CallbackTable {
            slots: Vec::new(),
            away: Ghost(Map::empty()),
            history: Ghost(Seq::empty()),
        };
        assert(table@.slots =~= Seq::<Option<F>>::empty());
        assert(table@.runs =~= Seq::<nat>::empty());
        table
    }

    /// The number of states minted so far.
    pub fn len(&self) -> (n: usize)
        ensures
            n == self@.slots.len(),
    {
        self.slots.len()
    }

    /// Whether `h` was minted by this table.
    pub fn is_live(&self, h: ClosureHandle) -> (b: bool)
        ensures
            b == self@.live(h),
    {
        1 <= h.raw && h.raw - 1 < self.slots.len() as u64
    }

    /// Whether `h` is live and its closure rests in the table.
    pub fn is_resident(&self, h: ClosureHandle) -> (b: bool)
        ensures
            b == self@.resident(h),
    {
        let n: usize = self.slots.len();
        if 1 <= h.raw && h.raw - 1 < n as u64 {
            let i: usize = (h.raw - 1) as usize;
            proof {
                self.lemma_view();
            }
            self.slots[i].is_some()
        } else {
            false
        }
    }

    /// Takes exclusive ownership of `cb` and returns the handle that finds it
    /// again. The handle is new: no earlier call returned it, and every
    /// earlier handle still resolves as before. The closure does not run.
    pub fn mint(&mut self, cb: F) -> (h: ClosureHandle)
        requires
            old(self).wf(),
            old(self)@.slots.len() < usize::MAX,
            call_requires(cb, ()),
        ensures
            final(self).wf(),
            h == old(self)@.next_handle(),
            final(self)@ == old(self)@.minted(cb),
    {
        let n: usize = self.slots.len();
        self.slots.push(Some(CallbackState::new(cb)));
        let h = ClosureHandle { raw: n as u64 + 1 };
        proof {
            old(self).lemma_view();
            self.lemma_view();
            assert(self@.slots =~= old(self)@.minted(cb).slots);
            assert(self@.runs =~= old(self)@.minted(cb).runs);
        }
        h
    }

    /// Lends out the state that `h` addresses. The handle is not consumed: it
    /// resolves to whatever closure the borrower leaves in the state, with
    /// the runs that the borrower made counted, and the table is well formed
    /// again once that closure may be called.
    pub fn resolve(&mut self, h: ClosureHandle) -> (state: &mut CallbackState<F>)
        requires
            old(self).wf(),
            old(self)@.resident(h),
        ensures
            state.closure() == old(self)@.closure(h),
            state.runs() == old(self)@.times_run(h),
            state.callable(),
            final(self)@ == old(self)@.ended(h, final(state).closure(), final(state).runs()),
    {
        let i: usize = (h.raw - 1) as usize;
        proof {
            self.lemma_view();
        }
        let state = self.slots[i].as_mut().unwrap();
        proof {
            let after = after_borrow(self);
            let expected = old(self)@.ended(h, final(state).closure(), final(state).runs());
            after.lemma_view();
            assert(after@.slots =~= expected.slots);
            assert(after@.runs =~= expected.runs);
        }
        state
    }

    /// Begins a delivery to `h`. While the closure rests in the table it is
    /// handed out, its slot is marked as under way and the delivery goes on
    /// record. While an invocation of it is already under way nothing is
    /// handed out and nothing changes, so a closure is never entered a second
    /// time before it has returned.
    pub fn begin_invocation(&mut self, h: ClosureHandle) -> (state: Option<CallbackState<F>>)
        requires
            old(self).wf(),
            old(self)@.live(h),
        ensures
            final(self).wf(),
            final(self)@ == old(self)@.began(h),
            state is Some <==> old(self)@.resident(h),
            state matches Some(s) ==> {
                &&& s.closure() == old(self)@.closure(h)
                &&& s.runs() == old(self)@.times_run(h)
                &&& s.callable()
            },
    {
        let i: usize = (h.raw - 1) as usize;
        proof {
            self.lemma_view();
            self.away = Ghost(self.away@.insert(i as int, self.runs_in(i as int)));
        }
        let state = self.slots[i].take();
        if state.is_some() {
            self.history = Ghost(self.history@.push(h));
        }
        proof {
            let expected = old(self)@.began(h);
            self.lemma_view();
            assert(self@.slots =~= expected.slots);
            assert(self@.runs =~= expected.runs);
            assert(self@.history =~= expected.history);
        }
        state
    }

    /// Ends the delivery to `h` that is under way: the state goes back into
    /// its slot with the runs that were made meanwhile counted, and the
    /// handle resolves to it again.
    pub fn end_invocation(&mut self, h: ClosureHandle, state: CallbackState<F>)
        requires
            old(self).wf(),
            old(self)@.in_flight(h),
            state.callable(),
        ensures
            final(self).wf(),
            final(self)@ == old(self)@.ended(h, state.closure(), state.runs()),
    {
        let i: usize = (h.raw - 1) as usize;
        self.slots[i] = Some(state);
        proof {
            let expected = old(self)@.ended(h, state.closure(), state.runs());
            old(self).lemma_view();
            self.lemma_view();
            assert(self@.slots =~= expected.slots);
            assert(self@.runs =~= expected.runs);
        }
    }

    /// Delivers to `h`: resolves it and runs its closure exactly once, from
    /// beginning to end. On return, what the closure promises of a call
    /// holds, one more run of it is counted and no other closure has run. The
    /// state stays in place for the next delivery. While an invocation of the
    /// same closure is under way this does nothing.
    pub fn invoke(&mut self, h: ClosureHandle)
        requires
            old(self).wf(),
            old(self)@.live(h),
        ensures
            final(self).wf(),
            final(self)@ == old(self)@.invoked(h),
            old(self)@.ran(h),
    {
        match self.begin_invocation(h) {
            Some(mut state) => {
                state.invoke();
                self.end_invocation(h, state);
                proof {
                    lemma_begin_end_is_one_invocation(old(self)@, h);
                }
            },
            None => {},
        }
    }
}

/// A delivery that begins, runs the closure once and ends with the same
/// closure amounts to one whole delivery: it is on record once, one more run
/// is counted and every slot is as before.
pub proof fn lemma_begin_end_is_one_invocation<F>(table: TableView<F>, h: ClosureHandle)
    requires
        table.resident(h),
    ensures
        table.began(h).in_flight(h),
        table.began(h).ended(h, table.closure(h), table.times_run(h) + 1) == table.invoked(h),
{
    assert(table.began(h).ended(h, table.closure(h), table.times_run(h) + 1).slots
        =~= table.slots);
}

/// A delivery to a closure whose invocation is under way begins nothing: the
/// closure is not entered again before it has returned, and no run is counted.
pub proof fn lemma_no_reentry<F>(table: TableView<F>, h: ClosureHandle)
    requires
        table.in_flight(h),
    ensures
        table.began(h) == table,
        table.invoked(h) == table,
{
}

/// Minting yields a handle that was not live before and resolves to the
/// closure just given, which has not run, and leaves every earlier handle
/// resolving as it did, with the runs it had.
pub proof fn lemma_mint_is_fresh<F>(table: TableView<F>, cb: F)
    requires
        table.slots.len() < usize::MAX,
        table.runs.len() == table.slots.len(),
    ensures
        !table.live(table.next_handle()),
        table.next_handle().raw != NULL_HANDLE,
        table.minted(cb).resident(table.next_handle()),
        table.minted(cb).closure(table.next_handle()) == cb,
        table.minted(cb).times_run(table.next_handle()) == 0,
        forall|h: ClosureHandle|
            table.live(h) ==> table.minted(cb).live(h) && table.minted(cb).slot(h) == table.slot(h)
                && table.minted(cb).times_run(h) == table.times_run(h),
        table.minted(cb).history == table.history,
{
}

/// Two closures minted one after the other get two different handles, and
/// each handle resolves to its own closure.
pub proof fn lemma_two_mints_are_distinct<F>(table: TableView<F>, first: F, second: F)
    requires
        table.slots.len() + 1 < usize::MAX,
    ensures
        ({
            let h1 = table.next_handle();
            let t1 = table.minted(first);
            let h2 = t1.next_handle();
            let t2 = t1.minted(second);
            &&& h1 != h2
            &&& t2.resident(h1)
            &&& t2.resident(h2)
            &&& t2.closure(h1) == first
            &&& t2.closure(h2) == second
        }),
{
}

/// A delivery runs the closure of its own handle once and no other closure.
pub proof fn lemma_delivery_runs_its_own_closure_only<F>(
    table: TableView<F>,
    h: ClosureHandle,
    k: ClosureHandle,
)
    requires
        table.runs.len() == table.slots.len(),
        table.resident(h),
        table.live(k),
    ensures
        table.invoked(h).times_run(k) == table.times_run(k) + if k == h {
            1nat
        } else {
            0nat
        },
        table.invoked(h).slot(k) == table.slot(k),
{
}

/// Deliveries leave every slot as it was and go on record in the order in
/// which they were made, one entry for each, and each closure runs once for
/// every delivery to its handle and never otherwise.
pub proof fn lemma_invocations_in_order<F>(table: TableView<F>, hs: Seq<ClosureHandle>)
    requires
        table.runs.len() == table.slots.len(),
        forall|k: int| 0 <= k < hs.len() ==> table.resident(#[trigger] hs[k]),
    ensures
        table.invoked_all(hs).slots == table.slots,
        table.invoked_all(hs).history == table.history + hs,
        table.invoked_all(hs).runs.len() == table.runs.len(),
        forall|k: ClosureHandle|
            table.live(k) ==> #[trigger] table.invoked_all(hs).times_run(k) == table.times_run(k)
                + occurrences(hs, k),
    decreases hs.len(),
{
    if hs.len() == 0 {
        assert(table.history + hs =~= table.history);
    } else {
        lemma_invocations_in_order(table, hs.drop_last());
        let before = table.invoked_all(hs.drop_last());
        assert(before.resident(hs.last()));
        assert(before.history.push(hs.last()) =~= table.history + hs);
        assert forall|k: ClosureHandle| table.live(k) implies #[trigger] table.invoked_all(
            hs,
        ).times_run(k) == table.times_run(k) + occurrences(hs, k) by {
            assert(before.times_run(k) == table.times_run(k) + occurrences(hs.drop_last(), k));
        }
    }
}

/// `n` copies of one handle hold that handle `n` times and no other.
pub proof fn lemma_occurrences_of_repeats(h: ClosureHandle, k: ClosureHandle, n: nat)
    ensures
        occurrences(Seq::new(n, |i: int| h), k) == if k == h {
            n
        } else {
            0
        },
    decreases n,
{
    if n > 0 {
        lemma_occurrences_of_repeats(h, k, (n - 1) as nat);
        assert(Seq::new(n, |i: int| h).drop_last() =~= Seq::new((n - 1) as nat, |i: int| h));
    }
}

/// `n` deliveries to one handle run its closure exactly `n` times and no
/// other closure at all: `n` entries for it go on record, after everything
/// that was on record before, and its state stays in place.
pub proof fn lemma_n_invocations<F>(table: TableView<F>, h: ClosureHandle, n: nat)
    requires
        table.runs.len() == table.slots.len(),
        table.resident(h),
    ensures
        ({
            let after = table.invoked_all(Seq::new(n, |k: int| h));
            &&& after.slots == table.slots
            &&& after.history == table.history + Seq::new(n, |k: int| h)
            &&& after.resident(h)
            &&& after.times_run(h) == table.times_run(h) + n
            &&& forall|k: ClosureHandle|
                table.live(k) && k != h ==> #[trigger] after.times_run(k) == table.times_run(k)
        }),
{
    let hs = Seq::new(n, |k: int| h);
    lemma_invocations_in_order(table, hs);
    lemma_occurrences_of_repeats(h, h, n);
    let after = table.invoked_all(hs);
    assert forall|k: ClosureHandle| table.live(k) && k != h implies #[trigger] after.times_run(k)
        == table.times_run(k) by {
        lemma_occurrences_of_repeats(h, k, n);
    }
}

} // verus!
