//! What a status object holds, as mathematics, and how each operation changes
//! it. The contracts of the status object are stated over this model, and the
//! laws at the end of the file are proved of it.

use vstd::prelude::*;
use crate::callback::{
    lemma_invocations_in_order, lemma_n_invocations, occurrences, ClosureHandle, TableView,
};
use crate::icon::IconView;
use crate::menu::{ItemAction, ItemView};

verus! {

/// The state of a status object.
pub ghost struct StatusView<F> {
    /// The glyph that was set last.
    pub icon: IconView,
    /// The rows of the menu, top to bottom.
    pub menu: Seq<ItemView>,
    /// The closures of the rows, and the invocations delivered so far.
    pub table: TableView<F>,
    /// Whether the status item was put on screen.
    pub displayed: bool,
    /// Whether the application was asked to terminate.
    pub quit_requested: bool,
}

impl<F> StatusView<F> {
    /// A new status object: the glyph is the text `name`, the menu is empty,
    /// no closure is held and nothing has happened yet.
    pub open spec fn initial(name: Seq<char>) -> Self {
        StatusView {
            icon: IconView::Name(name),
            menu: Seq::empty(),
            table: TableView::empty(),
            displayed: false,
            quit_requested: false,
        }
    }

    /// The same with `icon` in place of the glyph.
    pub open spec fn with_icon(self, icon: IconView) -> Self {
        StatusView { icon, ..self }
    }

    /// The same with one more row at the bottom, titled `title`, that runs
    /// `cb`: the closure gets the next handle and the row targets that handle.
    pub open spec fn with_item(self, title: Seq<char>, cb: F) -> Self {
        StatusView {
            menu: self.menu.push(ItemView::callback(title, self.table.next_handle())),
            table: self.table.minted(cb),
            ..self
        }
    }

    /// The same with a dividing line at the bottom.
    pub open spec fn with_separator(self) -> Self {
        StatusView { menu: self.menu.push(ItemView::separator()), ..self }
    }

    /// The same with one more row at the bottom, titled `label`, that
    /// terminates the application.
    pub open spec fn with_quit_item(self, label: Seq<char>) -> Self {
        StatusView { menu: self.menu.push(ItemView::quit(label)), ..self }
    }

    /// The same with row `index` retitled `title`.
    pub open spec fn with_title_at(self, index: int, title: Seq<char>) -> Self
        recommends
            0 <= index < self.menu.len(),
    {
        StatusView { menu: self.menu.update(index, self.menu[index].retitled(title)), ..self }
    }

    /// The same, put on screen.
    pub open spec fn shown(self) -> Self {
        StatusView { displayed: true, ..self }
    }

    /// The same after the application was asked to terminate.
    pub open spec fn quit(self) -> Self {
        StatusView { quit_requested: true, ..self }
    }

    /// The same after an invocation of `h` began.
    pub open spec fn began(self, h: ClosureHandle) -> Self {
        StatusView { table: self.table.began(h), ..self }
    }

    /// The same after `cb`, which has run `runs` times, was put back into the
    /// slot of `h`.
    pub open spec fn ended(self, h: ClosureHandle, cb: F, runs: nat) -> Self {
        StatusView { table: self.table.ended(h, cb, runs), ..self }
    }

    /// The same after one whole invocation of `h`.
    pub open spec fn invoked(self, h: ClosureHandle) -> Self {
        StatusView { table: self.table.invoked(h), ..self }
    }

    /// What activating row `index` does; nothing where there is no such row.
    pub open spec fn action_at(self, index: int) -> ItemAction {
        if 0 <= index < self.menu.len() {
            self.menu[index].action
        } else {
            ItemAction::Nothing
        }
    }

    /// The same after row `index` was activated: the closure of a row that has
    /// one is invoked once, a quit row asks the application to terminate, and
    /// a dividing line, or a row that does not exist, changes nothing.
    pub open spec fn clicked(self, index: int) -> Self {
        match self.action_at(index) {
            ItemAction::Call(h) => self.invoked(h),
            ItemAction::Terminate => self.quit(),
            ItemAction::Nothing => self,
        }
    }

    /// The same after the rows `clicks` were activated, first to last.
    pub open spec fn clicked_all(self, clicks: Seq<int>) -> Self
        decreases clicks.len(),
    {
        if clicks.len() == 0 {
            self
        } else {
            self.clicked_all(clicks.drop_last()).clicked(clicks.last())
        }
    }

    /// Whether some row targets `h`.
    pub open spec fn targeted(self, h: ClosureHandle) -> bool {
        exists|i: int| 0 <= i < self.menu.len() && (#[trigger] self.menu[i]).action == ItemAction::Call(h)
    }

    /// Every row that runs a closure targets a live handle of its own, later
    /// rows target later handles, and every live handle belongs to a row: rows
    /// that run closures and callback states correspond one to one. The click
    /// target of every such row is an instance of the proxy class.
    pub open spec fn rows_match_states(self) -> bool {
        &&& forall|i: int|
            0 <= i < self.menu.len() ==> ((#[trigger] self.menu[i]).action matches ItemAction::Call(
                h,
            ) ==> self.table.live(h))
        &&& forall|i: int, j: int|
            0 <= i < j < self.menu.len() ==> ((#[trigger] self.menu[i]).action matches ItemAction::Call(
                h,
            ) ==> ((#[trigger] self.menu[j]).action matches ItemAction::Call(k) ==> h.raw < k.raw))
        &&& forall|h: ClosureHandle| #[trigger] self.table.live(h) ==> self.targeted(h)
        &&& forall|i: int| 0 <= i < self.menu.len() ==> (#[trigger] self.menu[i]).targets_proxy()
    }
}

impl<F: FnMut() -> ()> StatusView<F> {
    /// The invariant of a status object.
    pub open spec fn wf(self) -> bool {
        &&& self.table.wf()
        &&& self.rows_match_states()
    }

    /// What keeps a status object well formed. `after` is well formed where
    /// its table is, every row of `self` is still there and does what it did,
    /// and at most one row came after them: a row that runs the closure
    /// behind the one handle that is new, or a row that runs no closure, in
    /// which case no handle is new.
    pub proof fn lemma_wf_carries_over(self, after: StatusView<F>)
        requires
            self.wf(),
            after.table.wf(),
            self.menu.len() <= after.menu.len() <= self.menu.len() + 1,
            forall|i: int|
                0 <= i < self.menu.len() ==> (#[trigger] after.menu[i]).action
                    == self.menu[i].action && after.menu[i].target == self.menu[i].target,
            after.menu.len() == self.menu.len() + 1 && after.menu.last().action is Call ==> {
                &&& after.table.slots.len() == self.table.slots.len() + 1
                &&& after.menu.last().action == ItemAction::Call(self.table.next_handle())
                &&& after.menu.last().targets_proxy()
            },
            !(after.menu.len() == self.menu.len() + 1 && after.menu.last().action is Call)
                ==> after.table.slots.len() == self.table.slots.len(),
        ensures
            after.wf(),
    {
        let last = self.menu.len() as int;
        assert forall|i: int| 0 <= i < after.menu.len() implies (
        #[trigger] after.menu[i]).targets_proxy() by {
            if i < last {
                assert(self.menu[i].targets_proxy());
            }
        }
        assert forall|i: int| 0 <= i < after.menu.len() implies ((#[trigger] after.menu[i]).action matches ItemAction::Call(
            h,
        ) ==> after.table.live(h)) by {
            if i < last {
                assert(after.menu[i].action == self.menu[i].action);
            }
        }
        assert forall|i: int, j: int| 0 <= i < j < after.menu.len() implies ((
        #[trigger] after.menu[i]).action matches ItemAction::Call(h) ==> ((
        #[trigger] after.menu[j]).action matches ItemAction::Call(k) ==> h.raw < k.raw)) by {
            assert(after.menu[i].action == self.menu[i].action);
            if j < last {
                assert(after.menu[j].action == self.menu[j].action);
            }
        }
        assert forall|h: ClosureHandle| #[trigger] after.table.live(h) implies after.targeted(
            h,
        ) by {
            if self.table.live(h) {
                assert(self.targeted(h));
                let i = choose|i: int|
                    0 <= i < self.menu.len() && (#[trigger] self.menu[i]).action
                        == ItemAction::Call(h);
                assert(after.menu[i].action == self.menu[i].action);
            } else {
                assert(h == self.table.next_handle());
                assert(after.menu[last].action == ItemAction::Call(h));
            }
        }
    }

    /// Adding a row that runs a closure keeps the status object well formed.
    pub proof fn lemma_with_item_wf(self, title: Seq<char>, cb: F)
        requires
            self.wf(),
            self.table.slots.len() < usize::MAX,
            call_requires(cb, ()),
        ensures
            self.with_item(title, cb).wf(),
    {
        self.lemma_wf_carries_over(self.with_item(title, cb));
    }

    /// Adding a row that runs no closure keeps the status object well formed.
    pub proof fn lemma_with_plain_row_wf(self, row: ItemView)
        requires
            self.wf(),
            !(row.action is Call),
        ensures
            (StatusView { menu: self.menu.push(row), ..self }).wf(),
    {
        self.lemma_wf_carries_over(StatusView { menu: self.menu.push(row), ..self });
    }

    /// Retitling a row keeps the status object well formed.
    pub proof fn lemma_with_title_at_wf(self, index: int, title: Seq<char>)
        requires
            self.wf(),
            0 <= index < self.menu.len(),
        ensures
            self.with_title_at(index, title).wf(),
    {
        self.lemma_wf_carries_over(self.with_title_at(index, title));
    }

    /// Whatever happens to the closures of live handles, as long as the table
    /// stays well formed and as long as it was, the status object stays well
    /// formed.
    pub proof fn lemma_same_handles_wf(self, table: TableView<F>)
        requires
            self.wf(),
            table.wf(),
            table.slots.len() == self.table.slots.len(),
        ensures
            (StatusView { table, ..self }).wf(),
    {
        self.lemma_wf_carries_over(StatusView { table, ..self });
    }
}

/// Setting the glyph forgets the glyph that was set before: of two glyphs set
/// one after the other only the second is left, and nothing else changes.
pub proof fn lemma_last_icon_wins<F>(status: StatusView<F>, first: IconView, second: IconView)
    ensures
        status.with_icon(first).with_icon(second) == status.with_icon(second),
        status.with_icon(second).icon == second,
        status.with_icon(second).menu == status.menu,
        status.with_icon(second).table == status.table,
{
}

/// A text, then the bytes of an image, then a text again: the status object is
/// as if only the last text had been set.
pub proof fn lemma_text_bytes_text<F>(
    status: StatusView<F>,
    text: Seq<char>,
    bytes: Seq<u8>,
    again: Seq<char>,
)
    ensures
        status.with_icon(IconView::Name(text)).with_icon(IconView::Image(bytes)).with_icon(
            IconView::Name(again),
        ) == status.with_icon(IconView::Name(again)),
{
}

/// Rows come in the order in which they were added. After a row for `a`, a row
/// for `b`, a dividing line and a row for `c` the menu ends in exactly these
/// four rows, each closure behind a handle of its own, and activating the
/// dividing line between `b` and `c` does nothing.
pub proof fn lemma_rows_in_order_of_addition<F: FnMut() -> ()>(
    status: StatusView<F>,
    a: Seq<char>,
    run_a: F,
    b: Seq<char>,
    run_b: F,
    c: Seq<char>,
    run_c: F,
)
    requires
        status.wf(),
        status.table.slots.len() + 2 < usize::MAX,
        call_requires(run_a, ()),
        call_requires(run_b, ()),
        call_requires(run_c, ()),
    ensures
        ({
            let n = status.table.slots.len();
            let rows = status.menu.len() as int;
            let after = status.with_item(a, run_a).with_item(b, run_b).with_separator().with_item(
                c,
                run_c,
            );
            &&& after.wf()
            &&& after.menu == status.menu + seq![
                ItemView::callback(a, ClosureHandle { raw: (n + 1) as u64 }),
                ItemView::callback(b, ClosureHandle { raw: (n + 2) as u64 }),
                ItemView::separator(),
                ItemView::callback(c, ClosureHandle { raw: (n + 3) as u64 }),
            ]
            &&& after.table.closure(ClosureHandle { raw: (n + 1) as u64 }) == run_a
            &&& after.table.closure(ClosureHandle { raw: (n + 2) as u64 }) == run_b
            &&& after.table.closure(ClosureHandle { raw: (n + 3) as u64 }) == run_c
            &&& after.action_at(rows + 2) == ItemAction::Nothing
            &&& after.clicked(rows + 2) == after
        }),
{
    let s1 = status.with_item(a, run_a);
    status.lemma_with_item_wf(a, run_a);
    let s2 = s1.with_item(b, run_b);
    s1.lemma_with_item_wf(b, run_b);
    let s3 = s2.with_separator();
    s2.lemma_with_plain_row_wf(ItemView::separator());
    let s4 = s3.with_item(c, run_c);
    s3.lemma_with_item_wf(c, run_c);
    let n = status.table.slots.len();
    assert(s4.menu =~= status.menu + seq![
        ItemView::callback(a, ClosureHandle { raw: (n + 1) as u64 }),
        ItemView::callback(b, ClosureHandle { raw: (n + 2) as u64 }),
        ItemView::separator(),
        ItemView::callback(c, ClosureHandle { raw: (n + 3) as u64 }),
    ]);
}

/// Adding a row runs no closure and keeps it: no delivery goes on record, the
/// closure rests in the table behind the handle that the row targets and has
/// not run, and every closure that was there before has run as often as it
/// had.
pub proof fn lemma_adding_a_row_runs_nothing<F>(status: StatusView<F>, title: Seq<char>, cb: F)
    requires
        status.table.slots.len() < usize::MAX,
        status.table.runs.len() == status.table.slots.len(),
    ensures
        ({
            let h = status.table.next_handle();
            let after = status.with_item(title, cb);
            &&& after.table.history == status.table.history
            &&& after.table.resident(h)
            &&& after.table.closure(h) == cb
            &&& after.table.times_run(h) == 0
            &&& after.menu.last() == ItemView::callback(title, h)
            &&& forall|k: ClosureHandle|
                status.table.live(k) ==> after.table.slot(k) == status.table.slot(k)
                    && after.table.times_run(k) == status.table.times_run(k)
        }),
{
}

/// Only a delivery runs a closure. Setting the glyph, adding a dividing line
/// or a quit row, retitling a row, putting the status item on screen and
/// asking the application to terminate leave the table as it was: every
/// closure in its place, with the runs it had, and nothing more on record.
pub proof fn lemma_only_deliveries_run_closures<F>(
    status: StatusView<F>,
    icon: IconView,
    label: Seq<char>,
    index: int,
)
    ensures
        status.with_icon(icon).table == status.table,
        status.with_separator().table == status.table,
        status.with_quit_item(label).table == status.table,
        status.with_title_at(index, label).table == status.table,
        status.shown().table == status.table,
        status.quit().table == status.table,
{
}

/// Asking the application to terminate runs no closure: every closure has run
/// as often as it had, nothing goes on record, every closure stays where it
/// was, and the menu and the glyph are untouched.
pub proof fn lemma_quit_runs_no_closure<F>(status: StatusView<F>)
    ensures
        status.quit().quit_requested,
        status.quit().table == status.table,
        forall|h: ClosureHandle|
            #[trigger] status.quit().table.times_run(h) == status.table.times_run(h),
        status.quit().menu == status.menu,
        status.quit().icon == status.icon,
{
}

/// Activating a quit row asks the application to terminate and runs no
/// closure either.
pub proof fn lemma_quit_row_runs_no_closure<F>(status: StatusView<F>, index: int)
    requires
        status.action_at(index) == ItemAction::Terminate,
    ensures
        status.clicked(index) == status.quit(),
        status.clicked(index).table == status.table,
        forall|h: ClosureHandle|
            #[trigger] status.clicked(index).table.times_run(h) == status.table.times_run(h),
{
}

/// The handles that the rows `clicks` target, in the same order.
pub open spec fn targets<F>(status: StatusView<F>, clicks: Seq<int>) -> Seq<ClosureHandle> {
    Seq::new(clicks.len(), |k: int| status.action_at(clicks[k])->Call_0)
}

/// Clicks on rows that run closures are deliveries to the handles that the
/// rows target, in the order of the clicks, and change nothing but the table.
pub proof fn lemma_clicks_are_deliveries<F>(status: StatusView<F>, clicks: Seq<int>)
    requires
        forall|k: int|
            0 <= k < clicks.len() ==> (#[trigger] status.action_at(clicks[k])) is Call,
    ensures
        status.clicked_all(clicks) == (StatusView {
            table: status.table.invoked_all(targets(status, clicks)),
            ..status
        }),
    decreases clicks.len(),
{
    if clicks.len() > 0 {
        let earlier = clicks.drop_last();
        assert forall|k: int| 0 <= k < earlier.len() implies (#[trigger] status.action_at(
            earlier[k],
        )) is Call by {
            assert(earlier[k] == clicks[k]);
        }
        lemma_clicks_are_deliveries(status, earlier);
        let before = status.clicked_all(earlier);
        let last = clicks.last();
        assert(status.action_at(clicks[clicks.len() - 1]) is Call);
        assert(before.action_at(last) == status.action_at(last));
        assert(targets(status, clicks).drop_last() =~= targets(status, earlier));
        assert(targets(status, clicks).last() == status.action_at(last)->Call_0);
    }
}

/// Clicks on rows that run closures invoke those closures in the order in
/// which the clicks were delivered: each closure runs once for every click
/// on its row and never otherwise, the clicks go on record in order, and the
/// menu and every callback state stay in place.
pub proof fn lemma_clicks_invoke_in_order<F>(status: StatusView<F>, clicks: Seq<int>)
    requires
        status.table.runs.len() == status.table.slots.len(),
        forall|k: int|
            0 <= k < clicks.len() ==> (#[trigger] status.action_at(clicks[k])) is Call
                && status.table.resident(status.action_at(clicks[k])->Call_0),
    ensures
        status.clicked_all(clicks).table.history == status.table.history + targets(status, clicks),
        status.clicked_all(clicks).table.slots == status.table.slots,
        forall|h: ClosureHandle|
            status.table.live(h) ==> #[trigger] status.clicked_all(clicks).table.times_run(h)
                == status.table.times_run(h) + occurrences(targets(status, clicks), h),
        status.clicked_all(clicks)
            == (StatusView { table: status.clicked_all(clicks).table, ..status }),
{
    lemma_clicks_are_deliveries(status, clicks);
    let hs = targets(status, clicks);
    assert forall|k: int| 0 <= k < hs.len() implies status.table.resident(#[trigger] hs[k]) by {
        assert(status.action_at(clicks[k]) is Call);
    }
    lemma_invocations_in_order(status.table, hs);
}

/// `n` clicks on one row that runs a closure run that closure exactly `n`
/// times and no other closure at all: `n` entries for its handle go on
/// record, after all that was on record before, and the closure stays in
/// place for the next click.
pub proof fn lemma_n_clicks_invoke_n_times<F>(status: StatusView<F>, index: int, n: nat)
    requires
        status.table.runs.len() == status.table.slots.len(),
        status.action_at(index) is Call,
        status.table.resident(status.action_at(index)->Call_0),
    ensures
        ({
            let h = status.action_at(index)->Call_0;
            let after = status.clicked_all(Seq::new(n, |k: int| index));
            &&& after.table.times_run(h) == status.table.times_run(h) + n
            &&& forall|k: ClosureHandle|
                status.table.live(k) && k != h ==> #[trigger] after.table.times_run(k)
                    == status.table.times_run(k)
            &&& after.table.history == status.table.history + Seq::new(n, |k: int| h)
            &&& after.table.slots == status.table.slots
            &&& after.table.resident(h)
            &&& after.menu == status.menu
        }),
{
    let clicks = Seq::new(n, |k: int| index);
    let h = status.action_at(index)->Call_0;
    assert forall|k: int| 0 <= k < clicks.len() implies (#[trigger] status.action_at(
        clicks[k],
    )) is Call && status.table.resident(status.action_at(clicks[k])->Call_0) by {
        assert(clicks[k] == index);
    }
    lemma_clicks_invoke_in_order(status, clicks);
    lemma_clicks_are_deliveries(status, clicks);
    let hs = Seq::new(n, |k: int| h);
    assert(targets(status, clicks) =~= hs);
    lemma_n_invocations(status.table, h, n);
    assert(status.clicked_all(clicks).table == status.table.invoked_all(hs));
}

} // verus!
