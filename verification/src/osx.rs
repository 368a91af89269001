//! The status object: glyph, menu and callback bridge under one roof.

use vstd::prelude::*;
use crate::callback::{CallbackState, CallbackTable, ClosureHandle};
pub use crate::icon::Icon;
use crate::icon::{presentation, IconError, IconView, Presentation};
use crate::menu::{ItemAction, ItemView, Menu};
use crate::proxy::{
    answer, proxy_class, requested, trampoline, Binding, Callback, ClassRegistry, ClassRef,
};
use crate::status::StatusView;
use crate::Barfly;

verus! {

/// An icon in the status bar with a dropdown menu, together with the closures
/// that the rows of the menu run.
pub struct OsxBarfly<F> {
    icon: Icon,
    menu: Menu,
    table: CallbackTable<F>,
    displayed: bool,
    quit_requested: bool,
}

impl<F> View for OsxBarfly<F> {
    type V = StatusView<F>;

    closed spec fn view(&self) -> StatusView<F> {
        StatusView {
            icon: self.icon@,
            menu: self.menu@,
            table: self.table@,
            displayed: self.displayed,
            quit_requested: self.quit_requested,
        }
    }
}

impl<F: FnMut() -> ()> Barfly for OsxBarfly<F> {
    type Closure = F;

    open spec fn model(&self) -> StatusView<F> {
        self@
    }

    fn new(name: &str) -> (status: Self) {
        OsxBarfly::new(name)
    }

    fn set_icon_from_text(&mut self, text: &str) {
        OsxBarfly::set_icon_from_text(self, text)
    }

    fn set_icon_from_buffer(&mut self, buffer: Vec<u8>) {
        OsxBarfly::set_icon_from_buffer(self, buffer)
    }

    fn set_icon_from_file(&mut self, path: &str, contents: Option<Vec<u8>>) -> (loaded: Result<
        (),
        IconError,
    >) {
        OsxBarfly::set_icon_from_file(self, path, contents)
    }

    fn add_item(&mut self, menu_item: &str, cbs: F) {
        OsxBarfly::add_item(self, menu_item, cbs)
    }

    fn add_menu_separator(&mut self) {
        OsxBarfly::add_menu_separator(self)
    }

    fn add_quit_item(&mut self, label: &str) {
        OsxBarfly::add_quit_item(self, label)
    }

    fn set_title_at_index(&mut self, index: i32, title: &str) {
        OsxBarfly::set_title_at_index(self, index, title)
    }

    fn display(&mut self, decoded: bool) -> (shown: Presentation) {
        OsxBarfly::display(self, decoded)
    }

    fn quit(&mut self) {
        OsxBarfly::quit(self)
    }
}

impl<F: FnMut() -> ()> OsxBarfly<F> {
    /// A status object whose glyph is the text `name` and whose menu is empty.
    pub fn new(name: &str) -> (status: Self)
        ensures
            status@.wf(),
            status@ == StatusView::<F>::initial(name@),
    {
        OsxBarfly {
            icon: Icon::Name(name.to_owned()),
            menu: Menu::new(),
            table: CallbackTable::new(),
            displayed: false,
            quit_requested: false,
        }
    }

    /// Makes the text `text` the glyph, in place of whatever was set before.
    pub fn set_icon_from_text(&mut self, text: &str)
        requires
            old(self)@.wf(),
        ensures
            final(self)@.wf(),
            final(self)@ == old(self)@.with_icon(IconView::Name(text@)),
    {
        self.icon = Icon::Name(text.to_owned());
    }

    /// Makes the image encoded in `buffer` the glyph, in place of whatever was
    /// set before.
    pub fn set_icon_from_buffer(&mut self, buffer: Vec<u8>)
        requires
            old(self)@.wf(),
        ensures
            final(self)@.wf(),
            final(self)@ == old(self)@.with_icon(IconView::Image(buffer@)),
    {
        self.icon = Icon::Image(buffer);
    }

    /// Makes the image in the file at `path` the glyph. `contents` is what
    /// reading the file gave: its bytes, or nothing if it could not be read.
    /// In that case the glyph stays as it was and the failure is returned.
    pub fn set_icon_from_file(&mut self, path: &str, contents: Option<Vec<u8>>) -> (loaded: Result<
        (),
        IconError,
    >)
        requires
            old(self)@.wf(),
        ensures
            final(self)@.wf(),
            match contents {
                Some(bytes) => loaded is Ok && final(self)@ == old(self)@.with_icon(
                    IconView::Image(bytes@),
                ),
                None => final(self)@ == old(self)@ && (loaded matches Err(
                    IconError::Unreadable(p),
                ) && p@ == path@),
            },
    {
        match contents {
            Some(bytes) => {
                self.set_icon_from_buffer(bytes);
                Ok(())
            },
            None => Err(IconError::Unreadable(path.to_owned())),
        }
    }

    /// Appends a row titled `menu_item` that runs `cbs` each time it is
    /// activated.
    pub fn add_item(&mut self, menu_item: &str, cbs: F)
        requires
            old(self)@.wf(),
            old(self)@.table.slots.len() < usize::MAX,
            call_requires(cbs, ()),
        ensures
            final(self)@.wf(),
            final(self)@ == old(self)@.with_item(menu_item@, cbs),
    {
        proof {
            self@.lemma_with_item_wf(menu_item@, cbs);
        }
        let handle = self.table.mint(cbs);
        let target = Callback::instantiate_and_bind(ClassRef::proxy(), handle);
        self.menu.add_item(menu_item, target);
    }

    /// Appends a dividing line.
    pub fn add_menu_separator(&mut self)
        requires
            old(self)@.wf(),
        ensures
            final(self)@.wf(),
            final(self)@ == old(self)@.with_separator(),
    {
        proof {
            self@.lemma_with_plain_row_wf(ItemView::separator());
        }
        self.menu.add_separator();
    }

    /// Appends a row titled `label` that terminates the application.
    pub fn add_quit_item(&mut self, label: &str)
        requires
            old(self)@.wf(),
        ensures
            final(self)@.wf(),
            final(self)@ == old(self)@.with_quit_item(label@),
    {
        proof {
            self@.lemma_with_plain_row_wf(ItemView::quit(label@));
        }
        self.menu.add_quit_item(label);
    }

    /// Gives the row at `index`, counted from the top and from 0, the title
    /// `title`.
    pub fn set_title_at_index(&mut self, index: i32, title: &str)
        requires
            old(self)@.wf(),
            0 <= index < old(self)@.menu.len(),
        ensures
            final(self)@.wf(),
            final(self)@ == old(self)@.with_title_at(index as int, title@),
    {
        proof {
            self@.lemma_with_title_at_wf(index as int, title@);
        }
        self.menu.set_title_at(index as usize, title);
    }

    /// Puts the status item on screen and says how: `decoded` tells whether
    /// the toolkit could decode the bytes of an image glyph.
    pub fn display(&mut self, decoded: bool) -> (shown: Presentation)
        requires
            old(self)@.wf(),
        ensures
            final(self)@.wf(),
            final(self)@ == old(self)@.shown(),
            shown@ == presentation(old(self)@.icon, decoded),
    {
        self.displayed = true;
        self.icon.present(decoded)
    }

    /// Asks the application to terminate. No closure runs.
    pub fn quit(&mut self)
        requires
            old(self)@.wf(),
        ensures
            final(self)@.wf(),
            final(self)@ == old(self)@.quit(),
    {
        self.quit_requested = true;
    }

    /// The glyph that was set last.
    pub fn icon(&self) -> (icon: &Icon)
        ensures
            icon@ == self@.icon,
    {
        &self.icon
    }

    /// The menu.
    pub fn menu(&self) -> (menu: &Menu)
        ensures
            menu@ == self@.menu,
    {
        &self.menu
    }

    /// The closures of the rows.
    pub fn callbacks(&self) -> (table: &CallbackTable<F>)
        ensures
            table@ == self@.table,
    {
        &self.table
    }

    /// Whether the status item was put on screen.
    pub fn is_displayed(&self) -> (b: bool)
        ensures
            b == self@.displayed,
    {
        self.displayed
    }

    /// Whether the application was asked to terminate.
    pub fn is_quit_requested(&self) -> (b: bool)
        ensures
            b == self@.quit_requested,
    {
        self.quit_requested
    }

    /// Appends a row titled `menu_item` that runs `cbs`, as `add_item` does,
    /// and says what the foreign object system has to do for it. `registry`
    /// is what that system knows of the proxy class: the answer says whether
    /// the class has to be declared first, and which proxy object becomes the
    /// click target of the row.
    pub fn bind_item(&mut self, registry: &mut ClassRegistry, menu_item: &str, cbs: F) -> (binding:
        Binding)
        requires
            old(self)@.wf(),
            old(self)@.table.slots.len() < usize::MAX,
            call_requires(cbs, ()),
        ensures
            final(self)@.wf(),
            final(self)@ == old(self)@.with_item(menu_item@, cbs),
            final(registry)@ == requested(old(registry)@),
            binding.registration == answer(old(registry)@),
            binding.registration.class_ref() == proxy_class(),
            binding.target.class_of() == proxy_class(),
            binding.target.handle() == old(self)@.table.next_handle(),
    {
        proof {
            self@.lemma_with_item_wf(menu_item@, cbs);
        }
        let binding = Callback::from(&mut self.table, registry, cbs);
        self.menu.add_item(menu_item, binding.target);
        binding
    }

    /// Delivers the activation of a row to the closure behind the proxy
    /// object `this`: the closure runs once and stays in place.
    pub fn trampoline(&mut self, this: &Callback)
        requires
            old(self)@.wf(),
            old(self)@.table.live(this.handle()),
        ensures
            final(self)@.wf(),
            final(self)@ == old(self)@.invoked(this.handle()),
            old(self)@.table.ran(this.handle()),
    {
        proof {
            self@.lemma_same_handles_wf(self@.table.invoked(this.handle()));
        }
        trampoline(&mut self.table, this);
    }

    /// Begins an invocation of `h` for a caller that runs the closure itself:
    /// hands out the state while it rests in the table, and nothing while an
    /// invocation of it is under way.
    pub fn begin_invocation(&mut self, h: ClosureHandle) -> (state: Option<CallbackState<F>>)
        requires
            old(self)@.wf(),
            old(self)@.table.live(h),
        ensures
            final(self)@.wf(),
            final(self)@ == old(self)@.began(h),
            state is Some <==> old(self)@.table.resident(h),
            state matches Some(s) ==> {
                &&& s.closure() == old(self)@.table.closure(h)
                &&& s.runs() == old(self)@.table.times_run(h)
                &&& s.callable()
            },
    {
        proof {
            self@.lemma_same_handles_wf(self@.table.began(h));
        }
        self.table.begin_invocation(h)
    }

    /// Ends the invocation of `h` that is under way: the state goes back into
    /// the table.
    pub fn end_invocation(&mut self, h: ClosureHandle, state: CallbackState<F>)
        requires
            old(self)@.wf(),
            old(self)@.table.in_flight(h),
            state.callable(),
        ensures
            final(self)@.wf(),
            final(self)@ == old(self)@.ended(h, state.closure(), state.runs()),
    {
        proof {
            self@.lemma_same_handles_wf(self@.table.ended(h, state.closure(), state.runs()));
        }
        self.table.end_invocation(h, state);
    }

    /// Activates row `index` as a click on it does, and says what the row
    /// does: the closure of a row that has one runs once, a quit row asks the
    /// application to terminate, and a dividing line, or a row that does not
    /// exist, does nothing.
    pub fn click(&mut self, index: usize) -> (action: ItemAction)
        requires
            old(self)@.wf(),
        ensures
            final(self)@.wf(),
            final(self)@ == old(self)@.clicked(index as int),
            action == old(self)@.action_at(index as int),
            action matches ItemAction::Call(h) ==> old(self)@.table.ran(h),
    {
        if index >= self.menu.len() {
            return ItemAction::Nothing;
        }
        let action = self.menu.action_at(index);
        match action {
            ItemAction::Call(h) => {
                proof {
                    self@.lemma_same_handles_wf(self@.table.invoked(h));
                }
                self.table.invoke(h);
            },
            ItemAction::Terminate => {
                self.quit();
            },
            ItemAction::Nothing => {},
        }
        action
    }
}

} // verus!
