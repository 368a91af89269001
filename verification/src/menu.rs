//! The dropdown menu: rows in the order in which they were added.

use vstd::prelude::*;
use crate::callback::ClosureHandle;
use crate::proxy::{proxy_class, Callback, ClassRef};

verus! {

/// What activating a row does.
#[derive(Clone, Copy, Debug, PartialEq, Eq, Structural)]
pub enum ItemAction {
    /// Runs the closure behind this handle.
    Call(ClosureHandle),
    /// Terminates the application.
    Terminate,
    /// Nothing: the row cannot be activated.
    Nothing,
}

/// What kind of row a menu item is.
#[derive(Clone, Copy, Debug)]
pub enum ItemKind {
    /// A row that runs a closure. Its click target is the proxy object that
    /// carries the closure's handle.
    Action(Callback),
    /// A dividing line.
    Separator,
    /// A row that terminates the application.
    Quit,
}

impl ItemKind {
    /// What activating a row of this kind does.
    pub open spec fn action(self) -> ItemAction {
        match self {
            ItemKind::Action(target) => ItemAction::Call(target.handle()),
            ItemKind::Separator => ItemAction::Nothing,
            ItemKind::Quit => ItemAction::Terminate,
        }
    }

    /// The class of the click target of a row of this kind; none where the
    /// row has no target of its own.
    pub open spec fn target_class(self) -> Option<ClassRef> {
        match self {
            ItemKind::Action(target) => Some(target.class_of()),
            ItemKind::Separator => None,
            ItemKind::Quit => None,
        }
    }
}

/// One row of the menu.
#[derive(Debug)]
pub struct MenuItem {
    /// The label of the row.
    pub title: String,
    /// The key that activates the row from the keyboard; empty for none.
    pub key_equivalent: String,
    /// What kind of row it is.
    pub kind: ItemKind,
}

/// A `MenuItem` as mathematics.
pub ghost struct ItemView {
    pub title: Seq<char>,
    pub key_equivalent: Seq<char>,
    pub action: ItemAction,
    /// The class of the proxy object that is the click target of the row;
    /// none where the row has no target of its own.
    pub target: Option<ClassRef>,
}

impl ItemView {
    /// A row titled `title` whose click target is an instance of `class` that
    /// carries `handle`.
    pub open spec fn targeting(title: Seq<char>, handle: ClosureHandle, class: ClassRef) -> ItemView {
        ItemView {
            title,
            key_equivalent: Seq::empty(),
            action: ItemAction::Call(handle),
            target: Some(class),
        }
    }

    /// A row titled `title` that runs the closure behind `handle`: its click
    /// target is an instance of the proxy class.
    pub open spec fn callback(title: Seq<char>, handle: ClosureHandle) -> ItemView {
        ItemView::targeting(title, handle, proxy_class())
    }

    /// A dividing line.
    pub open spec fn separator() -> ItemView {
        ItemView {
            title: Seq::empty(),
            key_equivalent: Seq::empty(),
            action: ItemAction::Nothing,
            target: None,
        }
    }

    /// A row titled `label` that terminates the application.
    pub open spec fn quit(label: Seq<char>) -> ItemView {
        ItemView {
            title: label,
            key_equivalent: Seq::empty(),
            action: ItemAction::Terminate,
            target: None,
        }
    }

    /// This row under the new title `title`.
    pub open spec fn retitled(self, title: Seq<char>) -> ItemView {
        ItemView { title, ..self }
    }

    /// Whether the row, if it runs a closure, has an instance of the proxy
    /// class for its click target.
    pub open spec fn targets_proxy(self) -> bool {
        self.action is Call ==> self.target == Some(proxy_class())
    }
}

impl View for MenuItem {
    type V = ItemView;

    open spec fn view(&self) -> ItemView {
        ItemView {
            title: self.title@,
            key_equivalent: self.key_equivalent@,
            action: self.kind.action(),
            target: self.kind.target_class(),
        }
    }
}

/// The rows of a menu, top to bottom.
pub struct Menu {
    items: Vec<MenuItem>,
}

impl View for Menu {
    type V = Seq<ItemView>;

    closed spec fn view(&self) -> Seq<ItemView> {
        Seq::new(self.items@.len(), |i: int| self.items@[i]@)
    }
}

impl Menu {
    /// A menu without rows.
    pub fn new() -> (menu: Self)
        ensures
            menu@ == Seq::<ItemView>::empty(),
    {
        let menu = Menu { items: Vec::new() };
        assert(menu@ =~= Seq::<ItemView>::empty());
        menu
    }

    /// The number of rows.
    pub fn len(&self) -> (n: usize)
        ensures
            n == self@.len(),
    {
        self.items.len()
    }

    /// Appends a row titled `title` whose click target is `target`.
    pub fn add_item(&mut self, title: &str, target: Callback)
        ensures
            final(self)@ == old(self)@.push(
                ItemView::targeting(title@, target.handle(), target.class_of()),
            ),
    {
        let item = MenuItem {
            title: title.to_owned(),
            key_equivalent: String::new(),
            kind: ItemKind::Action(target),
        };
        self.items.push(item);
        assert(self@ =~= old(self)@.push(
            ItemView::targeting(title@, target.handle(), target.class_of()),
        ));
    }

    /// Appends a dividing line.
    pub fn add_separator(&mut self)
        ensures
            final(self)@ == old(self)@.push(ItemView::separator()),
    {
        let item = MenuItem {
            title: String::new(),
            key_equivalent: String::new(),
            kind: ItemKind::Separator,
        };
        self.items.push(item);
        assert(self@ =~= old(self)@.push(ItemView::separator()));
    }

    /// Appends a row titled `label` that terminates the application.
    pub fn add_quit_item(&mut self, label: &str)
        ensures
            final(self)@ == old(self)@.push(ItemView::quit(label@)),
    {
        let item = MenuItem {
            title: label.to_owned(),
            key_equivalent: String::new(),
            kind: ItemKind::Quit,
        };
        self.items.push(item);
        assert(self@ =~= old(self)@.push(ItemView::quit(label@)));
    }

    /// Gives row `index` the title `title` and leaves everything else alone.
    pub fn set_title_at(&mut self, index: usize, title: &str)
        requires
            index < old(self)@.len(),
        ensures
            final(self)@ == old(self)@.update(
                index as int,
                old(self)@[index as int].retitled(title@),
            ),
    {
        self.items[index].title = title.to_owned();
        assert(self@ =~= old(self)@.update(
            index as int,
            old(self)@[index as int].retitled(title@),
        ));
    }

    /// Row `index`.
    pub fn item(&self, index: usize) -> (item: &MenuItem)
        requires
            index < self@.len(),
        ensures
            item@ == self@[index as int],
    {
        &self.items[index]
    }

    /// What activating row `index` does.
    pub fn action_at(&self, index: usize) -> (action: ItemAction)
        requires
            index < self@.len(),
        ensures
            action == self@[index as int].action,
    {
        match self.items[index].kind {
            ItemKind::Action(target) => ItemAction::Call(target.bound_handle()),
            ItemKind::Separator => ItemAction::Nothing,
            ItemKind::Quit => ItemAction::Terminate,
        }
    }
}

} // verus!
