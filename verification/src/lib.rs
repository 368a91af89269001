//! A status-bar icon with a dropdown menu whose rows run closures.
//!
//! The crate holds the host side of such a status object: the glyph, the rows
//! of the menu, and the bridge that lets a foreign object system, which can
//! store an integer but not a closure, run the closure of a row every time the
//! row is activated. Drawing and event dispatch belong to the toolkit that the
//! status object is shown with; this crate decides what the toolkit is asked
//! to do and keeps the closures.

pub mod callback;
pub mod icon;
pub mod menu;
pub mod osx;
pub mod proxy;
pub mod state;
pub mod status;

use vstd::prelude::*;
use crate::icon::{presentation, IconError, IconView, Presentation};
use crate::status::StatusView;

verus! {

/// A status object: an icon in the status bar with a dropdown menu.
pub trait Barfly: Sized {
    /// The closures that rows of the menu run.
    type Closure: FnMut() -> ();

    /// What the status object holds.
    spec fn model(&self) -> StatusView<Self::Closure>;

    /// A status object whose glyph is the text `name` and whose menu is empty.
    fn new(name: &str) -> (status: Self)
        ensures
            status.model().wf(),
            status.model() == StatusView::<Self::Closure>::initial(name@),
    ;

    /// Makes the text `text` the glyph, in place of whatever was set before.
    fn set_icon_from_text(&mut self, text: &str)
        requires
            old(self).model().wf(),
        ensures
            final(self).model().wf(),
            final(self).model() == old(self).model().with_icon(IconView::Name(text@)),
    ;

    /// Makes the image encoded in `buffer` the glyph, in place of whatever was
    /// set before.
    fn set_icon_from_buffer(&mut self, buffer: Vec<u8>)
        requires
            old(self).model().wf(),
        ensures
            final(self).model().wf(),
            final(self).model() == old(self).model().with_icon(IconView::Image(buffer@)),
    ;

    /// Makes the image in the file at `path` the glyph. `contents` is what
    /// reading the file gave: its bytes, or nothing if it could not be read.
    /// In that case the glyph stays as it was and the failure is returned.
    fn set_icon_from_file(&mut self, path: &str, contents: Option<Vec<u8>>) -> (loaded: Result<
        (),
        IconError,
    >)
        requires
            old(self).model().wf(),
        ensures
            final(self).model().wf(),
            match contents {
                Some(bytes) => loaded is Ok && final(self).model() == old(self).model().with_icon(
                    IconView::Image(bytes@),
                ),
                None => final(self).model() == old(self).model() && (loaded matches Err(
                    IconError::Unreadable(p),
                ) && p@ == path@),
            },
    ;

    /// Appends a row titled `menu_item` that runs `cbs` each time it is
    /// activated.
    fn add_item(&mut self, menu_item: &str, cbs: Self::Closure)
        requires
            old(self).model().wf(),
            old(self).model().table.slots.len() < usize::MAX,
            call_requires(cbs, ()),
        ensures
            final(self).model().wf(),
            final(self).model() == old(self).model().with_item(menu_item@, cbs),
    ;

    /// Appends a dividing line.
    fn add_menu_separator(&mut self)
        requires
            old(self).model().wf(),
        ensures
            final(self).model().wf(),
            final(self).model() == old(self).model().with_separator(),
    ;

    /// Appends a row titled `label` that terminates the application.
    fn add_quit_item(&mut self, label: &str)
        requires
            old(self).model().wf(),
        ensures
            final(self).model().wf(),
            final(self).model() == old(self).model().with_quit_item(label@),
    ;

    /// Gives the row at `index`, counted from the top and from 0, the title
    /// `title`.
    fn set_title_at_index(&mut self, index: i32, title: &str)
        requires
            old(self).model().wf(),
            0 <= index < old(self).model().menu.len(),
        ensures
            final(self).model().wf(),
            final(self).model() == old(self).model().with_title_at(index as int, title@),
    ;

    /// Puts the status item on screen and says how: `decoded` tells whether
    /// the toolkit could decode the bytes of an image glyph.
    fn display(&mut self, decoded: bool) -> (shown: Presentation)
        requires
            old(self).model().wf(),
        ensures
            final(self).model().wf(),
            final(self).model() == old(self).model().shown(),
            shown@ == presentation(old(self).model().icon, decoded),
    ;

    /// Asks the application to terminate. No closure runs.
    fn quit(&mut self)
        requires
            old(self).model().wf(),
        ensures
            final(self).model().wf(),
            final(self).model() == old(self).model().quit(),
    ;
}

/// The status object of this platform.
pub type PlatformFly<F> = osx::OsxBarfly<F>;

/// A status object whose glyph is the text `name` and whose menu is empty.
pub fn new<F: FnMut() -> ()>(name: &str) -> (status: PlatformFly<F>)
    ensures
        status@.wf(),
        status@ == StatusView::<F>::initial(name@),
{
    PlatformFly::new(name)
}

} // verus!
