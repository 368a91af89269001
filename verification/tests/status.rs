use barfly::callback::ClosureHandle;
use barfly::icon::{Glyph, Icon, IconError, StatusItemLength, ICON_HEIGHT, ICON_WIDTH};
use barfly::menu::{ItemAction, ItemKind, Menu};
use barfly::osx::OsxBarfly;
use barfly::proxy::{Callback, ClassRegistry};
use barfly::{new, Barfly, PlatformFly};
use std::cell::{Cell, RefCell};
use std::rc::Rc;

type Boxed = Box<dyn FnMut()>;

fn counting(counter: &Rc<Cell<u32>>) -> Boxed {
    let counter = Rc::clone(counter);
    Box::new(move || counter.set(counter.get() + 1))
}

fn titles(bf: &OsxBarfly<Boxed>) -> Vec<String> {
    let mut out = Vec::new();
    for i in 0..bf.menu().len() {
        out.push(format!("{}", bf.menu().item(i).title));
    }
    out
}

#[test]
fn it_works() {
    let mut bf = new("Test"); //this is barfly::new()
    bf.add_item("Test", Box::new(|| {}));
}

#[test]
fn new_status_object_shows_its_name_and_an_empty_menu() {
    let bf: PlatformFly<Boxed> = new("Test");
    assert_eq!(*bf.icon(), Icon::Name(format!("Test")));
    assert_eq!(bf.menu().len(), 0);
    assert_eq!(bf.callbacks().len(), 0);
    assert!(!bf.is_displayed());
    assert!(!bf.is_quit_requested());
}

#[test]
fn clicks_run_the_closure_once_each_with_effects_visible() {
    let hits = Rc::new(Cell::new(0));
    let mut bf: OsxBarfly<Boxed> = new("Test");
    bf.add_item("Count", counting(&hits));
    assert_eq!(hits.get(), 0);
    for n in 1..=7u32 {
        let action = bf.click(0);
        assert_eq!(action, ItemAction::Call(ClosureHandle::from_raw(1)));
        assert_eq!(hits.get(), n);
    }
}

#[test]
fn clicks_are_delivered_in_order() {
    let log: Rc<RefCell<Vec<char>>> = Rc::new(RefCell::new(Vec::new()));
    let mut bf: OsxBarfly<Boxed> = new("Test");
    for name in ['a', 'b', 'c'] {
        let log = Rc::clone(&log);
        bf.add_item("row", Box::new(move || log.borrow_mut().push(name)));
    }
    for index in [2usize, 0, 0, 1, 2] {
        bf.click(index);
    }
    assert_eq!(*log.borrow(), vec!['c', 'a', 'a', 'b', 'c']);
}

#[test]
fn rows_keep_the_order_of_addition_and_the_separator_is_inert() {
    let a = Rc::new(Cell::new(0));
    let b = Rc::new(Cell::new(0));
    let c = Rc::new(Cell::new(0));
    let mut bf: OsxBarfly<Boxed> = new("Test");
    bf.add_item("A", counting(&a));
    bf.add_item("B", counting(&b));
    bf.add_menu_separator();
    bf.add_item("C", counting(&c));
    assert_eq!(titles(&bf), vec!["A", "B", "", "C"]);
    assert_eq!(bf.menu().action_at(0), ItemAction::Call(ClosureHandle::from_raw(1)));
    assert_eq!(bf.menu().action_at(1), ItemAction::Call(ClosureHandle::from_raw(2)));
    assert_eq!(bf.menu().action_at(2), ItemAction::Nothing);
    assert_eq!(bf.menu().action_at(3), ItemAction::Call(ClosureHandle::from_raw(3)));
    assert!(matches!(bf.menu().item(2).kind, ItemKind::Separator));
    assert_eq!(bf.click(2), ItemAction::Nothing);
    assert_eq!((a.get(), b.get(), c.get()), (0, 0, 0));
    assert!(!bf.is_quit_requested());
    bf.click(3);
    bf.click(1);
    assert_eq!((a.get(), b.get(), c.get()), (0, 1, 1));
}

#[test]
fn rows_have_no_key_equivalent() {
    let mut bf: OsxBarfly<Boxed> = new("Test");
    bf.add_item("A", Box::new(|| {}));
    bf.add_menu_separator();
    bf.add_quit_item("Quit");
    for i in 0..3 {
        assert_eq!(bf.menu().item(i).key_equivalent, "");
    }
}

#[test]
fn click_past_the_last_row_does_nothing() {
    let hits = Rc::new(Cell::new(0));
    let mut bf: OsxBarfly<Boxed> = new("Test");
    assert_eq!(bf.click(0), ItemAction::Nothing);
    bf.add_item("A", counting(&hits));
    assert_eq!(bf.click(1), ItemAction::Nothing);
    assert_eq!(bf.click(usize::MAX), ItemAction::Nothing);
    assert_eq!(hits.get(), 0);
    assert!(!bf.is_quit_requested());
}

#[test]
fn quit_asks_for_termination_and_runs_no_closure() {
    let hits = Rc::new(Cell::new(0));
    let mut bf: OsxBarfly<Boxed> = new("Test");
    bf.add_item("A", counting(&hits));
    bf.add_item("B", counting(&hits));
    assert!(!bf.is_quit_requested());
    bf.quit();
    assert!(bf.is_quit_requested());
    assert_eq!(hits.get(), 0);
    assert_eq!(bf.menu().len(), 2);
}

#[test]
fn quit_row_asks_for_termination_and_runs_no_closure() {
    let hits = Rc::new(Cell::new(0));
    let mut bf: OsxBarfly<Boxed> = new("Test");
    bf.add_item("A", counting(&hits));
    bf.add_quit_item("Quit");
    assert!(matches!(bf.menu().item(1).kind, ItemKind::Quit));
    assert_eq!(bf.menu().item(1).title, "Quit");
    assert_eq!(bf.click(1), ItemAction::Terminate);
    assert!(bf.is_quit_requested());
    assert_eq!(hits.get(), 0);
    assert_eq!(bf.callbacks().len(), 1);
}

#[test]
fn last_icon_wins() {
    let mut bf: OsxBarfly<Boxed> = new("first");
    bf.set_icon_from_text("text");
    assert_eq!(*bf.icon(), Icon::Name(format!("text")));
    bf.set_icon_from_buffer(vec![1, 2, 3]);
    assert_eq!(*bf.icon(), Icon::Image(vec![1, 2, 3]));
    bf.set_icon_from_text("again");
    assert_eq!(*bf.icon(), Icon::Name(format!("again")));
    assert_eq!(bf.icon().image_bytes(), None);
    assert_eq!(bf.menu().len(), 0);
}

#[test]
fn icon_from_file_takes_the_bytes_that_were_read() {
    let mut bf: OsxBarfly<Boxed> = new("Test");
    let loaded = bf.set_icon_from_file("icon.png", Some(vec![9, 8, 7]));
    assert_eq!(loaded, Ok(()));
    assert_eq!(*bf.icon(), Icon::Image(vec![9, 8, 7]));
    assert_eq!(bf.icon().image_bytes(), Some(&vec![9, 8, 7]));
}

#[test]
fn icon_from_unreadable_file_fails_and_keeps_the_icon() {
    let mut bf: OsxBarfly<Boxed> = new("Test");
    let loaded = bf.set_icon_from_file("missing.png", None);
    assert_eq!(loaded, Err(IconError::Unreadable(format!("missing.png"))));
    assert_eq!(*bf.icon(), Icon::Name(format!("Test")));
}

#[test]
fn text_icon_is_shown_as_a_title() {
    let mut bf: OsxBarfly<Boxed> = new("Test");
    let shown = bf.display(true);
    assert_eq!(shown.length, StatusItemLength::Variable);
    assert_eq!(shown.glyph, Glyph::Title(format!("Test")));
    assert!(bf.is_displayed());
    let mut other: OsxBarfly<Boxed> = new("Test");
    assert_eq!(other.display(false).glyph, Glyph::Title(format!("Test")));
}

#[test]
fn image_icon_is_shown_square_at_eighteen_points() {
    let mut bf: OsxBarfly<Boxed> = new("Test");
    bf.set_icon_from_buffer(vec![5, 6]);
    let shown = bf.display(true);
    assert_eq!(shown.length, StatusItemLength::Square);
    assert_eq!(shown.glyph, Glyph::Image { bytes: vec![5, 6], width: 18, height: 18 });
    assert_eq!((ICON_WIDTH, ICON_HEIGHT), (18, 18));
    assert!(bf.is_displayed());
}

#[test]
fn undecodable_image_leaves_the_item_without_a_glyph() {
    let mut bf: OsxBarfly<Boxed> = new("Test");
    bf.add_item("A", Box::new(|| {}));
    bf.set_icon_from_buffer(vec![0]);
    let shown = bf.display(false);
    assert_eq!(shown.length, StatusItemLength::Square);
    assert_eq!(shown.glyph, Glyph::Blank);
    assert!(bf.is_displayed());
    assert_eq!(bf.menu().len(), 1);
    assert_eq!(*bf.icon(), Icon::Image(vec![0]));
}

#[test]
fn title_is_set_by_position() {
    let hits = Rc::new(Cell::new(0));
    let mut bf: OsxBarfly<Boxed> = new("Test");
    bf.add_item("A", counting(&hits));
    bf.add_quit_item("Quit");
    bf.add_item("C", Box::new(|| {}));
    bf.set_title_at_index(0, "Renamed");
    bf.set_title_at_index(1, "Leave");
    assert_eq!(titles(&bf), vec!["Renamed", "Leave", "C"]);
    assert_eq!(bf.click(0), ItemAction::Call(ClosureHandle::from_raw(1)));
    assert_eq!(hits.get(), 1);
    assert_eq!(bf.menu().action_at(1), ItemAction::Terminate);
}

#[test]
fn binding_says_what_the_toolkit_has_to_do() {
    let mut registry = ClassRegistry::new();
    let mut bf: OsxBarfly<Boxed> = new("Test");
    let first = bf.bind_item(&mut registry, "A", Box::new(|| {}));
    assert!(first.registration.is_declared());
    assert_eq!(first.target.bound_handle().raw(), 1);
    assert!(registry.is_registered());
    bf.add_menu_separator();
    let second = bf.bind_item(&mut registry, "B", Box::new(|| {}));
    assert!(!second.registration.is_declared());
    assert_eq!(second.target.bound_handle().raw(), 2);
    assert_eq!(second.registration.class().name, "Callback");
    assert_eq!(second.target.class_ref().name, "Callback");
    match bf.menu().item(2).kind {
        ItemKind::Action(target) => assert_eq!(target.bound_handle().raw(), 2),
        _ => panic!("the third row runs a closure"),
    }
}

#[test]
fn two_status_objects_declare_the_class_once() {
    let mut registry = ClassRegistry::new();
    let mut first: OsxBarfly<Boxed> = new("one");
    let mut second: OsxBarfly<Boxed> = new("two");
    assert!(first.bind_item(&mut registry, "A", Box::new(|| {})).registration.is_declared());
    assert!(!second.bind_item(&mut registry, "B", Box::new(|| {})).registration.is_declared());
    assert!(!first.bind_item(&mut registry, "C", Box::new(|| {})).registration.is_declared());
}

#[test]
fn class_found_by_lookup_is_not_declared_again() {
    let mut known = ClassRegistry::from_lookup(true);
    assert!(known.is_registered());
    let mut bf: OsxBarfly<Boxed> = new("Test");
    let binding = bf.bind_item(&mut known, "A", Box::new(|| {}));
    assert!(!binding.registration.is_declared());
    assert_eq!(binding.registration.class().selector, "call");
    let mut unknown = ClassRegistry::from_lookup(false);
    assert!(!unknown.is_registered());
    assert!(bf.bind_item(&mut unknown, "B", Box::new(|| {})).registration.is_declared());
}

#[test]
fn adding_a_row_runs_nothing_and_keeps_the_closure() {
    let hits = Rc::new(Cell::new(0));
    let mut bf: OsxBarfly<Boxed> = new("Test");
    bf.add_item("A", counting(&hits));
    assert_eq!(hits.get(), 0);
    assert_eq!(Rc::strong_count(&hits), 2);
    assert!(bf.callbacks().is_resident(ClosureHandle::from_raw(1)));
    match bf.menu().item(0).kind {
        ItemKind::Action(target) => {
            assert_eq!(target.bound_handle().raw(), 1);
            assert_eq!(target.class_ref().name, "Callback");
        }
        _ => panic!("the row runs a closure"),
    }
}

#[test]
fn trampoline_of_the_status_object_runs_the_closure() {
    let hits = Rc::new(Cell::new(0));
    let mut bf: OsxBarfly<Boxed> = new("Test");
    let mut registry = ClassRegistry::new();
    let target = bf.bind_item(&mut registry, "A", counting(&hits)).target;
    bf.trampoline(&target);
    bf.trampoline(&target);
    bf.trampoline(&target);
    assert_eq!(hits.get(), 3);
    assert!(bf.callbacks().is_resident(target.bound_handle()));
}

#[test]
fn closure_run_outside_the_status_object_goes_back_in() {
    let hits = Rc::new(Cell::new(0));
    let mut bf: OsxBarfly<Boxed> = new("Test");
    let mut registry = ClassRegistry::new();
    let h = bf.bind_item(&mut registry, "A", counting(&hits)).target.bound_handle();
    let mut state = bf.begin_invocation(h).unwrap();
    assert!(bf.begin_invocation(h).is_none());
    assert_eq!(bf.click(0), ItemAction::Call(h));
    assert_eq!(hits.get(), 0);
    bf.add_item("B", Box::new(|| {}));
    state.invoke();
    bf.end_invocation(h, state);
    assert_eq!(hits.get(), 1);
    bf.click(0);
    assert_eq!(hits.get(), 2);
    assert_eq!(bf.menu().len(), 2);
}

#[test]
fn trait_and_inherent_methods_agree() {
    let hits = Rc::new(Cell::new(0));
    let mut bf: OsxBarfly<Boxed> = Barfly::new("Test");
    Barfly::add_item(&mut bf, "A", counting(&hits));
    Barfly::add_menu_separator(&mut bf);
    Barfly::add_quit_item(&mut bf, "Quit");
    Barfly::set_title_at_index(&mut bf, 0, "B");
    Barfly::set_icon_from_text(&mut bf, "t");
    Barfly::set_icon_from_buffer(&mut bf, vec![1]);
    assert_eq!(Barfly::set_icon_from_file(&mut bf, "p", None), Err(IconError::Unreadable(format!("p"))));
    assert_eq!(titles(&bf), vec!["B", "", "Quit"]);
    assert_eq!(*bf.icon(), Icon::Image(vec![1]));
    let shown = Barfly::display(&mut bf, false);
    assert_eq!(shown.glyph, Glyph::Blank);
    bf.click(0);
    assert_eq!(hits.get(), 1);
    Barfly::quit(&mut bf);
    assert!(bf.is_quit_requested());
    assert_eq!(hits.get(), 1);
}

#[test]
fn menu_rows_can_be_built_directly() {
    let mut registry = ClassRegistry::new();
    let class = Callback::class(&mut registry).class();
    let mut menu = Menu::new();
    assert_eq!(menu.len(), 0);
    menu.add_item("A", Callback::instantiate_and_bind(class, ClosureHandle::from_raw(5)));
    menu.add_separator();
    menu.add_quit_item("Bye");
    assert_eq!(menu.len(), 3);
    assert_eq!(menu.action_at(0), ItemAction::Call(ClosureHandle::from_raw(5)));
    assert_eq!(menu.action_at(1), ItemAction::Nothing);
    assert_eq!(menu.action_at(2), ItemAction::Terminate);
    menu.set_title_at(2, "Quit");
    assert_eq!(menu.item(2).title, "Quit");
    assert_eq!(menu.item(0).title, "A");
}

#[test]
fn only_deliveries_run_closures() {
    let a = Rc::new(Cell::new(0));
    let b = Rc::new(Cell::new(0));
    let mut bf: OsxBarfly<Boxed> = new("Test");
    bf.add_item("A", counting(&a));
    bf.add_item("B", counting(&b));
    bf.add_menu_separator();
    bf.add_quit_item("Quit");
    bf.set_title_at_index(1, "C");
    bf.set_icon_from_text("t");
    bf.set_icon_from_buffer(vec![1, 2]);
    assert_eq!(bf.set_icon_from_file("p", None), Err(IconError::Unreadable(format!("p"))));
    bf.display(true);
    bf.quit();
    assert_eq!((a.get(), b.get()), (0, 0));
    assert_eq!(bf.callbacks().len(), 2);
}

#[test]
fn two_rows_with_one_title_keep_their_own_closures() {
    let x = Rc::new(Cell::new(0));
    let mut bf: OsxBarfly<Boxed> = new("Test");
    let one = Rc::clone(&x);
    bf.add_item("A", Box::new(move || one.set(1)));
    let two = Rc::clone(&x);
    bf.add_item("A", Box::new(move || two.set(2)));
    assert_eq!(x.get(), 0);
    assert_eq!(titles(&bf), vec!["A", "A"]);
    assert_eq!(bf.menu().action_at(0), ItemAction::Call(ClosureHandle::from_raw(1)));
    assert_eq!(bf.menu().action_at(1), ItemAction::Call(ClosureHandle::from_raw(2)));
    bf.click(0);
    assert_eq!(x.get(), 1);
    bf.click(1);
    assert_eq!(x.get(), 2);
    bf.click(0);
    assert_eq!(x.get(), 1);
}

#[test]
fn interleaved_clicks_run_each_closure_as_often_as_its_row_was_clicked() {
    let a = Rc::new(Cell::new(0));
    let b = Rc::new(Cell::new(0));
    let mut bf: OsxBarfly<Boxed> = new("Test");
    bf.add_item("A", counting(&a));
    bf.add_item("B", counting(&b));
    for index in [0usize, 1, 1, 0, 1, 1, 1] {
        bf.click(index);
    }
    assert_eq!((a.get(), b.get()), (2, 5));
}

