use barfly::callback::{CallbackState, CallbackTable, ClosureHandle, NULL_HANDLE};
use barfly::proxy::{trampoline, Callback, ClassRef, ClassRegistry, Registration, SLOT_BITS};
use std::cell::Cell;
use std::rc::Rc;

type Boxed = Box<dyn FnMut()>;

fn counting(counter: &Rc<Cell<u32>>, step: u32) -> Boxed {
    let counter = Rc::clone(counter);
    Box::new(move || counter.set(counter.get() + step))
}

#[test]
fn handle_round_trips_through_its_raw_value() {
    let h = ClosureHandle::from_raw(42);
    assert_eq!(h.raw(), 42);
    assert_eq!(h, ClosureHandle { raw: 42 });
    assert!(!h.is_null());
    assert!(ClosureHandle::from_raw(NULL_HANDLE).is_null());
    assert_eq!(NULL_HANDLE, 0);
}

#[test]
fn new_table_is_empty() {
    let table: CallbackTable<Boxed> = CallbackTable::new();
    assert_eq!(table.len(), 0);
    assert!(!table.is_live(ClosureHandle::from_raw(0)));
    assert!(!table.is_live(ClosureHandle::from_raw(1)));
    assert!(!table.is_resident(ClosureHandle::from_raw(1)));
}

#[test]
fn minted_handles_count_up_from_one() {
    let mut table: CallbackTable<Boxed> = CallbackTable::new();
    let first = table.mint(Box::new(|| {}));
    let second = table.mint(Box::new(|| {}));
    let third = table.mint(Box::new(|| {}));
    assert_eq!(first.raw(), 1);
    assert_eq!(second.raw(), 2);
    assert_eq!(third.raw(), 3);
    assert_eq!(table.len(), 3);
    assert!(table.is_live(first) && table.is_live(second) && table.is_live(third));
    assert!(!table.is_live(ClosureHandle::from_raw(4)));
    assert!(!table.is_live(ClosureHandle::from_raw(NULL_HANDLE)));
}

#[test]
fn two_mints_give_distinct_handles_and_unaliased_closures() {
    let a = Rc::new(Cell::new(0));
    let b = Rc::new(Cell::new(0));
    let mut table: CallbackTable<Boxed> = CallbackTable::new();
    let ha = table.mint(counting(&a, 1));
    let hb = table.mint(counting(&b, 10));
    assert_ne!(ha, hb);
    table.resolve(ha).invoke();
    assert_eq!((a.get(), b.get()), (1, 0));
    table.resolve(hb).invoke();
    assert_eq!((a.get(), b.get()), (1, 10));
    table.resolve(ha).invoke();
    assert_eq!((a.get(), b.get()), (2, 10));
}

#[test]
fn resolving_does_not_consume_the_handle() {
    let hits = Rc::new(Cell::new(0));
    let mut table: CallbackTable<Boxed> = CallbackTable::new();
    let h = table.mint(counting(&hits, 1));
    for expected in 1..=5u32 {
        table.resolve(h).invoke();
        assert_eq!(hits.get(), expected);
        assert!(table.is_resident(h));
    }
}

#[test]
fn n_invocations_run_the_closure_n_times_in_order() {
    let log: Rc<std::cell::RefCell<Vec<u32>>> = Rc::new(std::cell::RefCell::new(Vec::new()));
    let mut table: CallbackTable<Boxed> = CallbackTable::new();
    let seen = Rc::clone(&log);
    let mut next = 0u32;
    let h = table.mint(Box::new(move || {
        next += 1;
        seen.borrow_mut().push(next);
    }));
    assert_eq!(log.borrow().len(), 0);
    for n in 1..=4usize {
        table.invoke(h);
        assert_eq!(log.borrow().len(), n);
    }
    assert_eq!(*log.borrow(), vec![1, 2, 3, 4]);
}

#[test]
fn zero_invocations_run_nothing() {
    let hits = Rc::new(Cell::new(0));
    let mut table: CallbackTable<Boxed> = CallbackTable::new();
    let h = table.mint(counting(&hits, 1));
    assert!(table.is_resident(h));
    assert_eq!(hits.get(), 0);
}

#[test]
fn invocation_under_way_is_not_entered_again() {
    let hits = Rc::new(Cell::new(0));
    let mut table: CallbackTable<Boxed> = CallbackTable::new();
    let h = table.mint(counting(&hits, 1));
    let mut state = match table.begin_invocation(h) {
        Some(state) => state,
        None => panic!("the closure rests in the table"),
    };
    assert!(table.is_live(h));
    assert!(!table.is_resident(h));
    assert!(table.begin_invocation(h).is_none());
    table.invoke(h);
    assert_eq!(hits.get(), 0);
    state.invoke();
    assert_eq!(hits.get(), 1);
    table.end_invocation(h, state);
    assert!(table.is_resident(h));
    table.invoke(h);
    assert_eq!(hits.get(), 2);
}

#[test]
fn other_handles_stay_usable_while_one_is_under_way() {
    let a = Rc::new(Cell::new(0));
    let b = Rc::new(Cell::new(0));
    let mut table: CallbackTable<Boxed> = CallbackTable::new();
    let ha = table.mint(counting(&a, 1));
    let hb = table.mint(counting(&b, 1));
    let state = table.begin_invocation(ha).unwrap();
    table.invoke(hb);
    let hc = table.mint(Box::new(|| {}));
    assert_eq!(hc.raw(), 3);
    table.end_invocation(ha, state);
    table.invoke(ha);
    assert_eq!((a.get(), b.get()), (1, 1));
}

#[test]
fn state_owns_its_closure() {
    let hits = Rc::new(Cell::new(0));
    let mut state: CallbackState<Boxed> = CallbackState::new(counting(&hits, 3));
    state.invoke();
    state.invoke();
    assert_eq!(hits.get(), 6);
    let mut closure = state.into_closure();
    closure();
    assert_eq!(hits.get(), 9);
}

#[test]
fn class_is_declared_once_and_reused_after() {
    let mut registry = ClassRegistry::new();
    assert!(!registry.is_registered());
    let first = Callback::class(&mut registry);
    assert!(first.is_declared());
    assert!(matches!(first, Registration::Declared(_)));
    assert!(registry.is_registered());
    let second = Callback::class(&mut registry);
    assert!(!second.is_declared());
    assert!(matches!(second, Registration::Reused(_)));
    assert!(registry.is_registered());
    let third = Callback::class(&mut registry);
    assert!(!third.is_declared());
    assert_eq!(first.class().name, second.class().name);
    assert_eq!(first.class().slot, third.class().slot);
}

#[test]
fn proxy_class_has_one_slot_and_one_method() {
    let mut registry = ClassRegistry::new();
    let class = Callback::class(&mut registry).class();
    assert_eq!(class.name, "Callback");
    assert_eq!(class.superclass, "NSObject");
    assert_eq!(class.slot, "_cbptr");
    assert_eq!(class.slot_bits, 64);
    assert_eq!(class.slot_bits, SLOT_BITS);
    assert_eq!(class.selector, "call");
}

#[test]
fn proxy_class_is_the_same_however_obtained() {
    let mut registry = ClassRegistry::new();
    let declared = Callback::class(&mut registry).class();
    let direct = ClassRef::proxy();
    assert_eq!(declared.name, direct.name);
    assert_eq!(declared.superclass, direct.superclass);
    assert_eq!(declared.slot, direct.slot);
    assert_eq!(declared.slot_bits, direct.slot_bits);
    assert_eq!(declared.selector, direct.selector);
}

#[test]
fn proxy_carries_the_handle_bound_into_it() {
    let mut registry = ClassRegistry::new();
    let class = Callback::class(&mut registry).class();
    let mut proxy = Callback::instantiate_and_bind(class, ClosureHandle::from_raw(7));
    assert_eq!(proxy.bound_handle().raw(), 7);
    assert_eq!(proxy.class_ref().name, "Callback");
    proxy.setptr(9);
    assert_eq!(proxy.bound_handle(), ClosureHandle::from_raw(9));
    proxy.setptr(NULL_HANDLE);
    assert!(proxy.bound_handle().is_null());
}

#[test]
fn from_mints_registers_and_binds() {
    let mut table: CallbackTable<Boxed> = CallbackTable::new();
    let mut registry = ClassRegistry::new();
    let first = Callback::from(&mut table, &mut registry, Box::new(|| {}));
    assert!(first.registration.is_declared());
    assert_eq!(first.target.bound_handle().raw(), 1);
    let second = Callback::from(&mut table, &mut registry, Box::new(|| {}));
    assert!(!second.registration.is_declared());
    assert_eq!(second.target.bound_handle().raw(), 2);
    assert_eq!(table.len(), 2);
    assert_eq!(second.target.class_ref().name, first.target.class_ref().name);
}

#[test]
fn trampoline_runs_the_closure_behind_the_proxy() {
    let a = Rc::new(Cell::new(0));
    let b = Rc::new(Cell::new(0));
    let mut table: CallbackTable<Boxed> = CallbackTable::new();
    let mut registry = ClassRegistry::new();
    let pa = Callback::from(&mut table, &mut registry, counting(&a, 1)).target;
    let pb = Callback::from(&mut table, &mut registry, counting(&b, 1)).target;
    trampoline(&mut table, &pb);
    assert_eq!((a.get(), b.get()), (0, 1));
    trampoline(&mut table, &pa);
    trampoline(&mut table, &pa);
    assert_eq!((a.get(), b.get()), (2, 1));
    assert!(table.is_resident(pa.bound_handle()));
    assert!(table.is_resident(pb.bound_handle()));
}

#[test]
fn from_does_not_run_the_closure_it_takes() {
    let hits = Rc::new(Cell::new(0));
    let mut table: CallbackTable<Boxed> = CallbackTable::new();
    let mut registry = ClassRegistry::new();
    let binding = Callback::from(&mut table, &mut registry, counting(&hits, 1));
    assert_eq!(hits.get(), 0);
    assert_eq!(Rc::strong_count(&hits), 2);
    assert!(table.is_resident(binding.target.bound_handle()));
}

#[test]
fn repeated_class_request_leaves_proxies_as_they_were() {
    let hits = Rc::new(Cell::new(0));
    let mut table: CallbackTable<Boxed> = CallbackTable::new();
    let mut registry = ClassRegistry::new();
    let proxy = Callback::from(&mut table, &mut registry, counting(&hits, 1)).target;
    let handle = proxy.bound_handle();
    assert!(!Callback::class(&mut registry).is_declared());
    assert_eq!(proxy.bound_handle(), handle);
    trampoline(&mut table, &proxy);
    assert_eq!(hits.get(), 1);
}

#[test]
fn delivery_to_one_proxy_leaves_the_other_closure_alone() {
    let a = Rc::new(Cell::new(false));
    let b = Rc::new(Cell::new(false));
    let mut table: CallbackTable<Boxed> = CallbackTable::new();
    let mut registry = ClassRegistry::new();
    let set_a = Rc::clone(&a);
    let _pa = Callback::from(&mut table, &mut registry, Box::new(move || set_a.set(true))).target;
    let set_b = Rc::clone(&b);
    let pb = Callback::from(&mut table, &mut registry, Box::new(move || set_b.set(true))).target;
    trampoline(&mut table, &pb);
    assert!(b.get());
    assert!(!a.get());
}

