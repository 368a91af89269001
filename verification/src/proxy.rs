//! The foreign side of the callback bridge, as far as the host decides it.
//!
//! The foreign object system knows one proxy class. It is declared the first
//! time it is asked for and only found again afterwards. Every menu item gets
//! an instance of it, and the one thing an instance carries is the handle of
//! the item's closure. When the item is activated the foreign dispatcher calls
//! the trampoline with that instance.

use vstd::prelude::*;
use crate::callback::{CallbackTable, ClosureHandle, NULL_HANDLE};

verus! {

/// Width in bits of the storage slot of a proxy object: it holds the raw value
/// of a `ClosureHandle`.
pub const SLOT_BITS: u32 = 64;

/// The declaration of the proxy class: the names under which the foreign
/// object system knows the class, its one storage slot and its one method.
#[derive(Clone, Copy, Debug)]
pub struct ClassRef {
    /// The name of the class.
    pub name: &'static str,
    /// The name of the class that it extends.
    pub superclass: &'static str,
    /// The name of the storage slot that every instance has.
    pub slot: &'static str,
    /// The width of that slot in bits.
    pub slot_bits: u32,
    /// The name of the method without arguments that runs the trampoline.
    pub selector: &'static str,
}

impl ClassRef {
    /// The declaration of the proxy class.
    pub fn proxy() -> (class: ClassRef)
        ensures
            class == proxy_class(),
    {
        ClassRef {
            name: "Callback",
            superclass: "NSObject",
            slot: "_cbptr",
            slot_bits: SLOT_BITS,
            selector: "call",
        }
    }
}

/// The one declaration that the bridge ever registers.
pub open spec fn proxy_class() -> ClassRef {
    ClassRef {
        name: "Callback",
        superclass: "NSObject",
        slot: "_cbptr",
        slot_bits: SLOT_BITS,
        selector: "call",
    }
}

/// What a request for the proxy class did.
#[derive(Clone, Copy, Debug)]
pub enum Registration {
    /// The class was not known yet and has now been declared.
    Declared(ClassRef),
    /// The class was known already and nothing was declared.
    Reused(ClassRef),
}

impl Registration {
    /// The class, whichever way it was obtained.
    pub open spec fn class_ref(self) -> ClassRef {
        match self {
            Registration::Declared(class) => class,
            Registration::Reused(class) => class,
        }
    }

    /// The class, whichever way it was obtained.
    pub fn class(&self) -> (class: ClassRef)
        ensures
            class == self.class_ref(),
    {
        match self {
            Registration::Declared(class) => *class,
            Registration::Reused(class) => *class,
        }
    }

    /// Whether the request declared the class.
    pub fn is_declared(&self) -> (b: bool)
        ensures
            b == (self is Declared),
    {
        match self {
            Registration::Declared(_) => true,
            Registration::Reused(_) => false,
        }
    }
}

/// What the foreign object system knows of the proxy class: nothing, or its
/// declaration. A declared class is never declared again nor changed. The
/// class is known to the whole process, so one registry stands for the process
/// and is lent to whatever asks for the class.
pub struct ClassRegistry {
    class: Option<ClassRef>,
}

impl View for ClassRegistry {
    type V = Option<ClassRef>;

    closed spec fn view(&self) -> Option<ClassRef> {
        self.class
    }
}

/// What the foreign object system knows after a request for the proxy class,
/// given what it knew before: a class that is known stays as it is, and
/// otherwise the proxy class is declared.
pub open spec fn requested(known: Option<ClassRef>) -> Option<ClassRef> {
    match known {
        Some(class) => Some(class),
        None => Some(proxy_class()),
    }
}

/// What a request for the proxy class answers, given what the foreign object
/// system knew before.
pub open spec fn answer(known: Option<ClassRef>) -> Registration {
    match known {
        Some(class) => Registration::Reused(class),
        None => Registration::Declared(proxy_class()),
    }
}

impl ClassRegistry {
    #[verifier::type_invariant]
    spec fn knows_only_the_proxy_class(&self) -> bool {
        self.class is Some ==> self.class == Some(proxy_class())
    }

    /// Whether the proxy class has been declared.
    pub open spec fn registered(&self) -> bool {
        self@ is Some
    }

    /// A registry in which the proxy class is not declared yet.
    pub fn new() -> (registry: Self)
        ensures
            registry@ is None,
    {
        ClassRegistry { class: None }
    }

    /// The registry of a foreign object system in which a lookup of the proxy
    /// class gave `found`: the class is known exactly where it was found.
    pub fn from_lookup(found: bool) -> (registry: Self)
        ensures
            registry@ == if found {
                Some(proxy_class())
            } else {
                None::<ClassRef>
            },
    {
        if found {
            ClassRegistry { class: Some(ClassRef::proxy()) }
        } else {
            ClassRegistry { class: None }
        }
    }

    /// Whether the proxy class has been declared.
    pub fn is_registered(&self) -> (b: bool)
        ensures
            b == self.registered(),
    {
        self.class.is_some()
    }
}

/// What taking a closure for a new menu item asks of the foreign object
/// system.
#[derive(Clone, Copy, Debug)]
pub struct Binding {
    /// The proxy class, and whether it has to be declared first.
    pub registration: Registration,
    /// The proxy object to create and to set as the click target of the row.
    pub target: Callback,
}

/// A proxy object: an instance of the proxy class. Its storage slot holds the
/// raw value of the handle bound into it, or `NULL_HANDLE` before that.
#[derive(Clone, Copy, Debug)]
pub struct Callback {
    class: ClassRef,
    cbptr: u64,
}

impl Callback {
    /// The class of which this object is an instance.
    pub closed spec fn class_of(&self) -> ClassRef {
        self.class
    }

    /// The handle that the storage slot holds.
    pub closed spec fn handle(&self) -> ClosureHandle {
        ClosureHandle { raw: self.cbptr }
    }

    /// Returns the proxy class, declaring it if this is the first request. A
    /// later request finds the class and declares nothing: the answer says
    /// which of the two happened, and the class is the same either way.
    pub fn class(registry: &mut ClassRegistry) -> (found: Registration)
        ensures
            final(registry)@ == requested(old(registry)@),
            found == answer(old(registry)@),
            found.class_ref() == proxy_class(),
    {
        proof {
            use_type_invariant(&*registry);
        }
        match registry.class {
            Some(class) => Registration::Reused(class),
            None => {
                let class = ClassRef::proxy();
                registry.class = Some(class);
                Registration::Declared(class)
            },
        }
    }

    /// Creates an instance of `class` and stores `handle` in its slot.
    pub fn instantiate_and_bind(class: ClassRef, handle: ClosureHandle) -> (proxy: Callback)
        ensures
            proxy.class_of() == class,
            proxy.handle() == handle,
    {
        let mut proxy = Callback { class, cbptr: NULL_HANDLE };
        proxy.setptr(handle.raw());
        proxy
    }

    /// Takes ownership of `cb` for a new menu item: makes sure that the proxy
    /// class is declared, mints a handle for `cb` in `table`, and binds the
    /// handle into a new instance of the class.
    pub fn from<F: FnMut() -> ()>(
        table: &mut CallbackTable<F>,
        registry: &mut ClassRegistry,
        cb: F,
    ) -> (binding: Binding)
        requires
            old(table).wf(),
            old(table)@.slots.len() < usize::MAX,
            call_requires(cb, ()),
        ensures
            final(table).wf(),
            final(table)@ == old(table)@.minted(cb),
            final(registry)@ == requested(old(registry)@),
            binding.registration == answer(old(registry)@),
            binding.registration.class_ref() == proxy_class(),
            binding.target.class_of() == proxy_class(),
            binding.target.handle() == old(table)@.next_handle(),
    {
        let handle = table.mint(cb);
        let registration = Callback::class(registry);
        let target = Callback::instantiate_and_bind(registration.class(), handle);
        Binding { registration, target }
    }

    /// Stores `uptr` in the storage slot.
    pub fn setptr(&mut self, uptr: u64)
        ensures
            final(self).handle() == (ClosureHandle { raw: uptr }),
            final(self).class_of() == old(self).class_of(),
    {
        self.cbptr = uptr;
    }

    /// Reads the handle out of the storage slot.
    pub fn bound_handle(&self) -> (handle: ClosureHandle)
        ensures
            handle == self.handle(),
    {
        ClosureHandle::from_raw(self.cbptr)
    }

    /// The class of which this object is an instance.
    pub fn class_ref(&self) -> (class: ClassRef)
        ensures
            class == self.class_of(),
    {
        self.class
    }
}

/// The entry point that the foreign dispatcher calls when the menu item of
/// `this` is activated. It reads the handle out of the proxy object, resolves
/// it in `table` and runs the closure once. The state stays in the table, so
/// the same handle resolves again at the next activation.
pub fn trampoline<F: FnMut() -> ()>(table: &mut CallbackTable<F>, this: &Callback)
    requires
        old(table).wf(),
        old(table)@.live(this.handle()),
    ensures
        final(table).wf(),
        final(table)@ == old(table)@.invoked(this.handle()),
        old(table)@.ran(this.handle()),
{
    let handle = this.bound_handle();
    table.invoke(handle);
}

/// Asking for the proxy class a second time changes nothing: the second
/// request declares nothing, answers with the class that the first answered
/// with, and leaves the foreign object system as the first left it.
pub proof fn lemma_registration_is_idempotent(known: Option<ClassRef>)
    ensures
        requested(requested(known)) == requested(known),
        answer(requested(known)) is Reused,
        answer(requested(known)).class_ref() == answer(known).class_ref(),
{
}

/// The class is declared by the first request only: a request declares the
/// class exactly where the foreign object system did not know it, and of two
/// requests in a row that start from there the first declares it and the
/// second finds it.
pub proof fn lemma_declared_once(known: Option<ClassRef>)
    ensures
        answer(known) is Declared <==> known is None,
        answer(None::<ClassRef>) == Registration::Declared(proxy_class()),
        answer(requested(None::<ClassRef>)) == Registration::Reused(proxy_class()),
{
}

} // verus!
