//! A container for a field that is initialized late, around `ready()`.

use crate::property::{Export, Property, PropertyHintInfo};
use vstd::prelude::*;

verus! {

/// What an [`OnReady`] holds, as contracts see it.
pub enum Slot<T, F> {
    /// Nothing yet: the owner will supply the value by `init()`.
    Manual,
    /// An initializer that has not run yet.
    Prepared(F),
    /// The initializer has been taken out and has not returned. No function
    /// of this crate leaves a container in this state, and none but the
    /// three that name a misuse accepts one.
    Initializing,
    /// The value.
    Ready(T),
}

/// A way to use an [`OnReady`] against its mode or out of turn.
#[derive(Clone, Copy, Debug, PartialEq, Eq, Structural)]
pub enum Misuse {
    /// `init()` on a container that already holds its value.
    DoubleInit,
    /// `init()` on a container that was given an initializer.
    ManualInitOnAuto,
    /// Access to a manual container before `init()`.
    ManualUninitialized,
    /// Access to an automatic container before its initializer ran.
    AutoUninitialized,
    /// A second automatic initialization.
    DoubleTrigger,
}

impl Misuse {
    /// The text that describes the misuse to the programmer.
    pub open spec fn text(self) -> Seq<char> {
        match self {
            Misuse::DoubleInit => "already initialized; did you call init() more than once?"@,
            Misuse::ManualInitOnAuto => "cannot call init() on auto-initialized OnReady objects"@,
            Misuse::ManualUninitialized => "OnReady manual value uninitialized, did you call init()?"@,
            Misuse::AutoUninitialized => "OnReady automatic value uninitialized, is only available in ready()"@,
            Misuse::DoubleTrigger => "OnReady object already initialized"@,
        }
    }

    /// The description of this misuse.
    pub fn message(self) -> (msg: &'static str)
        ensures
            msg@ == self.text(),
    {
        match self {
            Misuse::DoubleInit => "already initialized; did you call init() more than once?",
            Misuse::ManualInitOnAuto => "cannot call init() on auto-initialized OnReady objects",
            Misuse::ManualUninitialized => "OnReady manual value uninitialized, did you call init()?",
            Misuse::AutoUninitialized => "OnReady automatic value uninitialized, is only available in ready()",
            Misuse::DoubleTrigger => "OnReady object already initialized",
        }
    }
}

impl<T, F> Slot<T, F> {
    /// The value of a slot that is `Ready`.
    pub open spec fn value(self) -> T
        recommends
            self is Ready,
    {
        self->Ready_0
    }

    /// The slot after `init(value)`.
    pub open spec fn initialized(self, value: T) -> Self {
        Slot::Ready(value)
    }

    /// What is wrong with `init()` on this slot, if anything: only a manual
    /// slot that is still empty takes a value.
    pub open spec fn init_misuse(self) -> Option<Misuse> {
        match self {
            Slot::Manual => None,
            Slot::Prepared(_) | Slot::Initializing => Some(Misuse::ManualInitOnAuto),
            Slot::Ready(_) => Some(Misuse::DoubleInit),
        }
    }

    /// What is wrong with an automatic initialization of this slot, if
    /// anything: it is in order once, before the slot holds its value.
    pub open spec fn trigger_misuse(self) -> Option<Misuse> {
        match self {
            Slot::Manual | Slot::Prepared(_) => None,
            Slot::Initializing | Slot::Ready(_) => Some(Misuse::DoubleTrigger),
        }
    }

    /// What is wrong with reading or writing the value of this slot, if
    /// anything: only a slot that is `Ready` has a value.
    pub open spec fn access_misuse(self) -> Option<Misuse> {
        match self {
            Slot::Manual => Some(Misuse::ManualUninitialized),
            Slot::Prepared(_) | Slot::Initializing => Some(Misuse::AutoUninitialized),
            Slot::Ready(_) => None,
        }
    }
}

enum InitState<T, F> {
    ManualUninitialized,
    AutoPrepared { initializer: F },
    AutoInitializing,  // needed because the state cannot be empty
    Initialized { value: T },
}

/// Late-initialization container with `ready()` support.
///
/// It is used as a field, in one of two modes:
///
/// 1. Automatic mode, with [`OnReady::new`]. The lifecycle driver calls
///    [`OnReady::init_auto`] on each such field, in the order of declaration,
///    before `ready()` runs.
/// 2. Manual mode, with [`OnReady::manual`]. The field stays empty until the
///    owner calls [`OnReady::init`].
///
/// A verified caller knows from the contracts which state a container is in,
/// and has no need to ask. [`OnReady::init_misuse`],
/// [`OnReady::trigger_misuse`] and [`OnReady::access_misuse`] are for a caller
/// that is not verified: it tests at run time what the contracts demand, and
/// fails with the [`Misuse`] that it is given.
pub struct OnReady<T, F> {
    state: InitState<T, F>,
}

impl<T, F> View for OnReady<T, F> {
    type V = Slot<T, F>;

    closed spec fn view(&self) -> Slot<T, F> {
        match self.state {
            InitState::ManualUninitialized => Slot::Manual,
            InitState::AutoPrepared { initializer } => Slot::Prepared(initializer),
            InitState::AutoInitializing => Slot::Initializing,
            InitState::Initialized { value } => Slot::Ready(value),
        }
    }
}

impl<T, F> OnReady<T, F> {
    /// Leaves the container empty and expects [`OnReady::init`] during
    /// `ready()`.
    pub fn manual() -> (slot: Self)
        ensures
            slot@ == Slot::<T, F>::Manual,
    {
        OnReady { state: InitState::ManualUninitialized }
    }

    /// Runs manual initialization: stores `value`.
    ///
    /// The container must be a manual one that has not been initialized.
    pub fn init(&mut self, value: T)
        requires
            old(self)@ is Manual,
        ensures
            final(self)@ == old(self)@.initialized(value),
    {
        self.state = InitState::Initialized { value };
    }

    /// Says why [`OnReady::init`] may not be called now, or `None` if it may.
    pub fn init_misuse(&self) -> (misuse: Option<Misuse>)
        ensures
            misuse == self@.init_misuse(),
            misuse is None <==> self@ is Manual,
    {
        match &self.state {
            InitState::ManualUninitialized => None,
            InitState::AutoPrepared { .. } | InitState::AutoInitializing => Some(
                Misuse::ManualInitOnAuto,
            ),
            InitState::Initialized { .. } => Some(Misuse::DoubleInit),
        }
    }

    /// Says why [`OnReady::init_auto`] may not be called now, or `None` if it
    /// may.
    pub fn trigger_misuse(&self) -> (misuse: Option<Misuse>)
        ensures
            misuse == self@.trigger_misuse(),
            misuse is None <==> (self@ is Manual || self@ is Prepared),
    {
        match &self.state {
            InitState::ManualUninitialized | InitState::AutoPrepared { .. } => None,
            InitState::AutoInitializing | InitState::Initialized { .. } => Some(
                Misuse::DoubleTrigger,
            ),
        }
    }

    /// Says why the value may not be read or written now, or `None` if it
    /// may.
    pub fn access_misuse(&self) -> (misuse: Option<Misuse>)
        ensures
            misuse == self@.access_misuse(),
            misuse is None <==> self@ is Ready,
    {
        match &self.state {
            InitState::ManualUninitialized => Some(Misuse::ManualUninitialized),
            InitState::AutoPrepared { .. } | InitState::AutoInitializing => Some(
                Misuse::AutoUninitialized,
            ),
            InitState::Initialized { .. } => None,
        }
    }

    /// Returns a shared reference to the value of an initialized container.
    pub fn deref(&self) -> (value: &T)
        requires
            self@ is Ready,
        ensures
            *value == self@.value(),
    {
        match &self.state {
            InitState::Initialized { value } => value,
            _ => unreached(),
        }
    }

    /// Returns an exclusive reference to the value of an initialized
    /// container. The container stays initialized, with whatever the caller
    /// leaves behind the reference.
    pub fn deref_mut(&mut self) -> (value: &mut T)
        requires
            old(self)@ is Ready,
        ensures
            *value == old(self)@.value(),
            final(self)@ == Slot::<T, F>::Ready(*final(value)),
    {
        match &mut self.state {
            InitState::Initialized { value } => value,
            _ => unreached(),
        }
    }
}

impl<T, F: FnOnce() -> T> Slot<T, F> {
    /// Whether an automatic initialization may take this slot to `after`: a
    /// manual slot stays as it is, and a prepared one becomes `Ready` with a
    /// value that its initializer returns.
    pub open spec fn auto_init_to(self, after: Self) -> bool {
        match self {
            Slot::Manual => after == Slot::<T, F>::Manual,
            Slot::Prepared(f) => after is Ready && call_ensures(f, (), after.value()),
            _ => false,
        }
    }

    /// An automatic container that was triggered holds a value that its
    /// initializer returned. It can be read, and it may not be triggered
    /// again.
    pub proof fn lemma_triggered_auto_slot_is_ready(init_fn: F, after: Self)
        requires
            Slot::Prepared(init_fn).auto_init_to(after),
        ensures
            Slot::<T, F>::Prepared(init_fn).trigger_misuse() is None,
            after is Ready,
            call_ensures(init_fn, (), after.value()),
            after.access_misuse() is None,
            after.trigger_misuse() == Some(Misuse::DoubleTrigger),
    {
    }

    /// A manual container cannot be read before `init()`. After `init(value)`
    /// it holds `value`, and a second `init()` is a misuse.
    pub proof fn lemma_initialized_manual_slot_is_ready(value: T)
        ensures
            Slot::<T, F>::Manual.access_misuse() == Some(Misuse::ManualUninitialized),
            Slot::<T, F>::Manual.init_misuse() is None,
            Slot::<T, F>::Manual.initialized(value) is Ready,
            Slot::<T, F>::Manual.initialized(value).value() == value,
            Slot::<T, F>::Manual.initialized(value).access_misuse() is None,
            Slot::<T, F>::Manual.initialized(value).init_misuse() == Some(Misuse::DoubleInit),
    {
    }

    /// `init()` on an automatic container is a misuse, whether or not the
    /// initializer has run. Until it has, the container cannot be read.
    pub proof fn lemma_auto_slot_refuses_manual_init(init_fn: F, after: Self)
        requires
            Slot::Prepared(init_fn).auto_init_to(after),
        ensures
            Slot::<T, F>::Prepared(init_fn).init_misuse() == Some(Misuse::ManualInitOnAuto),
            Slot::<T, F>::Prepared(init_fn).access_misuse() == Some(Misuse::AutoUninitialized),
            after.init_misuse() is Some,
    {
    }

    /// An automatic initialization leaves a manual container as it was:
    /// `init(value)` is still in order and gives it `value`.
    pub proof fn lemma_trigger_skips_manual_slot(after: Self, value: T)
        requires
            Slot::<T, F>::Manual.auto_init_to(after),
        ensures
            after == Slot::<T, F>::Manual,
            after.init_misuse() is None,
            after.initialized(value).value() == value,
    {
    }

    /// Neither initialization leaves the placeholder behind.
    pub proof fn lemma_placeholder_is_never_left(before: Self, after: Self, value: T)
        requires
            before.auto_init_to(after),
        ensures
            !(after is Initializing),
            !(before.initialized(value) is Initializing),
    {
    }
}

impl<T, F: FnOnce() -> T> OnReady<T, F> {
    /// Schedules automatic initialization before `ready()`: stores `init_fn`
    /// and does not call it.
    pub fn new(init_fn: F) -> (slot: Self)
        ensures
            slot@ == Slot::<T, F>::Prepared(init_fn),
    {
        OnReady { state: InitState::AutoPrepared { initializer: init_fn } }
    }

    /// Runs automatic initialization.
    ///
    /// A manual container is skipped. An automatic one has its initializer
    /// taken out and called, once, and holds what the call returned. The
    /// container must not be initialized already.
    pub fn init_auto(&mut self)
        requires
            old(self)@ is Manual || old(self)@ is Prepared,
            old(self)@ matches Slot::Prepared(f) ==> call_requires(f, ()),
        ensures
            old(self)@.auto_init_to(final(self)@),
    {
        // Two steps: the swap below must find an initializer, and nothing else, to take out.
        match &self.state {
            InitState::ManualUninitialized => {
                return ;
            },
            InitState::AutoPrepared { .. } => {},
            _ => unreached(),
        }
        // The initializer can only be called once it is owned, so a placeholder takes its place.
        let mut taken = InitState::AutoInitializing;
        core::mem::swap(&mut self.state, &mut taken);
        match taken {
            InitState::AutoPrepared { initializer } => {
                self.state = InitState::Initialized { value: initializer() };
            },
            _ => unreached(),
        }
    }
}

impl<T: Property, F> OnReady<T, F> {
    /// Reads the property from the value of an initialized container: the
    /// result is what the value's own `get_property` returns.
    pub fn get_property(&self) -> (out: T::Intermediate)
        requires
            self@ is Ready,
        ensures
            call_ensures(T::get_property, (&self@.value(),), out),
    {
        self.deref().get_property()
    }

    /// Stores the property in the value of an initialized container: the
    /// value is changed by its own `set_property`, and by nothing else.
    pub fn set_property(&mut self, value: T::Intermediate)
        requires
            old(self)@ is Ready,
        ensures
            final(self)@ is Ready,
            exists|target: &mut T|
                *target == old(self)@.value() && *final(target) == final(self)@.value()
                    && #[trigger] call_ensures(T::set_property, (target, value), ()),
    {
        let target = self.deref_mut();
        target.set_property(value);
    }

    /// The hint of the value's type.
    pub fn property_hint() -> (info: PropertyHintInfo)
        ensures
            call_ensures(T::property_hint, (), info),
    {
        T::property_hint()
    }
}

impl<T: Export, F> OnReady<T, F> {
    /// The export description of the value's type.
    pub fn default_export_info() -> (info: PropertyHintInfo)
        ensures
            call_ensures(T::default_export_info, (), info),
    {
        T::default_export_info()
    }
}

} // verus!
