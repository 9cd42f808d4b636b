//! Various actors and actor wrappers to provide support for common operations. Actor wrappers work
//! in a similar fashion to the iterator wrapper types returned by many of the methods on
//! [`Iterator`].
//!
//! This collection is meant to reflect common usage patterns.

use vstd::prelude::*;

use crate::compat::Sendable;
use crate::ActorState;

verus! {

/// This actor wraps another actor and provides panic catching.
/// Should the actor state panic during any of its methods, the panic is caught, and the actor does
/// not die.
///
/// Since the future returned by the inner state's actor method might not be safe to unwind through,
/// any panic will lead to the old state being dropped and a new one being created.
/// As such, a way to create a new state is also required.
///
/// Note: Panics are not caught while the actor finalizes.
pub struct PanicCatcher<A, F> {
    // The only time this is ever `None` is when it is starting up or processing a message.
    inner: Option<A>,
    create: F,
}

impl<A, F> PanicCatcher<A, F> {
    /// The inner state, unless one of its methods is running.
    pub closed spec fn inner(self) -> Option<A> {
        self.inner
    }

    /// The way to create a new state.
    pub closed spec fn create(self) -> F {
        self.create
    }

    /// Takes the inner state out, to run one of its methods.
    pub fn begin(&mut self) -> (state: A)
        requires
            old(self).inner() is Some,
        ensures
            old(self).inner() == Some(state),
            final(self).inner() is None,
            final(self).create() == old(self).create(),
    {
        self.inner.take().unwrap()
    }

    /// Releases the inner state for good, to run the method that finalizes it.
    pub fn release(self) -> (state: A)
        requires
            self.inner() is Some,
        ensures
            self.inner() == Some(state),
    {
        self.inner.unwrap()
    }
}

impl<A, F> ActorState for PanicCatcher<A, F> where A: ActorState, F: Sendable + FnMut() -> A {
    type Message = A::Message;

    type ActorKind = A::ActorKind;
}

impl<A: Default> PanicCatcher<A, ()> {
    /// Wraps the given state. New states are created with the default method of their type.
    pub fn new(state: A) -> (catcher: PanicCatcher<A, impl FnMut() -> A>)
        ensures
            catcher.inner() == Some(state),
            call_requires(A::default, ()) ==> call_requires(catcher.create(), ()),
            forall|created: A| #[trigger]
                call_ensures(catcher.create(), (), created) ==> call_ensures(
                    A::default,
                    (),
                    created,
                ),
    {
        PanicCatcher { inner: Some(state), create: A::default }
    }
}

impl<A, F> PanicCatcher<A, F> where F: FnMut() -> A {
    /// Puts a state back after one of its methods has run. If the method panicked, there is none
    /// to put back, and a new one is created. Nothing is created otherwise, and it need not even be
    /// possible to.
    pub fn settle(&mut self, outcome: Option<A>)
        requires
            outcome is None ==> call_requires(old(self).create(), ()),
        ensures
            match outcome {
                Some(state) => {
                    &&& final(self).inner() == Some(state)
                    &&& final(self).create() == old(self).create()
                },
                None => final(self).inner() matches Some(state) && call_ensures(
                    old(self).create(),
                    (),
                    state,
                ),
            },
            outcome is None ==> call_requires(final(self).create(), ()),
    {
        self.inner = Some(
            match outcome {
                Some(state) => state,
                None => (self.create)(),
            },
        );
    }
}

/// A catcher is the state and the way to create one that it holds.
proof fn law_catcher_is_what_it_holds<A, F>(catcher: PanicCatcher<A, F>)
    ensures
        catcher.inner() == catcher.inner,
        catcher.create() == catcher.create,
{
}

/// A state that is taken out to run one of its methods is put back as it comes out, whatever it is.
/// If the method panicked, and only then, a new one is created in its place, in the way that the
/// catcher knows. The state that is released is the one that is held.
pub proof fn law_state_survives_panics<A, F>() where F: FnMut() -> A
    ensures
        forall|catcher: &mut PanicCatcher<A, F>, state: A| #[trigger]
            call_ensures(PanicCatcher::<A, F>::begin, (catcher,), state) ==> {
                &&& catcher.inner() == Some(state)
                &&& final(catcher).inner() is None
                &&& final(catcher).create() == catcher.create()
            },
        forall|catcher: PanicCatcher<A, F>, state: A| #[trigger]
            call_ensures(PanicCatcher::<A, F>::release, (catcher,), state) ==> catcher.inner()
                == Some(state),
        forall|catcher: &mut PanicCatcher<A, F>, outcome: Option<A>| #[trigger]
            call_ensures(PanicCatcher::<A, F>::settle, (catcher, outcome), ()) ==> {
                &&& outcome is Some ==> final(catcher).inner() == outcome
                &&& outcome is Some ==> final(catcher).create() == catcher.create()
                &&& outcome is None ==> final(catcher).inner() is Some && call_ensures(
                    catcher.create(),
                    (),
                    final(catcher).inner()->0,
                )
            },
{
}

/// A state can be put back at any time, and where it panicked a new one can be created as long as the
/// way to create one can be called.
pub proof fn law_catcher_can_always_settle<A, F>() where F: FnMut() -> A
    ensures
        forall|catcher: &mut PanicCatcher<A, F>, outcome: Option<A>|
            outcome is Some || call_requires(catcher.create(), ()) ==> #[trigger] call_requires(
                PanicCatcher::<A, F>::settle,
                (catcher, outcome),
            ),
        forall|catcher: &mut PanicCatcher<A, F>|
            catcher.inner() is Some ==> #[trigger] call_requires(
                PanicCatcher::<A, F>::begin,
                (catcher,),
            ),
        forall|catcher: PanicCatcher<A, F>|
            catcher.inner() is Some ==> #[trigger] call_requires(
                PanicCatcher::<A, F>::release,
                (catcher,),
            ),
{
}

} // verus!
