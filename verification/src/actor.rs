//! Actors that are built from plain functions: one that acts on messages, and pairs of which the
//! first says when something is to happen and the second what.

use std::future::Future;
use std::task::Context;
use std::task::Poll;

use futures::task::FutureObj;
use tokio::sync::mpsc;
use vstd::multiset::Multiset;
use vstd::prelude::*;

use crate::compat::SendableFuture;
use crate::pollset::boxed;
use crate::pollset::pick;
use crate::pollset::go_on;
use crate::pollset::went_on;
use crate::pollset::Tasks;

verus! {

/// The state of an actor.
pub trait ActorState {
    /// The type that inbound messages to the actor will be.
    type Message: Send;
}

/// An actor that acts on the messages it receives, and that has behaviors: over and over, it waits
/// for something and then does something.
#[verifier::reject_recursive_types(T)]
pub struct Actor<T: ActorState, A, F, G> {
    state: T,
    receiver: mpsc::UnboundedReceiver<T::Message>,
    action: A,
    futures: Vec<(F, G)>,
}

impl<T: ActorState, A, F, G> Actor<T, A, F, G> {
    /// The state of the actor.
    pub closed spec fn state(self) -> T {
        self.state
    }

    /// The channel that messages arrive on.
    pub closed spec fn receiver(self) -> mpsc::UnboundedReceiver<T::Message> {
        self.receiver
    }

    /// What is done with a message.
    pub closed spec fn action(self) -> A {
        self.action
    }

    /// What is waited for, and what is then done.
    pub closed spec fn behaviors(self) -> Seq<(F, G)> {
        self.futures@
    }
}

/// If the action can be called on any state with any message.
pub open spec fn acts<T: ActorState, A>(action: A) -> bool where A: FnMut(&mut T, T::Message) {
    forall|state: &mut T, msg: T::Message| #[trigger] call_requires(action, (state, msg))
}

/// If each behavior can be called on any state.
pub open spec fn behaves<T, F, G, Fut, Gut>(behaviors: Seq<(F, G)>) -> bool where
    F: Fn(&T) -> Fut,
    G: Fn(&T) -> Gut,
 {
    forall|i: int, state: &T|
        #![trigger behaviors[i], call_requires(behaviors[i].0, (state,))]
        #![trigger behaviors[i], call_requires(behaviors[i].1, (state,))]
        0 <= i < behaviors.len() ==> {
            &&& call_requires(behaviors[i].0, (state,))
            &&& call_requires(behaviors[i].1, (state,))
        }
}

/// If the behavior with this number was called on this state to say what it waits for, and if the
/// wait for that is what was added to `before`.
pub open spec fn began<T, F, G, Fut>(
    behaviors: Seq<(F, G)>,
    number: usize,
    state: T,
    before: Tasks,
    after: Tasks,
) -> bool where F: Fn(&T) -> Fut, Fut: SendableFuture + Future<Output = ()> {
    exists|fut: Fut|
        {
            &&& #[trigger] call_ensures(behaviors[number as int].0, (&state,), fut)
            &&& before.gained::<Fut, ()>(fut, number, after)
        }
}

/// If each behavior was called on this state, in order, and began to wait, with what is waited for
/// as in `trail` before, between and after that.
pub open spec fn began_all<T, F, G, Fut>(
    behaviors: Seq<(F, G)>,
    state: T,
    trail: Seq<Tasks>,
) -> bool where F: Fn(&T) -> Fut, Fut: SendableFuture + Future<Output = ()> {
    &&& trail.len() == behaviors.len() + 1
    &&& trail.first().numbers() == Multiset::<usize>::empty()
    &&& forall|i: int|
        0 <= i < behaviors.len() ==> began::<T, F, G, Fut>(
            behaviors,
            i as usize,
            state,
            #[trigger] trail[i],
            trail[i + 1],
        )
}

impl<T, A, F, G, Fut, Gut> Actor<T, A, F, G> where
    T: ActorState,
    A: FnMut(&mut T, T::Message),
    F: Fn(&T) -> Fut,
    G: Fn(&T) -> Gut,
    Fut: SendableFuture + Future<Output = ()>,
    Gut: SendableFuture + Future<Output = ()>,
 {
    /// Constructs a builder for an actor with the given state and action.
    pub fn builder(state: T, action: A) -> (builder: ActorBuilder<T, A, F, G>)
        ensures
            builder.state() == state,
            builder.action() == action,
            builder.behaviors() == Seq::<(F, G)>::empty(),
            builder.opened(),
    {
        ActorBuilder::new(state, action)
    }

    /// Starts the actor: from here on, every behavior waits for its time.
    pub fn perform(self) -> (performance: Performance<T, A, F, G>)
        requires
            acts::<T, A>(self.action()),
            behaves::<T, F, G, Fut, Gut>(self.behaviors()),
        ensures
            performance.actor() == self,
            performance.doing() is None,
            performance.held() is None,
            performance.in_order(),
            exists|trail: Seq<Tasks>| #[trigger]
                began_all::<T, F, G, Fut>(self.behaviors(), self.state(), trail) && trail.last()
                    == performance.running(),
    {
        let mut running = Tasks::new();
        let ghost mut trail = seq![running];
        let mut i: usize = 0;
        while i < self.futures.len()
            invariant
                i <= self.futures.len(),
                behaves::<T, F, G, Fut, Gut>(self.futures@),
                forall|j: usize| #[trigger]
                    running.numbers().count(j) == (if j < i {
                        1nat
                    } else {
                        0
                    }),
                trail.len() == i + 1,
                trail.first().numbers() == Multiset::<usize>::empty(),
                trail.last() == running,
                forall|j: int|
                    0 <= j < i ==> began::<T, F, G, Fut>(
                        self.futures@,
                        j as usize,
                        self.state,
                        #[trigger] trail[j],
                        trail[j + 1],
                    ),
            decreases self.futures.len() - i,
        {
            let (when, _) = &self.futures[i];
            let fut = (when)(&self.state);
            let ghost awaited = fut;
            let ghost before = running;
            running.push(fut, i);
            proof {
                assert(call_ensures(self.futures@[i as int].0, (&self.state,), awaited));
                assert(began::<T, F, G, Fut>(self.futures@, i, self.state, before, running));
                trail = trail.push(running);
            }
            i += 1;
        }
        assert(began_all::<T, F, G, Fut>(self.behaviors(), self.state(), trail));
        Performance { actor: self, running, current: None, message: None }
    }
}

/// An actor that has been started.
#[verifier::reject_recursive_types(T)]
pub struct Performance<T: ActorState, A, F, G> {
    actor: Actor<T, A, F, G>,
    /// What the behaviors wait for, numbered by behavior.
    running: Tasks,
    /// The behavior whose time has come, and what it does, until that is done.
    current: Option<(usize, FutureObj<'static, ()>)>,
    /// The message that arrived, until it is acted on.
    message: Option<T::Message>,
}

impl<T: ActorState, A, F, G> Performance<T, A, F, G> {
    /// The actor.
    pub closed spec fn actor(self) -> Actor<T, A, F, G> {
        self.actor
    }

    /// What the behaviors wait for.
    pub closed spec fn running(self) -> Tasks {
        self.running
    }

    /// The behavior whose time has come, and what it does, until that is done.
    pub closed spec fn doing(self) -> Option<(usize, FutureObj<'static, ()>)> {
        self.current
    }

    /// The message that arrived, until it is acted on.
    pub closed spec fn held(self) -> Option<T::Message> {
        self.message
    }

    /// What the actor is in the middle of.
    pub open spec fn stance(self) -> Stance {
        Stance { busy: self.busy_with(), holding: self.held() is Some }
    }

    /// The behavior whose time has come, until it is done.
    pub open spec fn busy_with(self) -> Option<usize> {
        match self.doing() {
            Some((number, _)) => Some(number),
            None => None,
        }
    }

    /// If every behavior either waits for its time, and does so once, or is the one that is being
    /// done, and if no message arrived while one is.
    pub open spec fn in_order(self) -> bool {
        &&& tidy(self.running().numbers(), self.busy_with(), self.actor().behaviors().len())
        &&& self.held() is Some ==> self.doing() is None
    }
}

/// If of this many behaviors each but the busy one is waiting, once, and nothing else is.
pub open spec fn tidy(waiting: Multiset<usize>, busy: Option<usize>, behaviors: nat) -> bool {
    &&& busy matches Some(number) ==> number < behaviors
    &&& forall|i: usize| #[trigger]
        waiting.count(i) == (if i < behaviors && busy != Some(i) {
            1nat
        } else {
            0
        })
}

proof fn lemma_rousing_keeps_tidy(waiting: Multiset<usize>, number: usize, behaviors: nat)
    requires
        tidy(waiting, None, behaviors),
        waiting.contains(number),
    ensures
        number < behaviors,
        tidy(waiting.remove(number), Some(number), behaviors),
{
    assert(waiting.count(number) > 0);
}

proof fn lemma_repeating_keeps_tidy(waiting: Multiset<usize>, number: usize, behaviors: nat)
    requires
        tidy(waiting, Some(number), behaviors),
    ensures
        tidy(waiting.insert(number), None, behaviors),
{
}

/// What an actor that has been started did when it was polled.
pub enum Step {
    /// A message arrived, which it acts on next.
    Received,
    /// It acted on the message that arrived.
    Acted,
    /// The time of the behavior with this number has come.
    Roused(usize),
    /// The behavior with this number is done, and waits for its time again.
    Repeated(usize),
    /// Nothing, there is nothing to do yet.
    Waited,
    /// Nothing, and there will never be anything to do.
    Starved,
}

/// What an actor that has been started is in the middle of.
pub struct Stance {
    /// The behavior that is being done, if one is.
    pub busy: Option<usize>,
    /// If a message arrived and has not been acted on.
    pub holding: bool,
}

impl Step {
    /// If an actor with this many behaviors can take this step: one that holds a message acts on it,
    /// one that is busy with a behavior goes on with that, and any other one looks for something to
    /// do.
    pub open spec fn fits(self, stance: Stance, behaviors: nat) -> bool {
        if stance.holding {
            self is Acted
        } else {
            match stance.busy {
                Some(number) => self == Step::Repeated(number) || self is Waited,
                None => match self {
                    Step::Received | Step::Waited | Step::Starved => true,
                    Step::Roused(number) => number < behaviors,
                    Step::Acted | Step::Repeated(_) => false,
                },
            }
        }
    }

    /// What the actor is in the middle of after this step.
    pub open spec fn leads_to(self, stance: Stance) -> Stance {
        match self {
            Step::Received => Stance { holding: true, ..stance },
            Step::Acted => Stance { holding: false, ..stance },
            Step::Roused(number) => Stance { busy: Some(number), ..stance },
            Step::Repeated(_) => Stance { busy: None, ..stance },
            Step::Waited | Step::Starved => stance,
        }
    }
}

/// If a poll of the channel that messages arrive on came back without one.
pub open spec fn silent<M>(heard: Poll<Option<M>>) -> bool {
    heard is Pending || heard == Poll::Ready(None::<M>)
}

/// If a poll of what the behaviors wait for rouses none of them, or was not made.
pub open spec fn sleeps(before: Tasks, after: Tasks) -> bool {
    before.rests(after) || before.said(Poll::Ready(None), after)
}

/// If the behavior whose time has come went on when polled in this context: it is done, and waits for
/// its time again, or it is still being done.
pub open spec fn proceeded<T: ActorState, A, F, G, Fut>(
    before: Performance<T, A, F, G>,
    context: Context<'_>,
    step: Step,
    after: Performance<T, A, F, G>,
) -> bool where F: Fn(&T) -> Fut, Fut: SendableFuture + Future<Output = ()> {
    &&& after.actor() == before.actor()
    &&& after.held() == before.held()
    &&& before.doing() matches Some((number, task)) && match step {
        Step::Repeated(repeated) => {
            &&& repeated == number
            &&& went_on(task, context, None)
            &&& after.doing() is None
            &&& began::<T, F, G, Fut>(
                before.actor().behaviors(),
                number,
                before.actor().state(),
                before.running(),
                after.running(),
            )
        },
        Step::Waited => {
            &&& after.doing() matches Some((still, left)) && still == number && went_on(
                task,
                context,
                Some(left),
            )
            &&& after.running() == before.running()
        },
        _ => false,
    }
}

/// If the behavior with this number was called on this state to say what it does, and this is what.
pub closed spec fn roused<T, F, G, Gut>(
    behaviors: Seq<(F, G)>,
    number: usize,
    state: T,
    task: FutureObj<'static, ()>,
) -> bool where G: Fn(&T) -> Gut, Gut: SendableFuture + Future<Output = ()> {
    exists|fut: Gut|
        {
            &&& #[trigger] call_ensures(behaviors[number as int].1, (&state,), fut)
            &&& call_ensures(boxed::<Gut, ()>, (fut,), task)
        }
}

impl<T, A, F, G, Fut, Gut> Performance<T, A, F, G> where
    T: ActorState,
    A: FnMut(&mut T, T::Message),
    F: Fn(&T) -> Fut,
    G: Fn(&T) -> Gut,
    Fut: SendableFuture + Future<Output = ()>,
    Gut: SendableFuture + Future<Output = ()>,
 {
    /// Acts on a message.
    fn act(&mut self, msg: T::Message)
        requires
            acts::<T, A>(old(self).actor().action()),
        ensures
            exists|state: &mut T|
                {
                    &&& #[trigger] call_ensures(old(self).actor().action(), (state, msg), ())
                    &&& *state == old(self).actor().state()
                    &&& *final(state) == final(self).actor().state()
                },
            acts::<T, A>(final(self).actor().action()),
            final(self).actor().behaviors() == old(self).actor().behaviors(),
            final(self).actor().receiver() == old(self).actor().receiver(),
            final(self).running() == old(self).running(),
            final(self).doing() == old(self).doing(),
            final(self).held() == old(self).held(),
    {
        (self.actor.action)(&mut self.actor.state, msg);
    }

    /// Calls the behavior whose time has come to say what it does.
    fn rouse(&mut self, number: usize)
        requires
            behaves::<T, F, G, Fut, Gut>(old(self).actor().behaviors()),
            number < old(self).actor().behaviors().len(),
        ensures
            final(self).actor() == old(self).actor(),
            final(self).running() == old(self).running(),
            final(self).held() == old(self).held(),
            final(self).doing() matches Some((doing, task)) && doing == number && roused::<
                T,
                F,
                G,
                Gut,
            >(old(self).actor().behaviors(), number, old(self).actor().state(), task),
    {
        let (_, then) = &self.actor.futures[number];
        let fut = (then)(&self.actor.state);
        let ghost done = fut;
        let task: FutureObj<'static, ()> = boxed(fut);
        assert(call_ensures(self.actor.futures@[number as int].1, (&self.actor.state,), done));
        self.current = Some((number, task));
    }

    /// Goes on with the behavior whose time has come. Once it is done, it waits for its time again.
    fn proceed(&mut self, cx: &mut Context<'_>) -> (step: Step)
        requires
            behaves::<T, F, G, Fut, Gut>(old(self).actor().behaviors()),
            old(self).doing() is Some,
            old(self).in_order(),
        ensures
            final(self).in_order(),
            proceeded::<T, A, F, G, Fut>(*old(self), *old(cx), step, *final(self)),
    {
        let (number, task) = self.current.take().unwrap();
        match go_on(task, cx) {
            None => {
                let (when, _) = &self.actor.futures[number];
                let fut = (when)(&self.actor.state);
                let ghost awaited = fut;
                self.running.push(fut, number);
                assert(call_ensures(
                    self.actor.futures@[number as int].0,
                    (&self.actor.state,),
                    awaited,
                ));
                proof {
                    lemma_repeating_keeps_tidy(
                        old(self).running().numbers(),
                        number,
                        self.actor().behaviors().len(),
                    );
                }
                Step::Repeated(number)
            },
            Some(task) => {
                self.current = Some((number, task));
                Step::Waited
            },
        }
    }

    /// Polls the actor once: it acts on a message that arrived, while a behavior is being done it
    /// goes on with that, and otherwise it receives a message or rouses a behavior, whichever comes
    /// first. Which of the two is looked for first is up to chance.
    pub fn step(&mut self, cx: &mut Context<'_>) -> (step: Step)
        requires
            acts::<T, A>(old(self).actor().action()),
            behaves::<T, F, G, Fut, Gut>(old(self).actor().behaviors()),
            old(self).in_order(),
        ensures
            acts::<T, A>(final(self).actor().action()),
            final(self).actor().behaviors() == old(self).actor().behaviors(),
            final(self).in_order(),
            step.fits(old(self).stance(), old(self).actor().behaviors().len()),
            final(self).stance() == step.leads_to(old(self).stance()),
            !(step is Acted) ==> {
                &&& final(self).actor().state() == old(self).actor().state()
                &&& final(self).actor().action() == old(self).actor().action()
            },
            match step {
                Step::Acted => {
                    &&& final(self).actor().receiver() == old(self).actor().receiver()
                    &&& final(self).running() == old(self).running()
                    &&& exists|state: &mut T|
                        {
                            &&& #[trigger] call_ensures(
                                old(self).actor().action(),
                                (state, old(self).held()->0),
                                (),
                            )
                            &&& *state == old(self).actor().state()
                            &&& *final(state) == final(self).actor().state()
                        }
                },
                Step::Received => {
                    &&& sleeps(old(self).running(), final(self).running())
                    &&& exists|
                        receiver: &mut mpsc::UnboundedReceiver<T::Message>,
                        waker: &mut Context<'_>,
                    |
                        {
                            &&& #[trigger] call_ensures(
                                mpsc::UnboundedReceiver::<T::Message>::poll_recv,
                                (receiver, waker),
                                Poll::Ready(final(self).held()),
                            )
                            &&& *receiver == old(self).actor().receiver()
                            &&& *waker == *old(cx)
                            &&& *final(receiver) == final(self).actor().receiver()
                        }
                },
                Step::Roused(number) => {
                    &&& old(self).running().said(Poll::Ready(Some(number)), final(self).running())
                    &&& old(self).running().told(
                        *old(cx),
                        Poll::Ready(Some(number)),
                        final(self).running(),
                    )
                    &&& final(self).doing() matches Some((doing, task)) && doing == number
                        && roused::<T, F, G, Gut>(
                        old(self).actor().behaviors(),
                        number,
                        old(self).actor().state(),
                        task,
                    )
                    &&& exists|fut: Gut| #[trigger]
                        call_ensures(
                            old(self).actor().behaviors()[number as int].1,
                            (&old(self).actor().state(),),
                            fut,
                        )
                    &&& {
                        ||| final(self).actor().receiver() == old(self).actor().receiver()
                        ||| exists|
                            receiver: &mut mpsc::UnboundedReceiver<T::Message>,
                            waker: &mut Context<'_>,
                            heard: Poll<Option<T::Message>>,
                        |
                            {
                                &&& #[trigger] call_ensures(
                                    mpsc::UnboundedReceiver::<T::Message>::poll_recv,
                                    (receiver, waker),
                                    heard,
                                )
                                &&& *receiver == old(self).actor().receiver()
                                &&& *waker == *old(cx)
                                &&& *final(receiver) == final(self).actor().receiver()
                                &&& silent(heard)
                            }
                    }
                },
                Step::Repeated(_) => proceeded::<T, A, F, G, Fut>(*old(self), *old(cx), step, *final(self)),
                Step::Waited | Step::Starved => {
                    if old(self).doing() is Some {
                        proceeded::<T, A, F, G, Fut>(*old(self), *old(cx), step, *final(self))
                    } else {
                        exists|
                            receiver: &mut mpsc::UnboundedReceiver<T::Message>,
                            waker: &mut Context<'_>,
                            heard: Poll<Option<T::Message>>,
                            told: Poll<Option<usize>>,
                        |
                            {
                                &&& #[trigger] call_ensures(
                                    mpsc::UnboundedReceiver::<T::Message>::poll_recv,
                                    (receiver, waker),
                                    heard,
                                )
                                &&& *receiver == old(self).actor().receiver()
                                &&& *waker == *old(cx)
                                &&& *final(receiver) == final(self).actor().receiver()
                                &&& #[trigger] old(self).running().said(
                                    told,
                                    final(self).running(),
                                )
                                &&& old(self).running().told(
                                    *old(cx),
                                    told,
                                    final(self).running(),
                                )
                                &&& silent(heard)
                                &&& if step is Starved {
                                    &&& heard is Ready
                                    &&& told == Poll::Ready(None::<usize>)
                                    &&& old(self).actor().behaviors().len() == 0
                                } else {
                                    &&& heard is Pending || told is Pending
                                    &&& told is Pending || told == Poll::Ready(None::<usize>)
                                }
                            }
                    }
                },
            },
    {
        if let Some(msg) = self.message.take() {
            self.act(msg);
            return Step::Acted;
        }
        if self.current.is_some() {
            return self.proceed(cx);
        }
        let message_first = pick(2) == 0;
        let mut heard: Poll<Option<T::Message>> = Poll::Pending;
        if message_first {
            heard = self.actor.receiver.poll_recv(cx);
            if let Poll::Ready(Some(msg)) = heard {
                self.message = Some(msg);
                return Step::Received;
            }
        }
        let told = self.running.poll(cx);
        if let Poll::Ready(Some(number)) = told {
            proof {
                lemma_rousing_keeps_tidy(
                    old(self).running().numbers(),
                    number,
                    self.actor().behaviors().len(),
                );
            }
            self.rouse(number);
            return Step::Roused(number);
        }
        if !message_first {
            heard = self.actor.receiver.poll_recv(cx);
            if let Poll::Ready(Some(msg)) = heard {
                self.message = Some(msg);
                return Step::Received;
            }
        }
        assert(old(self).running().said(told, self.running()));
        match (heard, told) {
            (Poll::Ready(None), Poll::Ready(None)) => {
                assert(self.running().numbers().count(0) == 0);
                Step::Starved
            },
            _ => Step::Waited,
        }
    }
}

/* ------ What holds of every actor that has been started ------ */

/// What an actor is in the middle of after it took these steps.
pub open spec fn stance_after(steps: Seq<Step>) -> Stance
    decreases steps.len(),
{
    if steps.len() == 0 {
        Stance { busy: None, holding: false }
    } else {
        steps.last().leads_to(stance_after(steps.drop_last()))
    }
}

/// If an actor with this many behaviors can take these steps, one after the other.
pub open spec fn is_play(steps: Seq<Step>, behaviors: nat) -> bool
    decreases steps.len(),
{
    steps.len() > 0 ==> {
        &&& is_play(steps.drop_last(), behaviors)
        &&& steps.last().fits(stance_after(steps.drop_last()), behaviors)
    }
}

/// The number of these steps that are equal to the given one.
pub open spec fn taken(steps: Seq<Step>, step: Step) -> nat
    decreases steps.len(),
{
    if steps.len() == 0 {
        0
    } else {
        taken(steps.drop_last(), step) + (if steps.last() == step {
            1nat
        } else {
            0
        })
    }
}

/// How often a behavior was called to say what it waits for: once when the actor was started, and
/// once whenever it was done.
pub open spec fn whens(steps: Seq<Step>, number: usize) -> nat {
    1 + taken(steps, Step::Repeated(number))
}

/// How often a behavior was called to say what it does: once whenever its time had come.
pub open spec fn thens(steps: Seq<Step>, number: usize) -> nat {
    taken(steps, Step::Roused(number))
}

/// The two halves of a behavior take turns: what it waits for is one call ahead of what it does, and
/// level with it while the behavior is being done.
pub proof fn law_behaviors_take_turns(steps: Seq<Step>, behaviors: nat, number: usize)
    requires
        is_play(steps, behaviors),
    ensures
        whens(steps, number) == thens(steps, number) + (if stance_after(steps).busy == Some(
            number,
        ) {
            0nat
        } else {
            1
        }),
    decreases steps.len(),
{
    if steps.len() > 0 {
        law_behaviors_take_turns(steps.drop_last(), behaviors, number);
    }
}

/// While a behavior is being done nothing else happens: no message is received or acted on, and no
/// other behavior is roused.
pub proof fn law_behavior_is_not_interrupted(steps: Seq<Step>, behaviors: nat, number: usize)
    requires
        is_play(steps, behaviors),
        steps.len() > 0,
        stance_after(steps.drop_last()).busy == Some(number),
    ensures
        steps.last() == Step::Repeated(number) || steps.last() == Step::Waited,
        !stance_after(steps).holding,
{
    lemma_one_thing_at_a_time(steps.drop_last(), behaviors);
}

/// Every message that was received is acted on once, before anything else happens.
pub proof fn law_messages_are_acted_on(steps: Seq<Step>, behaviors: nat)
    requires
        is_play(steps, behaviors),
    ensures
        taken(steps, Step::Received) == taken(steps, Step::Acted) + (if stance_after(
            steps,
        ).holding {
            1nat
        } else {
            0
        }),
        steps.len() > 0 && stance_after(steps.drop_last()).holding ==> steps.last() is Acted,
    decreases steps.len(),
{
    if steps.len() > 0 {
        law_messages_are_acted_on(steps.drop_last(), behaviors);
    }
}

proof fn lemma_one_thing_at_a_time(steps: Seq<Step>, behaviors: nat)
    requires
        is_play(steps, behaviors),
    ensures
        !(stance_after(steps).holding && stance_after(steps).busy is Some),
    decreases steps.len(),
{
    if steps.len() > 0 {
        lemma_one_thing_at_a_time(steps.drop_last(), behaviors);
    }
}

/// The builder for an [`Actor`].
#[verifier::reject_recursive_types(T)]
pub struct ActorBuilder<T: ActorState, A, F, G> {
    state: T,
    action: A,
    futures: Vec<(F, G)>,
    sender: mpsc::UnboundedSender<T::Message>,
    receiver: mpsc::UnboundedReceiver<T::Message>,
}

impl<T: ActorState, A, F, G> ActorBuilder<T, A, F, G> {
    /// The state of the actor.
    pub closed spec fn state(self) -> T {
        self.state
    }

    /// What is done with a message.
    pub closed spec fn action(self) -> A {
        self.action
    }

    /// What is waited for, and what is then done.
    pub closed spec fn behaviors(self) -> Seq<(F, G)> {
        self.futures@
    }

    /// The two halves of the channel that messages arrive on.
    pub closed spec fn channel(self) -> (
        mpsc::UnboundedSender<T::Message>,
        mpsc::UnboundedReceiver<T::Message>,
    ) {
        (self.sender, self.receiver)
    }

    /// If the two halves belong to one channel.
    pub open spec fn opened(self) -> bool {
        call_ensures(mpsc::unbounded_channel::<T::Message>, (), self.channel())
    }

    /// Constructs a builder for an actor with the given state and action.
    pub fn new(state: T, action: A) -> (builder: Self)
        ensures
            builder.state() == state,
            builder.action() == action,
            builder.behaviors() == Seq::<(F, G)>::empty(),
            builder.opened(),
    {
        let (sender, receiver) = mpsc::unbounded_channel();
        Self { state, sender, receiver, action, futures: Vec::new() }
    }

    /// Adds a behavior: over and over, the actor waits for what `when` returns and then for what
    /// `then` returns.
    pub fn chain_behavior(self, when: F, then: G) -> (builder: Self)
        ensures
            builder.state() == self.state(),
            builder.action() == self.action(),
            builder.behaviors() == self.behaviors().push((when, then)),
            builder.channel() == self.channel(),
    {
        let mut builder = self;
        builder.futures.push((when, then));
        builder
    }

    /// Builds the actor. Messages that are put into the returned sender arrive at the actor.
    pub fn build(self) -> (r: (mpsc::UnboundedSender<T::Message>, Actor<T, A, F, G>))
        ensures
            (r.0, r.1.receiver()) == self.channel(),
            r.1.state() == self.state(),
            r.1.action() == self.action(),
            r.1.behaviors() == self.behaviors(),
    {
        let actor = Actor {
            state: self.state,
            receiver: self.receiver,
            action: self.action,
            futures: self.futures,
        };
        (self.sender, actor)
    }
}

/* ------ What is behind the words ------ */

/// When the time of a behavior has come, it is that very behavior which is called, whatever its
/// number, on the state as it is, to say what it does.
pub proof fn law_roused_behavior_is_the_one_called<T, F, G, Gut>(
    behaviors: Seq<(F, G)>,
    number: usize,
    state: T,
    task: FutureObj<'static, ()>,
) where G: Fn(&T) -> Gut, Gut: SendableFuture + Future<Output = ()>
    requires
        roused::<T, F, G, Gut>(behaviors, number, state, task),
    ensures
        exists|fut: Gut| #[trigger] call_ensures(behaviors[number as int].1, (&state,), fut),
{
}

/// What is then done is what the behavior said, boxed.
pub(crate) proof fn law_what_is_done_is_what_was_said<T, F, G, Gut>(
    behaviors: Seq<(F, G)>,
    number: usize,
    state: T,
    task: FutureObj<'static, ()>,
) where G: Fn(&T) -> Gut, Gut: SendableFuture + Future<Output = ()>
    requires
        roused::<T, F, G, Gut>(behaviors, number, state, task),
    ensures
        exists|fut: Gut|
            {
                &&& #[trigger] call_ensures(behaviors[number as int].1, (&state,), fut)
                &&& call_ensures(boxed::<Gut, ()>, (fut,), task)
            },
{
}

/// A behavior that begins to wait is called itself, whatever its number, on the state as it is, to say
/// what it waits for, and that is what is added to what the others wait for, under that number.
pub proof fn law_waiting_behavior_is_the_one_called<T, F, G, Fut>(
    behaviors: Seq<(F, G)>,
    number: usize,
    state: T,
    before: Tasks,
    after: Tasks,
) where F: Fn(&T) -> Fut, Fut: SendableFuture + Future<Output = ()>
    requires
        began::<T, F, G, Fut>(behaviors, number, state, before, after),
    ensures
        exists|fut: Fut|
            {
                &&& #[trigger] call_ensures(behaviors[number as int].0, (&state,), fut)
                &&& before.gained::<Fut, ()>(fut, number, after)
            },
{
}

/// An actor that is started calls every one of its behaviors, however many there are, on its state, to
/// say what it waits for, and each is added under its own number to what was nothing at first.
pub proof fn law_every_behavior_begins<T, F, G, Fut>(
    behaviors: Seq<(F, G)>,
    state: T,
    trail: Seq<Tasks>,
    number: usize,
) where F: Fn(&T) -> Fut, Fut: SendableFuture + Future<Output = ()>
    requires
        began_all::<T, F, G, Fut>(behaviors, state, trail),
        number < behaviors.len(),
    ensures
        trail.len() == behaviors.len() + 1,
        trail[0].numbers() == Multiset::<usize>::empty(),
        exists|fut: Fut|
            {
                &&& #[trigger] call_ensures(behaviors[number as int].0, (&state,), fut)
                &&& trail[number as int].gained::<Fut, ()>(fut, number, trail[number + 1])
            },
{
    assert(began::<T, F, G, Fut>(
        behaviors,
        number,
        state,
        trail[number as int],
        trail[number + 1],
    ));
}

/// While a behavior is being done, a step polls what it does, once and in the context of the caller.
/// If that is done, the very same behavior is called to say what it waits for next; if not, what is
/// left of it is gone on with later, and nothing else changes.
pub proof fn law_behavior_is_gone_on_with<T: ActorState, A, F, G, Fut>(
    before: Performance<T, A, F, G>,
    context: Context<'_>,
    step: Step,
    after: Performance<T, A, F, G>,
) where F: Fn(&T) -> Fut, Fut: SendableFuture + Future<Output = ()>
    requires
        proceeded::<T, A, F, G, Fut>(before, context, step, after),
    ensures
        before.doing() is Some,
        after.actor() == before.actor(),
        after.held() == before.held(),
        ({
            let (number, task) = before.doing()->0;
            match after.doing() {
                None => {
                    &&& step == Step::Repeated(number)
                    &&& went_on(task, context, None)
                    &&& exists|fut: Fut|
                        {
                            &&& #[trigger] call_ensures(
                                before.actor().behaviors()[number as int].0,
                                (&before.actor().state(),),
                                fut,
                            )
                            &&& before.running().gained::<Fut, ()>(fut, number, after.running())
                        }
                },
                Some((still, left)) => {
                    &&& step == Step::Waited
                    &&& still == number
                    &&& went_on(task, context, Some(left))
                    &&& after.running() == before.running()
                },
            }
        }),
{
}

/// Every behavior but the one that is being done waits, exactly once, however many there are.
pub proof fn law_every_other_behavior_waits<T: ActorState, A, F, G>(
    performance: Performance<T, A, F, G>,
    number: usize,
)
    requires
        performance.in_order(),
    ensures
        performance.running().numbers().count(number) == (if number
            < performance.actor().behaviors().len() && !(performance.doing() matches Some((doing, _))
            && doing == number) {
            1nat
        } else {
            0
        }),
        performance.doing() matches Some((doing, _)) ==> doing
            < performance.actor().behaviors().len() && performance.held() is None,
        performance.stance().holding <==> performance.held() is Some,
        performance.stance().busy is Some <==> performance.doing() is Some,
{
}

/// A poll that rouses no behavior says that none is due, or that there are none.
pub proof fn law_nothing_is_due(before: Tasks, after: Tasks)
    requires
        sleeps(before, after),
    ensures
        ({
            ||| after == before
            ||| exists|context: Context<'_>| #[trigger] before.told(context, Poll::Pending, after)
            ||| exists|context: Context<'_>| #[trigger]
                before.told(context, Poll::Ready(None), after)
        }),
{
}

/// A poll of the channel that brings no message says that there is none yet, or never will be.
pub proof fn law_silence<M>(heard: Poll<Option<M>>)
    ensures
        silent(heard) <==> !(heard matches Poll::Ready(Some(_))),
{
}

/// An actor can be started and stepped whatever its action and its behaviors are and however many
/// there are, as long as each can be called.
pub proof fn law_anything_callable_will_do<T: ActorState, A, F, G, Fut, Gut>(
    action: A,
    behaviors: Seq<(F, G)>,
) where
    A: FnMut(&mut T, T::Message),
    F: Fn(&T) -> Fut,
    G: Fn(&T) -> Gut,

    ensures
        (forall|state: &mut T, msg: T::Message| #[trigger] call_requires(action, (state, msg)))
            ==> acts::<T, A>(action),
        (forall|i: int, state: &T|
            #![trigger behaviors[i], call_requires(behaviors[i].0, (state,))]
            #![trigger behaviors[i], call_requires(behaviors[i].1, (state,))]
            0 <= i < behaviors.len() ==> call_requires(behaviors[i].0, (state,)) && call_requires(
                behaviors[i].1,
                (state,),
            )) ==> behaves::<T, F, G, Fut, Gut>(behaviors),
{
}

/// An actor, its builder and its performance are what they hold.
proof fn law_actor_is_what_it_holds<T: ActorState, A, F, G>(
    actor: Actor<T, A, F, G>,
    builder: ActorBuilder<T, A, F, G>,
    performance: Performance<T, A, F, G>,
)
    ensures
        actor.state() == actor.state,
        actor.receiver() == actor.receiver,
        actor.action() == actor.action,
        actor.behaviors() == actor.futures@,
        builder.state() == builder.state,
        builder.action() == builder.action,
        builder.behaviors() == builder.futures@,
        builder.channel() == (builder.sender, builder.receiver),
        builder.opened() <==> call_ensures(
            mpsc::unbounded_channel::<T::Message>,
            (),
            (builder.sender, builder.receiver),
        ),
        performance.actor() == performance.actor,
        performance.running() == performance.running,
        performance.doing() == performance.current,
        performance.held() == performance.message,
{
}

/// A builder keeps what it is given: the state, the action and the behaviors, each behind the ones
/// before it, and the two halves of one channel. The actor that it builds has all of that, and the
/// sender that comes with it feeds the receiver of the actor.
pub proof fn law_builder<T: ActorState, A, F, G>()
    ensures
        forall|state: T, action: A, builder: ActorBuilder<T, A, F, G>| #[trigger]
            call_ensures(ActorBuilder::<T, A, F, G>::new, (state, action), builder) ==> {
                &&& builder.state() == state
                &&& builder.action() == action
                &&& builder.behaviors().len() == 0
                &&& call_ensures(mpsc::unbounded_channel::<T::Message>, (), builder.channel())
            },
        forall|
            before: ActorBuilder<T, A, F, G>,
            when: F,
            then: G,
            after: ActorBuilder<T, A, F, G>,
        |
            #[trigger] call_ensures(
                ActorBuilder::<T, A, F, G>::chain_behavior,
                (before, when, then),
                after,
            ) ==> {
                &&& after.behaviors().len() == before.behaviors().len() + 1
                &&& after.behaviors().last() == (when, then)
                &&& forall|i: int|
                    0 <= i < before.behaviors().len() ==> #[trigger] after.behaviors()[i]
                        == before.behaviors()[i]
                &&& after.state() == before.state()
                &&& after.action() == before.action()
                &&& after.channel() == before.channel()
            },
        forall|
            builder: ActorBuilder<T, A, F, G>,
            r: (mpsc::UnboundedSender<T::Message>, Actor<T, A, F, G>),
        |
            #[trigger] call_ensures(ActorBuilder::<T, A, F, G>::build, (builder,), r) ==> {
                &&& r.0 == builder.channel().0
                &&& r.1.receiver() == builder.channel().1
                &&& r.1.state() == builder.state()
                &&& r.1.action() == builder.action()
                &&& r.1.behaviors() == builder.behaviors()
            },
{
}

/// An actor that is started is as it was, with nothing done and no message received, and every one of
/// its behaviors waits for what it said on the state of the actor.
pub proof fn law_started_actor<T, A, F, G, Fut, Gut>() where
    T: ActorState,
    A: FnMut(&mut T, T::Message),
    F: Fn(&T) -> Fut,
    G: Fn(&T) -> Gut,
    Fut: SendableFuture + Future<Output = ()>,
    Gut: SendableFuture + Future<Output = ()>,

    ensures
        forall|actor: Actor<T, A, F, G>, performance: Performance<T, A, F, G>| #[trigger]
            call_ensures(Actor::<T, A, F, G>::perform, (actor,), performance) ==> {
                &&& performance.actor() == actor
                &&& performance.doing() is None
                &&& performance.held() is None
                &&& exists|trail: Seq<Tasks>| #[trigger]
                    began_all::<T, F, G, Fut>(actor.behaviors(), actor.state(), trail)
                        && trail.last() == performance.running()
                &&& forall|number: usize| #[trigger]
                    performance.running().numbers().count(number) == (if number
                        < actor.behaviors().len() {
                        1nat
                    } else {
                        0
                    })
            },
{
}

/// What a step can be: an actor that holds a message acts on it, one that does a behavior goes on with
/// that one, and any other one receives a message, rouses a behavior that it has, waits, or has nothing
/// to wait for, which is so only without behaviors. A message is held after it was received until it
/// is acted on, and a behavior is being done after it was roused until it waits again.
pub proof fn law_steps<T, A, F, G, Fut, Gut>() where
    T: ActorState,
    A: FnMut(&mut T, T::Message),
    F: Fn(&T) -> Fut,
    G: Fn(&T) -> Gut,
    Fut: SendableFuture + Future<Output = ()>,
    Gut: SendableFuture + Future<Output = ()>,

    ensures
        forall|actor: &mut Performance<T, A, F, G>, cx: &mut Context<'_>, step: Step| #[trigger]
            call_ensures(Performance::<T, A, F, G>::step, (actor, cx), step) ==> {
                &&& step is Acted <==> actor.held() is Some
                &&& actor.held() is None && actor.doing() is Some ==> {
                    ||| step == Step::Repeated((actor.doing()->0).0)
                    ||| step is Waited
                }
                &&& actor.held() is None && actor.doing() is None ==> !(step is Repeated)
                &&& actor.held() is Some || actor.doing() is Some ==> {
                    !(step is Received || step is Roused || step is Starved)
                }
                &&& step matches Step::Roused(number) ==> number < actor.actor().behaviors().len()
                &&& step is Starved ==> actor.actor().behaviors().len() == 0
                &&& final(actor).held() is Some <==> step is Received
                &&& step matches Step::Roused(number) ==> final(actor).doing() is Some
                    && (final(actor).doing()->0).0 == number
                &&& step is Repeated ==> final(actor).doing() is None
                &&& step is Received || step is Acted || step is Starved ==> {
                    final(actor).doing() is Some <==> actor.doing() is Some
                }
                &&& final(actor).actor().behaviors() == actor.actor().behaviors()
                &&& !(step is Acted) ==> final(actor).actor().state() == actor.actor().state()
            },
{
}

/// When a behavior is roused, what the actor does from then on comes from calling that very behavior,
/// the one with the number that its wait yielded, whatever the number, on the state as it is.
pub proof fn law_rousing<T, A, F, G, Fut, Gut>() where
    T: ActorState,
    A: FnMut(&mut T, T::Message),
    F: Fn(&T) -> Fut,
    G: Fn(&T) -> Gut,
    Fut: SendableFuture + Future<Output = ()>,
    Gut: SendableFuture + Future<Output = ()>,

    ensures
        forall|actor: &mut Performance<T, A, F, G>, cx: &mut Context<'_>, step: Step, number: usize|
            #![trigger
                call_ensures(Performance::<T, A, F, G>::step, (actor, cx), step),
                actor.actor().behaviors()[number as int]]
            call_ensures(Performance::<T, A, F, G>::step, (actor, cx), step) && step
                == Step::Roused(number) ==> {
                &&& actor.running().told(*cx, Poll::Ready(Some(number)), final(actor).running())
                &&& final(actor).doing() is Some
                &&& (final(actor).doing()->0).0 == number
                &&& roused::<T, F, G, Gut>(
                    actor.actor().behaviors(),
                    number,
                    actor.actor().state(),
                    (final(actor).doing()->0).1,
                )
                &&& exists|fut: Gut| #[trigger]
                    call_ensures(
                        actor.actor().behaviors()[number as int].1,
                        (&actor.actor().state(),),
                        fut,
                    )
            },
{
}

/// What the actor does after a behavior was roused is what calling that behavior came back with, boxed.
pub(crate) proof fn law_rousing_boxes_what_was_said<T, A, F, G, Fut, Gut>() where
    T: ActorState,
    A: FnMut(&mut T, T::Message),
    F: Fn(&T) -> Fut,
    G: Fn(&T) -> Gut,
    Fut: SendableFuture + Future<Output = ()>,
    Gut: SendableFuture + Future<Output = ()>,

    ensures
        forall|actor: &mut Performance<T, A, F, G>, cx: &mut Context<'_>, step: Step| #[trigger]
            call_ensures(Performance::<T, A, F, G>::step, (actor, cx), step) && step is Roused
                ==> exists|fut: Gut|
                {
                    &&& #[trigger] call_ensures(
                        actor.actor().behaviors()[step->Roused_0 as int].1,
                        (&actor.actor().state(),),
                        fut,
                    )
                    &&& final(actor).doing() is Some
                    &&& call_ensures(boxed::<Gut, ()>, (fut,), (final(actor).doing()->0).1)
                },
{
}

/// A message that is received is what one poll of the channel of the actor came back with, and acting
/// on it is one call of the action on the state, with that very message. While the actor waits, the
/// channel and what the behaviors wait for have both been asked, in the context of the caller, and
/// neither came up with something.
pub proof fn law_messages_and_waiting<T, A, F, G, Fut, Gut>() where
    T: ActorState,
    A: FnMut(&mut T, T::Message),
    F: Fn(&T) -> Fut,
    G: Fn(&T) -> Gut,
    Fut: SendableFuture + Future<Output = ()>,
    Gut: SendableFuture + Future<Output = ()>,

    ensures
        forall|actor: &mut Performance<T, A, F, G>, cx: &mut Context<'_>, step: Step| #[trigger]
            call_ensures(Performance::<T, A, F, G>::step, (actor, cx), step) && step is Acted ==> {
                &&& final(actor).running() == actor.running()
                &&& final(actor).actor().receiver() == actor.actor().receiver()
                &&& exists|state: &mut T|
                    {
                        &&& #[trigger] call_ensures(
                            actor.actor().action(),
                            (state, actor.held()->0),
                            (),
                        )
                        &&& *state == actor.actor().state()
                        &&& *final(state) == final(actor).actor().state()
                    }
            },
        forall|actor: &mut Performance<T, A, F, G>, cx: &mut Context<'_>, step: Step| #[trigger]
            call_ensures(Performance::<T, A, F, G>::step, (actor, cx), step) && step is Received
                ==> {
                &&& final(actor).held() is Some
                &&& sleeps(actor.running(), final(actor).running())
                &&& exists|
                    receiver: &mut mpsc::UnboundedReceiver<T::Message>,
                    waker: &mut Context<'_>,
                |
                    {
                        &&& #[trigger] call_ensures(
                            mpsc::UnboundedReceiver::<T::Message>::poll_recv,
                            (receiver, waker),
                            Poll::Ready(final(actor).held()),
                        )
                        &&& *receiver == actor.actor().receiver()
                        &&& *waker == *cx
                        &&& *final(receiver) == final(actor).actor().receiver()
                    }
            },
        forall|actor: &mut Performance<T, A, F, G>, cx: &mut Context<'_>, step: Step| #[trigger]
            call_ensures(Performance::<T, A, F, G>::step, (actor, cx), step) && (step is Waited
                || step is Starved) && actor.doing() is None ==> exists|
                receiver: &mut mpsc::UnboundedReceiver<T::Message>,
                waker: &mut Context<'_>,
                heard: Poll<Option<T::Message>>,
                told: Poll<Option<usize>>,
            |
                {
                    &&& #[trigger] call_ensures(
                        mpsc::UnboundedReceiver::<T::Message>::poll_recv,
                        (receiver, waker),
                        heard,
                    )
                    &&& *receiver == actor.actor().receiver()
                    &&& *waker == *cx
                    &&& *final(receiver) == final(actor).actor().receiver()
                    &&& #[trigger] actor.running().told(*cx, told, final(actor).running())
                    &&& !(heard matches Poll::Ready(Some(_)))
                    &&& !(told matches Poll::Ready(Some(_)))
                    &&& step is Starved <==> heard is Ready && told is Ready
                },
        forall|actor: &mut Performance<T, A, F, G>, cx: &mut Context<'_>, step: Step| #[trigger]
            call_ensures(Performance::<T, A, F, G>::step, (actor, cx), step) && (step is Waited
                || step is Repeated) && actor.doing() is Some ==> proceeded::<T, A, F, G, Fut>(
                *actor,
                *cx,
                step,
                *final(actor),
            ),
{
}

/// An actor can be started and polled whatever its action and its behaviors are and however many of
/// those there are, as long as each can be called.
pub proof fn law_anything_callable_performs<T, A, F, G, Fut, Gut>() where
    T: ActorState,
    A: FnMut(&mut T, T::Message),
    F: Fn(&T) -> Fut,
    G: Fn(&T) -> Gut,
    Fut: SendableFuture + Future<Output = ()>,
    Gut: SendableFuture + Future<Output = ()>,

    ensures
        forall|actor: Actor<T, A, F, G>|
            acts::<T, A>(actor.action()) && behaves::<T, F, G, Fut, Gut>(actor.behaviors())
                ==> #[trigger] call_requires(Actor::<T, A, F, G>::perform, (actor,)),
        forall|performance: &mut Performance<T, A, F, G>, cx: &mut Context<'_>|
            acts::<T, A>(performance.actor().action()) && behaves::<T, F, G, Fut, Gut>(
                performance.actor().behaviors(),
            ) && performance.in_order() ==> #[trigger] call_requires(
                Performance::<T, A, F, G>::step,
                (performance, cx),
            ),
{
}

} // verus!
