//! The life of an actor, from its launch to its end.

use vstd::prelude::*;

use crate::scheduler::Scheduler;
use crate::ActorState;

verus! {

/// The container for the actor state and its scheduler. What is to be done with the two, and in
/// which order, is up to [`next_stage`].
pub struct ActorRunner<A: ActorState> {
    /// The state of the actor.
    pub state: A,
    /// The bookkeeper of the actor.
    pub scheduler: Scheduler<A::Message, A::ActorKind>,
}

/// Something that an actor does, or waits for.
pub enum Stage<M> {
    /// The state finalizes its setup.
    StartUp,
    /// The scheduler yields the next message.
    Receive,
    /// The state processes this message.
    Process(M),
    /// The state cleans up anything that remains.
    Finalize,
    /// The actor is gone, except for the managed futures that the scheduler leaves behind.
    Close,
}

/// The end of a [`Stage`].
pub enum Outcome<M> {
    /// The state has finalized its setup.
    StartedUp,
    /// The scheduler has yielded a message, or `None` to say that there will be no other one.
    Received(Option<M>),
    /// The state has processed a message.
    Processed,
    /// The state has cleaned up.
    Finalized,
}

impl<M> Outcome<M> {
    /// If this is how the given stage ends.
    pub open spec fn ends(self, stage: Stage<M>) -> bool {
        match self {
            Outcome::StartedUp => stage is StartUp,
            Outcome::Received(_) => stage is Receive,
            Outcome::Processed => stage is Process,
            Outcome::Finalized => stage is Finalize,
        }
    }

    /// The stage that comes next.
    pub open spec fn leads_to(self) -> Stage<M> {
        match self {
            Outcome::StartedUp => Stage::Receive,
            Outcome::Received(Some(msg)) => Stage::Process(msg),
            Outcome::Received(None) => Stage::Finalize,
            Outcome::Processed => Stage::Receive,
            Outcome::Finalized => Stage::Close,
        }
    }
}

/// What an actor does first.
pub fn first_stage<M>() -> (stage: Stage<M>)
    ensures
        stage is StartUp,
{
    Stage::StartUp
}

/// What an actor does after this: it starts up, then processes every message that its scheduler
/// yields, and cleans up once there will be no other one.
pub fn next_stage<M>(outcome: Outcome<M>) -> (stage: Stage<M>)
    ensures
        stage == outcome.leads_to(),
{
    match outcome {
        Outcome::StartedUp => Stage::Receive,
        Outcome::Received(Some(msg)) => Stage::Process(msg),
        Outcome::Received(None) => Stage::Finalize,
        Outcome::Processed => Stage::Receive,
        Outcome::Finalized => Stage::Close,
    }
}

/// The stage that an actor is in after these outcomes.
pub open spec fn stage_after<M>(outcomes: Seq<Outcome<M>>) -> Stage<M> {
    if outcomes.len() == 0 {
        Stage::StartUp
    } else {
        outcomes.last().leads_to()
    }
}

/// If these are outcomes of the stages that an actor goes through, each of the stage that the ones
/// before it lead to.
pub open spec fn is_life<M>(outcomes: Seq<Outcome<M>>) -> bool {
    forall|i: int|
        0 <= i < outcomes.len() ==> (#[trigger] outcomes[i]).ends(stage_after(outcomes.take(i)))
}

/// The messages that the scheduler has yielded, in order.
pub open spec fn yielded<M>(outcomes: Seq<Outcome<M>>) -> Seq<M>
    decreases outcomes.len(),
{
    if outcomes.len() == 0 {
        Seq::empty()
    } else {
        match outcomes.last() {
            Outcome::Received(Some(msg)) => yielded(outcomes.drop_last()).push(msg),
            _ => yielded(outcomes.drop_last()),
        }
    }
}

/// The number of messages that the state has processed.
pub open spec fn processed<M>(outcomes: Seq<Outcome<M>>) -> nat
    decreases outcomes.len(),
{
    if outcomes.len() == 0 {
        0
    } else {
        processed(outcomes.drop_last()) + (if outcomes.last() is Processed { 1nat } else { 0 })
    }
}

proof fn lemma_life_of_prefix<M>(outcomes: Seq<Outcome<M>>)
    requires
        is_life(outcomes),
        outcomes.len() > 0,
    ensures
        is_life(outcomes.drop_last()),
        outcomes.last().ends(stage_after(outcomes.drop_last())),
{
    let earlier = outcomes.drop_last();
    assert forall|i: int| 0 <= i < earlier.len() implies (#[trigger] earlier[i]).ends(
        stage_after(earlier.take(i)),
    ) by {
        assert(earlier.take(i) == outcomes.take(i));
        assert(outcomes[i] == earlier[i]);
    }
    assert(earlier == outcomes.take(outcomes.len() - 1));
}

/// An actor starts up once, before anything else. It finalizes at most once, and then nothing
/// follows.
pub proof fn law_starts_first_and_finalizes_last<M>(outcomes: Seq<Outcome<M>>, i: int)
    requires
        is_life(outcomes),
        0 <= i < outcomes.len(),
    ensures
        outcomes[i] is StartedUp <==> i == 0,
        outcomes[i] is Finalized ==> i == outcomes.len() - 1,
        outcomes[i] is Finalized ==> i > 0 && outcomes[i - 1] == Outcome::<M>::Received(None),
        outcomes[i] == Outcome::<M>::Received(None) && i + 1 < outcomes.len() ==> outcomes[i + 1]
            is Finalized,
{
    assert(outcomes[i].ends(stage_after(outcomes.take(i))));
    if i > 0 {
        assert(outcomes.take(i).last() == outcomes[i - 1]);
    }
    if i + 1 < outcomes.len() {
        assert(outcomes[i + 1].ends(stage_after(outcomes.take(i + 1))));
        assert(outcomes.take(i + 1).last() == outcomes[i]);
    }
}

/// The state processes every message that the scheduler yields, one at a time and in the order in
/// which they are yielded: while a message is being processed it is the last one that was yielded
/// and all the others have been processed, and at any other time all of them have.
pub proof fn law_processes_what_is_yielded<M>(outcomes: Seq<Outcome<M>>)
    requires
        is_life(outcomes),
    ensures
        match stage_after(outcomes) {
            Stage::Process(msg) => {
                &&& yielded(outcomes).len() == processed(outcomes) + 1
                &&& yielded(outcomes).last() == msg
            },
            _ => yielded(outcomes).len() == processed(outcomes),
        },
    decreases outcomes.len(),
{
    if outcomes.len() > 0 {
        lemma_life_of_prefix(outcomes);
        law_processes_what_is_yielded(outcomes.drop_last());
    }
}

/// What an actor does after each thing: it receives after starting up and after every message,
/// processes the very message that it received, cleans up once there is no other one, and closes
/// after that. It begins with starting up.
pub proof fn law_stages<M>(msg: M)
    ensures
        forall|stage: Stage<M>| #[trigger]
            call_ensures(first_stage::<M>, (), stage) ==> stage is StartUp,
        forall|outcome: Outcome<M>, stage: Stage<M>| #[trigger]
            call_ensures(next_stage::<M>, (outcome,), stage) ==> {
                &&& stage is Receive <==> outcome is StartedUp || outcome is Processed
                &&& stage == Stage::Process(msg) <==> outcome == Outcome::Received(Some(msg))
                &&& stage is Finalize <==> outcome == Outcome::<M>::Received(None)
                &&& stage is Close <==> outcome is Finalized
                &&& !(stage is StartUp)
            },
{
}

} // verus!
