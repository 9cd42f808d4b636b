# Troupe

Troupe is a high-level library for modelling an application with the actor model. Actors model
concurrent mutable state via isolated components and message passing: each has a state, a scheduler
that decides where its next message comes from and when the actor is done, and clients through which
the rest of the application talks to it.

The library is written in Verus. Everything in it is polled, so that it can be run by any async
runtime, and every function states in its contract what it does.

## Layout

- `src/scheduler.rs`: where the messages of an actor come from, when it is dead, and what is left
  to do then. A `Ledger` is what the scheduler goes by, and an `Event` is something that happened in
  one of the sources that it polls.
- `src/runner.rs`: the stages of an actor's life.
- `src/lib.rs`, `src/sink.rs`, `src/stream.rs`, `src/joint.rs`: the builder, the three kinds of
  actors, and their clients.
- `src/actor.rs`, `src/map.rs`: actors that are built from plain functions, and an example of one.
- `src/ensemble.rs`: an actor that survives panics of its state.
- `src/laws.rs`: what holds of every actor, at any time and over its whole life. `src/runner.rs`,
  `src/actor.rs` and `src/compat.rs` hold a few more.
- `src/channel.rs`, `src/pollset.rs`, `src/edges.rs`: what is taken for granted of tokio, futures and
  anymap2. Channels, futures and streams are opaque. Where a contract depends on what one of them
  came back with, it names the call: `call_ensures(f, args, r)` says that `r` is what came back from
  calling `f` on `args`.
- `app/`: runs actors in the tasks of a runtime.
