//! The workers of a service: the loop of one of them, and what holds of all of them together.

use async_channel::Receiver;
use std::sync::Arc;
use vstd::prelude::*;

#[allow(unused_imports)]
use crate::channel;
use crate::channel::clone_receiver;
use crate::config::WorkerConfig;
use crate::policy::RestartPolicy;
#[allow(unused_imports)]
use crate::resource;
use crate::resource::clone_arc;

verus! {

/// What a worker does next.
#[derive(Debug)]
pub enum WorkerAction<M> {
    /// Wait for the next message.
    Receive,
    /// Handle the message, and wait until that is done.
    Handle(M),
    /// Wait for a permit to handle one more message.
    AcquirePermit,
    /// Hand the message and the permit to a task of its own.
    SpawnHandler(M),
    /// Return from this run of the loop.
    Return,
    /// Wait until every handler that was spawned has given its permit back.
    AwaitHandlers,
    /// The worker is done.
    Leave,
}

/// What came of the last action of a worker.
#[derive(Debug)]
pub enum WorkerEvent<M> {
    /// A run of the loop begins: the first one, or one more after a panic.
    Started,
    /// The action is done.
    Done,
    /// A message came.
    Received(M),
    /// The channel is closed and empty.
    Closed,
    /// The loop does not run again.
    Ended,
}

/// Where a worker is in its loop.
#[derive(Debug)]
pub enum WorkerState<M> {
    /// Its loop did not run yet.
    New,
    /// It waits for a message.
    Receiving,
    /// It handles a message itself.
    Handling,
    /// It holds this message and waits for a permit.
    Acquiring(M),
    /// It hands a message to a task of its own.
    Spawning,
    /// Its loop returned.
    Returned,
    /// Its loop does not run again, and it waits for the handlers that it spawned.
    Draining,
    /// It is done.
    Left,
}

/// A worker of a service, through all runs of its loop: without `concurrent` it handles one
/// message after the other, else it hands each to a task of its own as soon as it has a permit.
#[derive(Debug)]
pub struct Worker<M> {
    /// How many messages the worker handles at a time, if it spawns handlers.
    pub concurrent: Option<usize>,
    /// How many messages are being handled.
    pub running: usize,
    pub state: WorkerState<M>,
}

/// How many messages a worker handles at a time.
pub open spec fn limit_of(concurrent: Option<usize>) -> usize {
    match concurrent {
        Some(limit) => limit,
        None => 1,
    }
}

impl<M> Worker<M> {
    /// A worker whose loop did not run yet.
    pub open spec fn fresh(concurrent: Option<usize>) -> Self {
        Worker { concurrent, running: 0, state: WorkerState::New }
    }

    /// How many messages the worker handles at a time.
    pub open spec fn limit(self) -> usize {
        limit_of(self.concurrent)
    }

    /// The worker handles no more messages than it may, and none before its first run and after
    /// it is done. A worker without permits handles a message exactly while it says so.
    pub open spec fn wf(self) -> bool {
        &&& self.running <= self.limit()
        &&& self.state is New || self.state is Left ==> self.running == 0
        &&& match self.concurrent {
            Some(_) => !(self.state is Handling),
            None => {
                &&& !(self.state is Acquiring || self.state is Spawning || self.state is Draining)
                &&& self.running == if self.state is Handling {
                    1int
                } else {
                    0int
                }
            },
        }
    }

    /// Whether `event` can come of the last action. A permit comes only where fewer messages are
    /// handled than may be; and the handlers are awaited until none is left.
    pub open spec fn accepts(self, event: WorkerEvent<M>) -> bool {
        match event {
            WorkerEvent::Started => !(self.state is Returned || self.state is Draining
                || self.state is Left),
            WorkerEvent::Ended => !(self.state is Draining || self.state is Left),
            WorkerEvent::Received(_) | WorkerEvent::Closed => self.state is Receiving,
            WorkerEvent::Done => match self.state {
                WorkerState::Handling | WorkerState::Spawning => true,
                WorkerState::Acquiring(_) => self.running < self.limit(),
                WorkerState::Draining => self.running == 0,
                _ => false,
            },
        }
    }

    /// How many handlers run in tasks of their own; those outlive a run of the loop.
    pub open spec fn spawned(self) -> usize {
        if self.concurrent is Some {
            self.running
        } else {
            0
        }
    }

    /// What the worker does after `event`.
    pub open spec fn action(self, event: WorkerEvent<M>) -> WorkerAction<M> {
        match event {
            WorkerEvent::Started => WorkerAction::Receive,
            WorkerEvent::Done => match self.state {
                WorkerState::Acquiring(message) => WorkerAction::SpawnHandler(message),
                WorkerState::Draining => WorkerAction::Leave,
                _ => WorkerAction::Receive,
            },
            WorkerEvent::Received(message) => match self.concurrent {
                None => WorkerAction::Handle(message),
                Some(_) => WorkerAction::AcquirePermit,
            },
            WorkerEvent::Closed => WorkerAction::Return,
            WorkerEvent::Ended => if self.spawned() == 0 {
                WorkerAction::Leave
            } else {
                WorkerAction::AwaitHandlers
            },
        }
    }

    /// The worker after that.
    pub open spec fn after(self, event: WorkerEvent<M>) -> Self {
        Worker {
            concurrent: self.concurrent,
            running: match self.action(event) {
                WorkerAction::Handle(_) => 1,
                WorkerAction::SpawnHandler(_) => (self.running + 1) as usize,
                _ => self.spawned(),
            },
            state: match self.action(event) {
                WorkerAction::Receive => WorkerState::Receiving,
                WorkerAction::Handle(_) => WorkerState::Handling,
                WorkerAction::AcquirePermit => WorkerState::Acquiring(event->Received_0),
                WorkerAction::SpawnHandler(_) => WorkerState::Spawning,
                WorkerAction::Return => WorkerState::Returned,
                WorkerAction::AwaitHandlers => WorkerState::Draining,
                WorkerAction::Leave => WorkerState::Left,
            },
        }
    }

    /// Whether a handler that was spawned can end.
    pub open spec fn can_end_handler(self) -> bool {
        self.spawned() > 0
    }

    /// The worker after a handler that was spawned has ended, by a panic or not.
    pub open spec fn after_handler(self) -> Self {
        Worker { running: (self.running - 1) as usize, ..self }
    }

    /// A worker whose loop did not run yet.
    pub fn new(concurrent: Option<usize>) -> (worker: Self)
        ensures
            worker == Worker::<M>::fresh(concurrent),
            worker.wf(),
    {
        Worker { concurrent, running: 0, state: WorkerState::New }
    }

    /// How many messages the worker handles at a time.
    pub fn permits(&self) -> (permits: usize)
        ensures
            permits == self.limit(),
            self.concurrent matches Some(n) ==> permits == n,
            self.concurrent is None ==> permits == 1,
    {
        match self.concurrent {
            Some(limit) => limit,
            None => 1,
        }
    }

    /// Whether `event` can come of the last action.
    pub fn accepts_event(&self, event: &WorkerEvent<M>) -> (accepted: bool)
        ensures
            accepted == self.accepts(*event),
    {
        match event {
            WorkerEvent::Started => !matches!(
                self.state,
                WorkerState::Returned | WorkerState::Draining | WorkerState::Left
            ),
            WorkerEvent::Ended => !matches!(
                self.state,
                WorkerState::Draining | WorkerState::Left
            ),
            WorkerEvent::Received(_) | WorkerEvent::Closed => matches!(
                self.state,
                WorkerState::Receiving
            ),
            WorkerEvent::Done => match &self.state {
                WorkerState::Handling | WorkerState::Spawning => true,
                WorkerState::Acquiring(_) => self.running < self.permits(),
                WorkerState::Draining => self.running == 0,
                _ => false,
            },
        }
    }

    /// Takes what came of the last action, and says what the worker does next.
    pub fn step(&mut self, event: WorkerEvent<M>) -> (action: WorkerAction<M>)
        requires
            old(self).wf(),
            old(self).accepts(event),
        ensures
            action == old(self).action(event),
            *final(self) == old(self).after(event),
            final(self).wf(),
    {
        if self.concurrent.is_none() {
            self.running = 0;
        }
        let mut state: WorkerState<M> = WorkerState::Receiving;
        std::mem::swap(&mut state, &mut self.state);
        match event {
            WorkerEvent::Started => WorkerAction::Receive,
            WorkerEvent::Done => match state {
                WorkerState::Acquiring(message) => {
                    self.running = self.running + 1;
                    self.state = WorkerState::Spawning;
                    WorkerAction::SpawnHandler(message)
                },
                WorkerState::Draining => {
                    self.state = WorkerState::Left;
                    WorkerAction::Leave
                },
                _ => WorkerAction::Receive,
            },
            WorkerEvent::Received(message) => match self.concurrent {
                None => {
                    self.running = 1;
                    self.state = WorkerState::Handling;
                    WorkerAction::Handle(message)
                },
                Some(_) => {
                    self.state = WorkerState::Acquiring(message);
                    WorkerAction::AcquirePermit
                },
            },
            WorkerEvent::Closed => {
                self.state = WorkerState::Returned;
                WorkerAction::Return
            },
            WorkerEvent::Ended => if self.running == 0 {
                self.state = WorkerState::Left;
                WorkerAction::Leave
            } else {
                self.state = WorkerState::Draining;
                WorkerAction::AwaitHandlers
            },
        }
    }

    /// A handler that was spawned has ended, by a panic or not, and gives its permit back.
    pub fn handler_ended(&mut self)
        requires
            old(self).wf(),
            old(self).can_end_handler(),
        ensures
            *final(self) == old(self).after_handler(),
            final(self).wf(),
    {
        self.running = self.running - 1;
    }
}

/// The place of one worker of a service, through all runs of its loop: the instance whose
/// `handle` it calls, its end of the channel, the policy that it is supervised by, and the worker.
#[verifier::reject_recursive_types(S)]
#[verifier::reject_recursive_types(M)]
pub struct Seat<S, M> {
    pub service: Arc<S>,
    pub receiver: Receiver<M>,
    pub restart: RestartPolicy,
    pub worker: Worker<M>,
}

/// The workers of a service with the settings `config`, before their loops run.
pub open spec fn crew_of<M>(config: WorkerConfig) -> Seq<Worker<M>> {
    Seq::new(config.workers as nat, |i: int| Worker::fresh(config.concurrent))
}

/// Makes the places of the workers of a service: all of them call one instance of the service,
/// and take their messages from one channel.
pub fn seats<S, M>(service: &Arc<S>, receiver: &Receiver<M>, config: WorkerConfig) -> (seats: Vec<
    Seat<S, M>,
>)
    ensures
        seats@.map_values(|seat: Seat<S, M>| seat.worker) == crew_of::<M>(config),
        seats@.len() == config.workers,
        forall|i: int|
            0 <= i < seats@.len() ==> {
                &&& (#[trigger] seats@[i]).worker.concurrent == config.concurrent
                &&& seats@[i].worker.running == 0
                &&& seats@[i].worker.state is New
                &&& resource::same_instance(*service, seats@[i].service)
                &&& channel::shared(*receiver, seats@[i].receiver)
                &&& seats@[i].restart == config.restart
            },
{
    let mut seats: Vec<Seat<S, M>> = Vec::new();
    let mut made: usize = 0;
    while made < config.workers
        invariant
            made <= config.workers,
            seats@.len() == made,
            forall|i: int|
                0 <= i < seats@.len() ==> {
                    &&& resource::same_instance(*service, (#[trigger] seats@[i]).service)
                    &&& channel::shared(*receiver, seats@[i].receiver)
                    &&& seats@[i].restart == config.restart
                    &&& seats@[i].worker == Worker::<M>::fresh(config.concurrent)
                },
        decreases config.workers - made,
    {
        let seat = Seat {
            service: clone_arc(service),
            receiver: clone_receiver(receiver),
            restart: config.restart,
            worker: Worker::new(config.concurrent),
        };
        seats.push(seat);
        made = made + 1;
    }
    assert(seats@.map_values(|seat: Seat<S, M>| seat.worker) =~= crew_of::<M>(config));
    seats
}

/// A worker gives out as many permits as were chosen, one where none were; and in good order it
/// never handles more messages than that.
pub proof fn law_permits_are_those_chosen<M>(worker: Worker<M>, permits: usize)
    requires
        call_ensures(Worker::<M>::permits, (&worker,), permits),
    ensures
        worker.concurrent matches Some(n) ==> permits == n,
        worker.concurrent is None ==> permits == 1,
        worker.wf() ==> worker.running <= permits,
{
}

/// A worker that spawns handlers takes a permit exactly while fewer of them run than were chosen,
/// and then one more runs, with the message that waited.
pub proof fn law_permit_comes_below_the_limit<M>(worker: Worker<M>, n: usize, message: M)
    requires
        worker.wf(),
        worker.concurrent == Some(n),
        worker.state == WorkerState::Acquiring(message),
    ensures
        worker.running <= n,
        worker.accepts(WorkerEvent::Done) <==> worker.running < n,
        worker.running < n ==> {
            &&& worker.action(WorkerEvent::Done) == WorkerAction::SpawnHandler(message)
            &&& worker.after(WorkerEvent::Done).running == worker.running + 1
            &&& worker.after(WorkerEvent::Done).concurrent == Some(n)
            &&& worker.after(WorkerEvent::Done).accepts(WorkerEvent::Done)
            &&& worker.after(WorkerEvent::Done).action(WorkerEvent::Done) is Receive
        },
{
}

/// A worker that waits takes any message. It handles it itself, and waits again once that is
/// done; or it keeps it until it has a permit.
pub proof fn law_message_is_taken_up<M>(worker: Worker<M>, message: M)
    requires
        worker.wf(),
        worker.state is Receiving,
    ensures
        ({
            let event = WorkerEvent::Received(message);
            let next = worker.after(event);
            &&& worker.accepts(event)
            &&& next.concurrent == worker.concurrent
            &&& worker.concurrent is None ==> {
                &&& worker.action(event) == WorkerAction::Handle(message)
                &&& next.running == 1
                &&& next.accepts(WorkerEvent::Done)
                &&& next.action(WorkerEvent::Done) is Receive
                &&& next.after(WorkerEvent::Done).running == 0
                &&& next.after(WorkerEvent::Done).state is Receiving
            }
            &&& worker.concurrent is Some ==> {
                &&& worker.action(event) is AcquirePermit
                &&& next.running == worker.running
                &&& next.state == WorkerState::Acquiring(message)
            }
        }),
{
}

/// The end of the channel ends a run of the loop, and only that does: the loop returns, and does
/// not run again.
pub proof fn law_loop_returns_at_the_end_of_the_channel<M>(worker: Worker<M>, event: WorkerEvent<M>)
    requires
        worker.wf(),
        worker.accepts(event),
    ensures
        worker.state is Receiving ==> worker.accepts(WorkerEvent::Closed),
        worker.action(event) is Return <==> event is Closed,
        event is Closed ==> {
            &&& !worker.after(event).accepts(WorkerEvent::Started)
            &&& worker.after(event).accepts(WorkerEvent::Ended)
            &&& worker.after(event).running == worker.running
        },
{
}

/// A worker can start anew after a panic, until its loop has returned or was given up. The message
/// that it handled itself is done with; the handlers that it spawned go on.
pub proof fn law_restart_keeps_handlers<M>(worker: Worker<M>)
    requires
        worker.wf(),
        !(worker.state is Returned || worker.state is Draining || worker.state is Left),
    ensures
        worker.accepts(WorkerEvent::Started),
        worker.accepts(WorkerEvent::Ended),
        worker.action(WorkerEvent::Started) is Receive,
        worker.after(WorkerEvent::Started).state is Receiving,
        worker.after(WorkerEvent::Started).concurrent == worker.concurrent,
        worker.concurrent is None ==> worker.after(WorkerEvent::Started).running == 0,
        worker.concurrent is Some ==> worker.after(WorkerEvent::Started).running == worker.running,
{
}

/// A worker leaves when its loop does not run again and none of its handlers runs: at once, or
/// after it has waited for them. Then nothing happens to it any more.
pub proof fn law_worker_leaves_with_no_handler_running<M>(
    worker: Worker<M>,
    event: WorkerEvent<M>,
    later: WorkerEvent<M>,
)
    requires
        worker.wf(),
        worker.accepts(event),
    ensures
        worker.action(event) is Leave ==> {
            &&& worker.after(event).running == 0
            &&& !worker.after(event).accepts(later)
            &&& !worker.after(event).can_end_handler()
        },
        event is Ended && (worker.concurrent is None || worker.running == 0) ==> worker.action(
            event,
        ) is Leave,
        event is Ended && worker.concurrent is Some && worker.running > 0 ==> {
            &&& worker.action(event) is AwaitHandlers
            &&& worker.after(event).running == worker.running
            &&& !worker.after(event).accepts(later)
            &&& worker.after(event).can_end_handler()
        },
        worker.state is Draining ==> worker.running == 0 && event is Done && worker.action(
            event,
        ) is Leave,
        worker.action(event) is Leave ==> event is Ended || worker.state is Draining,
{
}

/// A handler that was spawned can end at any time, and takes nothing with it but its permit. A
/// worker that waits for the last of them waits no longer then.
pub proof fn law_handler_ends<M>(worker: Worker<M>, n: usize)
    requires
        worker.wf(),
        worker.concurrent == Some(n),
    ensures
        worker.can_end_handler() <==> worker.running > 0,
        worker.state is Draining && worker.running == 0 ==> worker.accepts(WorkerEvent::Done),
        worker.running > 0 ==> {
            &&& worker.after_handler().running == worker.running - 1
            &&& worker.after_handler().concurrent == Some(n)
            &&& worker.after_handler().state == worker.state
            &&& worker.after_handler().wf()
        },
{
}

/// The places of a service's workers are as many as were chosen; each has the limit and the
/// policy that were chosen, and all share one instance and one channel.
pub proof fn law_seats_are_those_chosen<S, M>(
    service: Arc<S>,
    receiver: Receiver<M>,
    config: WorkerConfig,
    places: Vec<Seat<S, M>>,
)
    requires
        call_ensures(seats::<S, M>, (&service, &receiver, config), places),
    ensures
        places@.len() == config.workers,
        forall|i: int|
            0 <= i < places@.len() ==> {
                &&& (#[trigger] places@[i]).worker.concurrent == config.concurrent
                &&& places@[i].worker.running == 0
                &&& places@[i].worker.wf()
                &&& places@[i].worker.accepts(WorkerEvent::Started)
                &&& places@[i].restart == config.restart
                &&& resource::same_instance(service, places@[i].service)
                &&& channel::shared(receiver, places@[i].receiver)
            },
{
    assert forall|i: int| 0 <= i < places@.len() implies (#[trigger] places@[i]).worker.wf() by {
    }
}

/// A new worker has the limit that it is given, handles nothing, and waits for its first run.
pub proof fn law_new_worker<M>(concurrent: Option<usize>, worker: Worker<M>)
    requires
        call_ensures(Worker::<M>::new, (concurrent,), worker),
    ensures
        worker.wf(),
        worker.concurrent == concurrent,
        worker.running == 0,
        worker.state is New,
        worker.accepts(WorkerEvent::Started),
{
}

/// What a step of a worker does. It never changes the limit. A message is handled at once, or kept
/// until there is a permit; with the permit its handler is spawned, and one more runs; after that,
/// after a message was handled, and at the start of a run, the next message is awaited. The end of
/// the channel returns from the loop. Once the loop does not run again the worker leaves, after its
/// handlers.
pub proof fn law_worker_step<M>(
    worker: &mut Worker<M>,
    event: WorkerEvent<M>,
    action: WorkerAction<M>,
)
    requires
        call_ensures(Worker::<M>::step, (worker, event), action),
        old(worker).wf(),
        old(worker).accepts(event),
    ensures
        final(worker).wf(),
        final(worker).concurrent == old(worker).concurrent,
        event matches WorkerEvent::Received(message) ==> {
            &&& old(worker).concurrent is None ==> action == WorkerAction::Handle(message)
                && final(worker).running == 1
            &&& old(worker).concurrent is Some ==> action is AcquirePermit && final(worker).state
                == WorkerState::Acquiring(message) && final(worker).running == old(worker).running
        },
        event is Done ==> match old(worker).state {
            WorkerState::Acquiring(message) => {
                &&& action == WorkerAction::SpawnHandler(message)
                &&& final(worker).running == old(worker).running + 1
                &&& old(worker).concurrent matches Some(n) && old(worker).running < n
            },
            WorkerState::Handling => action is Receive && final(worker).running == 0,
            WorkerState::Spawning => action is Receive && final(worker).running == old(
                worker,
            ).running,
            _ => action is Leave && old(worker).state is Draining && old(worker).running == 0
                && final(worker).running == 0,
        },
        event is Started ==> action is Receive && final(worker).running == if old(
            worker,
        ).concurrent is Some {
            old(worker).running
        } else {
            0
        },
        event is Closed ==> action is Return && final(worker).running == old(worker).running,
        event is Ended ==> if old(worker).concurrent is Some && old(worker).running > 0 {
            action is AwaitHandlers && final(worker).running == old(worker).running
        } else {
            action is Leave && final(worker).running == 0
        },
        action is Receive ==> final(worker).state is Receiving,
{
}

/// A handler that ended takes one from the number that run, and changes nothing else.
pub proof fn law_handler_ended<M>(worker: &mut Worker<M>)
    requires
        call_ensures(Worker::<M>::handler_ended, (worker,), ()),
        old(worker).wf(),
        old(worker).can_end_handler(),
    ensures
        final(worker).running == old(worker).running - 1,
        final(worker).concurrent == old(worker).concurrent,
        final(worker).state == old(worker).state,
        final(worker).wf(),
{
}

/// What can come to a worker. A message, or the end of the channel, where it waits for one. That
/// an action is done: handling, spawning, the wait for a permit where fewer messages are handled
/// than may be, the wait for the handlers where none is left. A new run, until the loop returned or
/// is over; and the end of all runs, until then.
pub proof fn law_events_that_can_come<M>(worker: Worker<M>, event: WorkerEvent<M>, accepted: bool)
    requires
        call_ensures(Worker::<M>::accepts_event, (&worker, &event), accepted),
    ensures
        event is Received || event is Closed ==> accepted == (worker.state is Receiving),
        event is Done ==> accepted == match worker.state {
            WorkerState::Handling | WorkerState::Spawning => true,
            WorkerState::Acquiring(_) => match worker.concurrent {
                Some(n) => worker.running < n,
                None => worker.running < 1,
            },
            WorkerState::Draining => worker.running == 0,
            _ => false,
        },
        event is Started ==> accepted == !(worker.state is Returned || worker.state is Draining
            || worker.state is Left),
        event is Ended ==> accepted == !(worker.state is Draining || worker.state is Left),
{
}

} // verus!
