//! What holds of all workers of a service together, in whatever order their steps come.

use vstd::multiset::Multiset;
use vstd::prelude::*;

use crate::config::WorkerConfig;
use crate::worker::{Worker, WorkerAction, WorkerEvent, WorkerState};
#[allow(unused_imports)]
use crate::worker;

verus! {

/// What happens to one worker of a service.
pub enum Change<M> {
    /// It takes a step.
    Step(WorkerEvent<M>),
    /// A handler that it spawned ends.
    HandlerEnded,
}

/// What happens to the worker at one place among the workers of a service.
pub struct Moment<M> {
    pub worker: int,
    pub change: Change<M>,
}

impl<M> Worker<M> {
    /// Whether `change` can happen to the worker.
    pub open spec fn can(self, change: Change<M>) -> bool {
        match change {
            Change::Step(event) => self.accepts(event),
            Change::HandlerEnded => self.can_end_handler(),
        }
    }

    /// The worker after `change`.
    pub open spec fn changed(self, change: Change<M>) -> Self {
        match change {
            Change::Step(event) => self.after(event),
            Change::HandlerEnded => self.after_handler(),
        }
    }

    /// The message that `change` brings to the service's `handle`.
    pub open spec fn hands_over(self, change: Change<M>) -> Option<M> {
        match change {
            Change::Step(event) => match self.action(event) {
                WorkerAction::Handle(message) => Some(message),
                WorkerAction::SpawnHandler(message) => Some(message),
                _ => None,
            },
            Change::HandlerEnded => None,
        }
    }

    /// The message that waits for a permit.
    pub open spec fn holds(self) -> Option<M> {
        match self.state {
            WorkerState::Acquiring(message) => Some(message),
            _ => None,
        }
    }

    /// The message that is lost with a run of the loop that panics while it waits for a permit.
    pub open spec fn loses(self, change: Change<M>) -> Option<M> {
        match change {
            Change::Step(WorkerEvent::Started) | Change::Step(WorkerEvent::Ended) => self.holds(),
            _ => None,
        }
    }
}

/// The message that comes with `change`.
pub open spec fn brought<M>(change: Change<M>) -> Option<M> {
    match change {
        Change::Step(WorkerEvent::Received(message)) => Some(message),
        _ => None,
    }
}

/// `messages`, and the one that follows, if one does.
pub open spec fn with_next<M>(messages: Seq<M>, next: Option<M>) -> Seq<M> {
    match next {
        Some(message) => messages.push(message),
        None => messages,
    }
}

/// The workers of a service with the settings `config` after `history`.
pub open spec fn crew_after<M>(config: WorkerConfig, history: Seq<Moment<M>>) -> Seq<Worker<M>>
    decreases history.len(),
{
    if history.len() == 0 {
        worker::crew_of(config)
    } else {
        let crew = crew_after(config, history.drop_last());
        let moment = history.last();
        crew.update(moment.worker, crew[moment.worker].changed(moment.change))
    }
}

/// Whether `history` can happen to the workers of a service with the settings `config`.
pub open spec fn happens<M>(config: WorkerConfig, history: Seq<Moment<M>>) -> bool
    decreases history.len(),
{
    history.len() > 0 ==> {
        let crew = crew_after(config, history.drop_last());
        let moment = history.last();
        &&& happens(config, history.drop_last())
        &&& 0 <= moment.worker < crew.len()
        &&& crew[moment.worker].can(moment.change)
    }
}

/// The messages that the workers among `who` received, in the order in which they came.
pub open spec fn received<M>(history: Seq<Moment<M>>, who: Set<int>) -> Seq<M>
    decreases history.len(),
{
    if history.len() == 0 {
        Seq::empty()
    } else {
        let before = received(history.drop_last(), who);
        if who.contains(history.last().worker) {
            with_next(before, brought(history.last().change))
        } else {
            before
        }
    }
}

/// The messages that the workers among `who` brought to the service's `handle`, in that order.
pub open spec fn handed<M>(config: WorkerConfig, history: Seq<Moment<M>>, who: Set<int>) -> Seq<M>
    decreases history.len(),
{
    if history.len() == 0 {
        Seq::empty()
    } else {
        let before = handed(config, history.drop_last(), who);
        let moment = history.last();
        let worker = crew_after(config, history.drop_last())[moment.worker];
        if who.contains(moment.worker) {
            with_next(before, worker.hands_over(moment.change))
        } else {
            before
        }
    }
}

/// The messages that the workers among `who` lost with runs of their loops that panicked.
pub open spec fn lost<M>(config: WorkerConfig, history: Seq<Moment<M>>, who: Set<int>) -> Seq<M>
    decreases history.len(),
{
    if history.len() == 0 {
        Seq::empty()
    } else {
        let before = lost(config, history.drop_last(), who);
        let moment = history.last();
        let worker = crew_after(config, history.drop_last())[moment.worker];
        if who.contains(moment.worker) {
            with_next(before, worker.loses(moment.change))
        } else {
            before
        }
    }
}

/// At most one message, as a multiset.
pub open spec fn at_most_one<M>(message: Option<M>) -> Multiset<M> {
    match message {
        Some(message) => Multiset::singleton(message),
        None => Multiset::empty(),
    }
}

/// What the worker at place `i` holds, if it is among `who`.
pub open spec fn own_held<M>(worker: Worker<M>, i: int, who: Set<int>) -> Multiset<M> {
    if who.contains(i) {
        at_most_one(worker.holds())
    } else {
        Multiset::empty()
    }
}

/// The messages that wait for a permit with the workers among `who`.
pub open spec fn held<M>(crew: Seq<Worker<M>>, who: Set<int>) -> Multiset<M>
    decreases crew.len(),
{
    if crew.len() == 0 {
        Multiset::empty()
    } else {
        held(crew.drop_last(), who).add(own_held(crew.last(), crew.len() - 1, who))
    }
}

/// The number of messages that the workers handle.
pub open spec fn in_progress<M>(crew: Seq<Worker<M>>) -> nat
    decreases crew.len(),
{
    if crew.len() == 0 {
        0
    } else {
        in_progress(crew.drop_last()) + crew.last().running as nat
    }
}

/// Every worker of a service stays in good order and keeps its limit, whatever happens.
pub proof fn law_crew_keeps_its_order<M>(config: WorkerConfig, history: Seq<Moment<M>>)
    requires
        happens(config, history),
    ensures
        crew_after(config, history).len() == config.workers,
        forall|i: int|
            0 <= i < config.workers ==> (#[trigger] crew_after(config, history)[i]).wf()
                && crew_after(config, history)[i].concurrent == config.concurrent,
    decreases history.len(),
{
    if history.len() > 0 {
        law_crew_keeps_its_order(config, history.drop_last());
        let moment = history.last();
        let worker = crew_after(config, history.drop_last())[moment.worker];
        assert(worker.wf());
        assert(worker.changed(moment.change).wf());
    }
}

proof fn lemma_in_progress<M>(crew: Seq<Worker<M>>, limit: nat)
    requires
        forall|i: int| 0 <= i < crew.len() ==> (#[trigger] crew[i]).running <= limit,
    ensures
        in_progress(crew) <= crew.len() * limit,
    decreases crew.len(),
{
    if crew.len() > 0 {
        let front = crew.drop_last();
        assert forall|i: int| 0 <= i < front.len() implies (#[trigger] front[i]).running <= limit by {
            assert(front[i] == crew[i]);
        }
        lemma_in_progress(front, limit);
        assert(crew[crew.len() - 1].running <= limit);
        assert(crew.len() * limit == front.len() * limit + limit) by (nonlinear_arith)
            requires
                crew.len() == front.len() + 1,
        ;
    }
}

/// A service never handles more messages at a time than it has workers, times the limit of one of
/// them; also after its workers were restarted.
pub proof fn law_calls_are_bounded<M>(config: WorkerConfig, history: Seq<Moment<M>>)
    requires
        happens(config, history),
    ensures
        in_progress(crew_after(config, history)) <= config.workers * worker::limit_of(
            config.concurrent,
        ),
        config.concurrent matches Some(n) ==> in_progress(crew_after(config, history))
            <= config.workers * n,
        config.concurrent is None ==> in_progress(crew_after(config, history)) <= config.workers,
        forall|i: int|
            0 <= i < config.workers ==> {
                &&& config.concurrent matches Some(n) ==> (#[trigger] crew_after(
                    config,
                    history,
                )[i]).running <= n
                &&& config.concurrent is None ==> crew_after(config, history)[i].running <= 1
            },
{
    law_crew_keeps_its_order(config, history);
    let crew = crew_after(config, history);
    assert forall|i: int| 0 <= i < crew.len() implies (#[trigger] crew[i]).running
        <= worker::limit_of(config.concurrent) as nat by {
        assert(crew[i].wf());
    }
    lemma_in_progress(crew, worker::limit_of(config.concurrent) as nat);
    if config.concurrent is None {
        assert(crew.len() * 1 == crew.len());
    }
}

proof fn lemma_in_progress_update<M>(crew: Seq<Worker<M>>, i: int, worker: Worker<M>)
    requires
        0 <= i < crew.len(),
    ensures
        in_progress(crew.update(i, worker)) + crew[i].running == in_progress(crew) + worker.running,
    decreases crew.len(),
{
    let updated = crew.update(i, worker);
    if i == crew.len() - 1 {
        assert(updated.drop_last() =~= crew.drop_last());
    } else {
        assert(updated.drop_last() =~= crew.drop_last().update(i, worker));
        lemma_in_progress_update(crew.drop_last(), i, worker);
    }
}

/// A handler that ends, by a panic or not, gives its permit back. Its worker neither stops nor
/// starts again, and no message changes hands.
pub proof fn law_handler_gives_its_permit_back<M>(
    config: WorkerConfig,
    history: Seq<Moment<M>>,
    i: int,
    who: Set<int>,
)
    requires
        happens(config, history),
        0 <= i < config.workers,
        crew_after(config, history)[i].can_end_handler(),
    ensures
        ({
            let ended = history.push(Moment { worker: i, change: Change::HandlerEnded });
            let before = crew_after(config, history);
            let after = crew_after(config, ended);
            &&& happens(config, ended)
            &&& in_progress(after) == in_progress(before) - 1
            &&& after == before.update(i, before[i].after_handler())
            &&& after[i].running == before[i].running - 1
            &&& after[i].state == before[i].state
            &&& received(ended, who) == received(history, who)
            &&& handed(config, ended, who) == handed(config, history, who)
            &&& lost(config, ended, who) == lost(config, history, who)
        }),
{
    law_crew_keeps_its_order(config, history);
    let moment = Moment { worker: i, change: Change::<M>::HandlerEnded };
    let before = crew_after(config, history);
    assert(history.push(moment).drop_last() =~= history);
    lemma_in_progress_update(before, i, before[i].after_handler());
}

proof fn lemma_one_more_handler<M>(
    config: WorkerConfig,
    history: Seq<Moment<M>>,
    i: int,
    message: M,
) -> (longer: Seq<Moment<M>>)
    requires
        happens(config, history),
        config.concurrent is Some,
        0 <= i < config.workers,
        crew_after(config, history)[i].state is Receiving,
        crew_after(config, history)[i].running < config.concurrent->0,
    ensures
        happens(config, longer),
        history.is_prefix_of(longer),
        crew_after(config, longer)[i].state is Receiving,
        crew_after(config, longer)[i].running == crew_after(config, history)[i].running + 1,
{
    law_crew_keeps_its_order(config, history);
    assert(crew_after(config, history)[i].wf());
    let receive = Moment { worker: i, change: Change::Step(WorkerEvent::Received(message)) };
    let done = Moment { worker: i, change: Change::<M>::Step(WorkerEvent::Done) };
    let first = history.push(receive);
    let second = first.push(done);
    let third = second.push(done);
    assert(first.drop_last() =~= history);
    assert(happens(config, first));
    assert(second.drop_last() =~= first);
    assert(happens(config, second));
    assert(third.drop_last() =~= second);
    third
}

/// The full limit of a worker stays usable: whatever happened before, a worker that waits for
/// messages comes to handle as many at a time as it may, if enough of them arrive.
pub proof fn law_full_limit_stays_usable<M>(
    config: WorkerConfig,
    history: Seq<Moment<M>>,
    i: int,
    message: M,
)
    requires
        happens(config, history),
        config.concurrent is Some,
        0 <= i < config.workers,
        crew_after(config, history)[i].state is Receiving,
    ensures
        exists|longer: Seq<Moment<M>>| #[trigger]
            happens(config, longer) && history.is_prefix_of(longer) && crew_after(
                config,
                longer,
            )[i].running == config.concurrent->0,
    decreases config.concurrent->0 - crew_after(config, history)[i].running,
{
    law_crew_keeps_its_order(config, history);
    assert(crew_after(config, history)[i].wf());
    if crew_after(config, history)[i].running == config.concurrent->0 {
        assert(happens(config, history) && history.is_prefix_of(history));
    } else {
        let longer = lemma_one_more_handler(config, history, i, message);
        law_full_limit_stays_usable(config, longer, i, message);
        let longest = choose|longest: Seq<Moment<M>>| #[trigger]
            happens(config, longest) && longer.is_prefix_of(longest) && crew_after(
                config,
                longest,
            )[i].running == config.concurrent->0;
        assert(history =~= longest.subrange(0, history.len() as int));
        assert(happens(config, longest) && history.is_prefix_of(longest));
    }
}

/// Once all workers of a service are done, none of its messages is being handled.
pub proof fn law_service_that_left_is_idle<M>(config: WorkerConfig, history: Seq<Moment<M>>)
    requires
        happens(config, history),
        forall|i: int|
            0 <= i < config.workers ==> (#[trigger] crew_after(config, history)[i]).state is Left,
    ensures
        in_progress(crew_after(config, history)) == 0,
{
    law_crew_keeps_its_order(config, history);
    let crew = crew_after(config, history);
    assert forall|i: int| 0 <= i < crew.len() implies (#[trigger] crew[i]).running <= 0nat by {
        assert(crew[i].wf());
    }
    lemma_in_progress(crew, 0);
    assert(crew.len() * 0 == 0);
}

proof fn lemma_held_update<M>(crew: Seq<Worker<M>>, who: Set<int>, i: int, worker: Worker<M>)
    requires
        0 <= i < crew.len(),
    ensures
        held(crew.update(i, worker), who).add(own_held(crew[i], i, who)) =~= held(crew, who).add(
            own_held(worker, i, who),
        ),
    decreases crew.len(),
{
    let updated = crew.update(i, worker);
    if i == crew.len() - 1 {
        assert(updated.drop_last() =~= crew.drop_last());
    } else {
        assert(updated.drop_last() =~= crew.drop_last().update(i, worker));
        let front = crew.drop_last();
        lemma_held_update(front, who, i, worker);
        assert forall|message: M| #[trigger]
            held(updated, who).add(own_held(crew[i], i, who)).count(message) == held(
                crew,
                who,
            ).add(own_held(worker, i, who)).count(message) by {
            assert(held(front.update(i, worker), who).add(own_held(front[i], i, who)).count(message)
                == held(front, who).add(own_held(worker, i, who)).count(message));
        }
    }
}

proof fn lemma_one_more<M>(messages: Seq<M>, next: Option<M>)
    ensures
        with_next(messages, next).to_multiset() =~= messages.to_multiset().add(
            at_most_one(next),
        ),
{
    if let Some(message) = next {
        vstd::seq_lib::to_multiset_build(messages, message);
    }
}

proof fn lemma_none_held<M>(config: WorkerConfig, workers: nat, who: Set<int>)
    requires
        workers <= config.workers,
    ensures
        held(worker::crew_of::<M>(config).take(workers as int), who) =~= Multiset::empty(),
    decreases workers,
{
    if workers > 0 {
        let crew = worker::crew_of::<M>(config).take(workers as int);
        assert(crew.drop_last() =~= worker::crew_of::<M>(config).take(workers - 1));
        lemma_none_held::<M>(config, (workers - 1) as nat, who);
    }
}

/// Whatever workers of a service one looks at: each message that they received was brought to
/// `handle` once, or waits for a permit, or was lost with a run that panicked while it waited.
pub proof fn law_messages_are_accounted_for<M>(
    config: WorkerConfig,
    history: Seq<Moment<M>>,
    who: Set<int>,
)
    requires
        happens(config, history),
    ensures
        received(history, who).to_multiset() == handed(config, history, who).to_multiset().add(
            lost(config, history, who).to_multiset(),
        ).add(held(crew_after(config, history), who)),
    decreases history.len(),
{
    if history.len() == 0 {
        let crew = worker::crew_of::<M>(config);
        lemma_none_held::<M>(config, config.workers as nat, who);
        assert(crew.take(config.workers as int) =~= crew);
        vstd::seq_lib::to_multiset_len(Seq::<M>::empty());
        assert(Seq::<M>::empty().to_multiset() =~= Multiset::empty());
    } else {
        let earlier = history.drop_last();
        law_messages_are_accounted_for(config, earlier, who);
        law_crew_keeps_its_order(config, earlier);
        let moment = history.last();
        let crew = crew_after(config, earlier);
        let worker = crew[moment.worker];
        assert(worker.wf());
        lemma_held_update(crew, who, moment.worker, worker.changed(moment.change));
        if who.contains(moment.worker) {
            lemma_one_more(received(earlier, who), brought(moment.change));
            lemma_one_more(handed(config, earlier, who), worker.hands_over(moment.change));
            lemma_one_more(lost(config, earlier, who), worker.loses(moment.change));
            assert(at_most_one(brought(moment.change)).add(at_most_one(worker.holds()))
                =~= at_most_one(worker.hands_over(moment.change)).add(
                at_most_one(worker.loses(moment.change)),
            ).add(at_most_one(worker.changed(moment.change).holds())));
        }
        let now = held(crew_after(config, history), who);
        let before = held(crew, who);
        let own = own_held(worker, moment.worker, who);
        let own_now = own_held(worker.changed(moment.change), moment.worker, who);
        assert forall|message: M| #[trigger]
            received(history, who).to_multiset().count(message) == handed(
                config,
                history,
                who,
            ).to_multiset().add(lost(config, history, who).to_multiset()).add(now).count(
                message,
            ) by {
            assert(now.add(own).count(message) == before.add(own_now).count(message));
            assert(received(earlier, who).to_multiset().count(message) == handed(
                config,
                earlier,
                who,
            ).to_multiset().add(lost(config, earlier, who).to_multiset()).add(before).count(
                message,
            ));
            if who.contains(moment.worker) {
                assert(at_most_one(brought(moment.change)).add(at_most_one(worker.holds())).count(
                    message,
                ) == at_most_one(worker.hands_over(moment.change)).add(
                    at_most_one(worker.loses(moment.change)),
                ).add(at_most_one(worker.changed(moment.change).holds())).count(message));
            }
        }
        assert(received(history, who).to_multiset() =~= handed(
            config,
            history,
            who,
        ).to_multiset().add(lost(config, history, who).to_multiset()).add(now));
    }
}

/// A worker brings its messages to `handle` in the order in which it received them, if it lost
/// none; all but the one, at most, that waits for a permit.
pub proof fn law_worker_hands_over_in_order<M>(
    config: WorkerConfig,
    history: Seq<Moment<M>>,
    i: int,
)
    requires
        happens(config, history),
        0 <= i < config.workers,
        lost(config, history, set![i]).len() == 0,
    ensures
        received(history, set![i]) == with_next(
            handed(config, history, set![i]),
            crew_after(config, history)[i].holds(),
        ),
    decreases history.len(),
{
    if history.len() > 0 {
        law_crew_keeps_its_order(config, history.drop_last());
        assert(crew_after(config, history.drop_last())[history.last().worker].wf());
        law_worker_hands_over_in_order(config, history.drop_last(), i);
    }
}

/// Workers that handle one message after the other bring every message that they receive to
/// `handle` at once, in the order in which they came, and lose none.
pub proof fn law_sequential_workers_keep_the_order<M>(
    config: WorkerConfig,
    history: Seq<Moment<M>>,
    who: Set<int>,
)
    requires
        happens(config, history),
        config.concurrent is None,
    ensures
        handed(config, history, who) == received(history, who),
        lost(config, history, who) == Seq::<M>::empty(),
    decreases history.len(),
{
    if history.len() > 0 {
        law_crew_keeps_its_order(config, history.drop_last());
        assert(crew_after(config, history.drop_last())[history.last().worker].wf());
        law_sequential_workers_keep_the_order(config, history.drop_last(), who);
    }
}

proof fn lemma_received_apart<M>(history: Seq<Moment<M>>, one: int, other: int)
    requires
        one != other,
    ensures
        received(history, set![one]).to_multiset().add(
            received(history, set![other]).to_multiset(),
        ).subset_of(received(history, Set::full()).to_multiset()),
    decreases history.len(),
{
    let all = Set::<int>::full();
    if history.len() == 0 {
        vstd::seq_lib::to_multiset_len(Seq::<M>::empty());
        assert(Seq::<M>::empty().to_multiset() =~= Multiset::empty());
    } else {
        let earlier = history.drop_last();
        lemma_received_apart(earlier, one, other);
        let next = brought(history.last().change);
        lemma_one_more(received(earlier, all), next);
        lemma_one_more(received(earlier, set![one]), next);
        lemma_one_more(received(earlier, set![other]), next);
        let apart = received(history, set![one]).to_multiset().add(
            received(history, set![other]).to_multiset(),
        );
        assert forall|message: M| #[trigger]
            apart.count(message) <= received(history, all).to_multiset().count(message) by {
            assert(received(earlier, set![one]).to_multiset().add(
                received(earlier, set![other]).to_multiset(),
            ).count(message) <= received(earlier, all).to_multiset().count(message));
        }
    }
}

proof fn lemma_prefix<M>(prefix: Seq<M>, messages: Seq<M>)
    requires
        prefix.is_prefix_of(messages),
    ensures
        prefix.to_multiset().subset_of(messages.to_multiset()),
{
    let rest = messages.skip(prefix.len() as int);
    assert(messages =~= prefix + rest);
    vstd::seq_lib::lemma_multiset_commutative(prefix, rest);
}

/// The workers of a service share its messages. Where the channel gives them out in the order in
/// which they were sent, each to one worker:
/// - each message is brought to `handle` at most as often as it was sent, so at most once where no
///   message was sent twice;
/// - it is brought there by one worker: two of them together stay within what was sent;
/// - workers that handle one message after the other bring them there in the order sent, and a
///   single one of them handles one at a time.
pub proof fn law_messages_are_handled_once<M>(
    config: WorkerConfig,
    history: Seq<Moment<M>>,
    sent: Seq<M>,
    one: int,
    other: int,
)
    requires
        happens(config, history),
        received(history, Set::full()).is_prefix_of(sent),
        one != other,
    ensures
        handed(config, history, Set::full()).to_multiset().subset_of(sent.to_multiset()),
        sent.no_duplicates() ==> handed(config, history, Set::full()).no_duplicates(),
        handed(config, history, set![one]).to_multiset().add(
            handed(config, history, set![other]).to_multiset(),
        ).subset_of(sent.to_multiset()),
        config.concurrent is None ==> handed(config, history, Set::full()).is_prefix_of(sent),
        config.concurrent is None && config.workers == 1 ==> in_progress(
            crew_after(config, history),
        ) <= 1,
{
    let all = Set::<int>::full();
    lemma_prefix(received(history, all), sent);
    law_messages_are_accounted_for(config, history, all);
    let brought_all = handed(config, history, all);
    assert forall|message: M| #[trigger]
        brought_all.to_multiset().count(message) <= sent.to_multiset().count(message) by {
        assert(received(history, all).to_multiset().count(message) >= brought_all.to_multiset().count(
            message,
        ));
    }
    if sent.no_duplicates() {
        sent.lemma_multiset_has_no_duplicates();
        assert forall|message: M| #[trigger]
            brought_all.to_multiset().contains(message) implies brought_all.to_multiset().count(
            message,
        ) == 1 by {
            assert(sent.to_multiset().contains(message));
        }
        brought_all.lemma_multiset_has_no_duplicates_conv();
    }
    lemma_received_apart(history, one, other);
    law_messages_are_accounted_for(config, history, set![one]);
    law_messages_are_accounted_for(config, history, set![other]);
    let apart = handed(config, history, set![one]).to_multiset().add(
        handed(config, history, set![other]).to_multiset(),
    );
    assert forall|message: M| #[trigger]
        apart.count(message) <= sent.to_multiset().count(message) by {
        assert(received(history, set![one]).to_multiset().add(
            received(history, set![other]).to_multiset(),
        ).count(message) <= received(history, all).to_multiset().count(message));
        assert(handed(config, history, set![one]).to_multiset().count(message) <= received(
            history,
            set![one],
        ).to_multiset().count(message));
        assert(handed(config, history, set![other]).to_multiset().count(message) <= received(
            history,
            set![other],
        ).to_multiset().count(message));
    }
    if config.concurrent is None {
        law_sequential_workers_keep_the_order(config, history, all);
        law_calls_are_bounded(config, history);
    }
}

} // verus!
