//! Events: buses, emitters and subscribers.

use tokio::sync::broadcast::{Receiver, Sender};
use vstd::prelude::*;

verus! {

/// `tokio::sync::broadcast::Sender`: a handle on the sending side of a broadcast channel.
/// Handles on one channel are the same value.
#[verifier::external_type_specification]
#[verifier::external_body]
#[verifier::reject_recursive_types(T)]
pub struct ExBroadcastSender<T>(Sender<T>);

/// `tokio::sync::broadcast::Receiver`: one receiver of a broadcast channel.
#[verifier::external_type_specification]
#[verifier::external_body]
#[verifier::reject_recursive_types(T)]
pub struct ExBroadcastReceiver<T>(Receiver<T>);

/// Calls `tokio::sync::broadcast::channel` and keeps the sending side of the new channel, which
/// holds at least `capacity` events. Trusted: it does not panic for a capacity that is neither 0
/// nor above `usize::MAX / 2`. Of the handle itself nothing is claimed: what a channel holds is
/// no part of its value. `opened` says that a handle came from here.
#[verifier::external_body]
fn channel<E: Clone>(capacity: usize) -> (sender: Sender<E>)
    requires
        0 < capacity <= usize::MAX / 2,
{
    tokio::sync::broadcast::channel::<E>(capacity).0
}

/// Calls `Sender::clone`. Trusted: the copy is a handle on the same channel.
#[verifier::external_body]
fn clone_sender<E>(sender: &Sender<E>) -> (copy: Sender<E>)
    ensures
        copy == *sender,
{
    sender.clone()
}

/// Calls `Sender::send`. Trusted: an event that was sent is sent to at least one receiver, and an
/// event that was not comes back. Which of the two happens rests on the receivers there are.
#[verifier::external_body]
fn send<E>(sender: &Sender<E>, event: E) -> (sent: Result<usize, E>)
    ensures
        match sent {
            Ok(receivers) => receivers > 0,
            Err(returned) => returned == event,
        },
{
    sender.send(event).map_err(|error| error.0)
}

/// Calls `Sender::subscribe`: a receiver of what is sent from now on. Nothing is claimed: the
/// receiver's events are no part of its value. `subscribed` says that a receiver came from here.
#[verifier::external_body]
fn subscribe<E>(sender: &Sender<E>) -> Receiver<E> {
    sender.subscribe()
}

/// Calls `Receiver::resubscribe`: another receiver on the same channel, of what is sent from now
/// on. Nothing is claimed: the receiver's events are no part of its value. `resubscribed` says
/// that a receiver came from here.
#[verifier::external_body]
fn resubscribe<E: Clone>(receiver: &Receiver<E>) -> Receiver<E> {
    receiver.resubscribe()
}

/// The bus of one event.
#[verifier::reject_recursive_types(E)]
pub struct EventBus<E> {
    sender: Sender<E>,
}

/// Event emitter: fire-and-forget broadcast to all subscribers.
#[verifier::reject_recursive_types(E)]
pub struct Emit<E> {
    sender: Sender<E>,
}

/// Event subscriber: receives events, skips missed ones if it lags.
#[verifier::reject_recursive_types(E)]
pub struct Sub<E> {
    pub receiver: Receiver<E>,
}

/// What came to a subscriber.
#[derive(Debug, PartialEq)]
pub enum Delivery<E> {
    /// An event.
    Event(E),
    /// That many events were missed.
    Lagged(u64),
    /// No event will come any more.
    Closed,
}

/// What a subscriber does with that.
#[derive(Debug, PartialEq)]
pub enum RecvStep<E> {
    /// Return this to the caller.
    Return(Option<E>),
    /// Wait again.
    Again,
}

impl<E: Clone> EventBus<E> {
    /// A bus that holds `capacity` events for each subscriber.
    pub fn new(capacity: usize) -> (bus: EventBus<E>)
        requires
            0 < capacity <= usize::MAX / 2,
        ensures
            opened(capacity, bus.channel()),
    {
        EventBus { sender: channel(capacity) }
    }
}

impl<E> EventBus<E> {
    /// The channel behind the bus.
    pub closed spec fn channel(&self) -> Sender<E> {
        self.sender
    }

    /// An emitter on this bus.
    pub fn emitter(&self) -> (emit: Emit<E>)
        ensures
            emit.channel() == self.channel(),
    {
        Emit { sender: clone_sender(&self.sender) }
    }

    /// A subscriber to what is emitted on this bus from now on.
    pub fn subscriber(&self) -> (sub: Sub<E>)
        ensures
            subscribed(self.channel(), sub.receiver),
    {
        Sub { receiver: subscribe(&self.sender) }
    }
}

/// Whether `channel` can be what `tokio::sync::broadcast::channel` opens for `capacity` events.
pub closed spec fn opened<E: Clone>(capacity: usize, channel: Sender<E>) -> bool {
    call_ensures(self::channel::<E>, (capacity,), channel)
}

/// Whether `receiver` can be what `Sender::subscribe` gives out on `channel`.
pub closed spec fn subscribed<E>(channel: Sender<E>, receiver: Receiver<E>) -> bool {
    call_ensures(subscribe::<E>, (&channel,), receiver)
}

/// Whether `copy` can be what `Receiver::resubscribe` gives out on the channel of `receiver`.
pub closed spec fn resubscribed<E: Clone>(receiver: Receiver<E>, copy: Receiver<E>) -> bool {
    call_ensures(resubscribe::<E>, (&receiver,), copy)
}

/// Whether `sent` can be what `Sender::send` reports when it is given `event` on `channel`.
pub closed spec fn handed<E>(channel: Sender<E>, event: E, sent: Result<usize, E>) -> bool {
    call_ensures(send::<E>, (&channel, event), sent)
}

/// The number of receivers that an event was sent to.
pub open spec fn reached<E>(sent: Result<usize, E>) -> usize {
    match sent {
        Ok(receivers) => receivers,
        Err(_) => 0,
    }
}

/// The number of receivers that an event was sent to.
pub fn receivers_reached<E>(sent: Result<usize, E>) -> (receivers: usize)
    ensures
        receivers == reached(sent),
{
    match sent {
        Ok(receivers) => receivers,
        Err(_) => 0,
    }
}

impl<E> Emit<E> {
    /// The channel behind the emitter.
    pub closed spec fn channel(&self) -> Sender<E> {
        self.sender
    }

    /// Emits an event to all subscribers: hands it to the channel, and returns the number of
    /// receivers that it was sent to.
    pub fn emit(&self, event: E) -> (receivers: usize)
        ensures
            exists|sent: Result<usize, E>| #[trigger]
                handed(self.channel(), event, sent) && receivers == reached(sent),
    {
        let sent = send(&self.sender, event);
        assert(handed(self.channel(), event, sent));
        receivers_reached(sent)
    }
}

impl<E> Clone for Emit<E> {
    fn clone(&self) -> (copy: Self)
        ensures
            copy.channel() == self.channel(),
    {
        Emit { sender: clone_sender(&self.sender) }
    }
}

impl<E: Clone> Clone for Sub<E> {
    fn clone(&self) -> (copy: Self)
        ensures
            resubscribed(self.receiver, copy.receiver),
    {
        Sub { receiver: resubscribe(&self.receiver) }
    }
}

/// What a subscriber does with `delivery`: it returns an event or the end, and waits again where
/// events were missed.
pub open spec fn recv_step<E>(delivery: Delivery<E>) -> RecvStep<E> {
    match delivery {
        Delivery::Event(event) => RecvStep::Return(Some(event)),
        Delivery::Lagged(_) => RecvStep::Again,
        Delivery::Closed => RecvStep::Return(None),
    }
}

/// What a subscriber does with `delivery`.
pub fn next_recv_step<E>(delivery: Delivery<E>) -> (step: RecvStep<E>)
    ensures
        step == recv_step(delivery),
{
    match delivery {
        Delivery::Event(event) => RecvStep::Return(Some(event)),
        Delivery::Lagged(_) => RecvStep::Again,
        Delivery::Closed => RecvStep::Return(None),
    }
}

/// What a subscriber returns when `deliveries` come one after the other; nothing yet if all of
/// them leave it waiting.
pub open spec fn recv_result<E>(deliveries: Seq<Delivery<E>>) -> Option<Option<E>>
    decreases deliveries.len(),
{
    if deliveries.len() == 0 {
        None
    } else {
        match recv_step(deliveries[0]) {
            RecvStep::Return(result) => Some(result),
            RecvStep::Again => recv_result(deliveries.drop_first()),
        }
    }
}

/// A subscriber that lags skips what it missed: however often it is told so, it returns the next
/// event that comes, or the end.
pub proof fn law_lag_is_skipped<E>(lags: Seq<Delivery<E>>, next: Delivery<E>)
    requires
        forall|i: int| 0 <= i < lags.len() ==> (#[trigger] lags[i]) is Lagged,
        !(next is Lagged),
    ensures
        recv_result(lags.push(next)) == Some(
            match next {
                Delivery::Event(event) => Some(event),
                _ => None,
            },
        ),
    decreases lags.len(),
{
    if lags.len() > 0 {
        assert(lags[0] is Lagged);
        assert(lags.push(next).drop_first() =~= lags.drop_first().push(next));
        law_lag_is_skipped(lags.drop_first(), next);
    }
}

/// The number of receivers reached is the one reported, and 0 where nothing was sent.
pub proof fn law_receivers_reached<E>(sent: Result<usize, E>, receivers: usize)
    requires
        call_ensures(receivers_reached::<E>, (sent,), receivers),
    ensures
        sent is Ok ==> receivers == sent->Ok_0,
        sent is Err ==> receivers == 0,
{
}

/// A subscriber returns each event that comes, and the end when there is one; it waits on only
/// where it missed some.
pub proof fn law_delivery_is_returned<E>(delivery: Delivery<E>, step: RecvStep<E>)
    requires
        call_ensures(next_recv_step::<E>, (delivery,), step),
    ensures
        delivery is Event ==> step == RecvStep::Return(Some(delivery->Event_0)),
        delivery is Closed ==> step == RecvStep::Return(None::<E>),
        step is Again <==> delivery is Lagged,
{
}

/// An event goes to the bus that its emitter was taken from, and to no other: the emitter, its
/// copies and the bus share one channel.
pub proof fn law_emitters_share_the_channel_of_their_bus<E>(
    bus: EventBus<E>,
    emit: Emit<E>,
    copy: Emit<E>,
)
    requires
        call_ensures(EventBus::<E>::emitter, (&bus,), emit),
        call_ensures(<Emit<E> as Clone>::clone, (&emit,), copy),
    ensures
        emit.channel() == bus.channel(),
        copy.channel() == bus.channel(),
{
}

/// `opened`, `subscribed`, `resubscribed` and `handed` each say of their arguments that a call was
/// made with them, and of their results that they came of that call.
proof fn law_relations_are_calls<E: Clone>(
    capacity: usize,
    sender: Sender<E>,
    receiver: Receiver<E>,
    copy: Receiver<E>,
    event: E,
    sent: Result<usize, E>,
)
    ensures
        opened(capacity, sender) <==> call_ensures(channel::<E>, (capacity,), sender),
        subscribed(sender, receiver) <==> call_ensures(subscribe::<E>, (&sender,), receiver),
        resubscribed(receiver, copy) <==> call_ensures(resubscribe::<E>, (&receiver,), copy),
        handed(sender, event, sent) <==> call_ensures(send::<E>, (&sender, event), sent),
{
}

/// An event goes from an emitter to the channel of its bus, and the number of receivers that is
/// returned is what came of that; subscribers, and their copies, are on the channel of their bus.
pub proof fn law_bus_connects<E: Clone>(
    capacity: usize,
    bus: EventBus<E>,
    emit: Emit<E>,
    event: E,
    receivers: usize,
    sub: Sub<E>,
    copy: Sub<E>,
)
    requires
        0 < capacity <= usize::MAX / 2,
        call_ensures(EventBus::<E>::new, (capacity,), bus),
        call_ensures(EventBus::<E>::emitter, (&bus,), emit),
        call_ensures(Emit::<E>::emit, (&emit, event), receivers),
        call_ensures(EventBus::<E>::subscriber, (&bus,), sub),
        call_ensures(<Sub<E> as Clone>::clone, (&sub,), copy),
    ensures
        opened(capacity, bus.channel()),
        exists|sent: Result<usize, E>| #[trigger]
            handed(bus.channel(), event, sent) && {
                &&& sent is Ok ==> receivers == sent->Ok_0
                &&& sent is Err ==> receivers == 0
            },
        subscribed(bus.channel(), sub.receiver),
        resubscribed(sub.receiver, copy.receiver),
{
    let sent = choose|sent: Result<usize, E>| #[trigger]
        handed(emit.channel(), event, sent) && receivers == reached(sent);
    assert(handed(bus.channel(), event, sent));
}

} // verus!
