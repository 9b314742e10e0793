//! The channel of a service.

use async_channel::{Receiver, Sender};
use vstd::prelude::*;

verus! {

/// `async_channel::Sender`: a handle on the sending side of a channel. Handles on one channel are
/// the same value.
#[verifier::external_type_specification]
#[verifier::external_body]
#[verifier::reject_recursive_types(T)]
pub struct ExSender<T>(Sender<T>);

/// `async_channel::Receiver`: a handle on the receiving side of a channel.
#[verifier::external_type_specification]
#[verifier::external_body]
#[verifier::reject_recursive_types(T)]
pub struct ExReceiver<T>(Receiver<T>);

/// Calls `async_channel::bounded`: the two ends of a new channel that holds `capacity` messages.
/// Trusted: it does not panic for a capacity above 0. Of the ends themselves nothing is claimed:
/// what a channel holds is no part of their values. `opened` says that a pair came from here.
#[verifier::external_body]
fn bounded<M>(capacity: usize) -> (ends: (Sender<M>, Receiver<M>))
    requires
        capacity > 0,
{
    async_channel::bounded::<M>(capacity)
}

/// Calls `Sender::clone`. Trusted: the copy is a handle on the same channel.
#[verifier::external_body]
fn clone_sender<M>(sender: &Sender<M>) -> (copy: Sender<M>)
    ensures
        copy == *sender,
{
    sender.clone()
}

/// Calls `Receiver::clone`: another receiving end of the same channel. Nothing is claimed of the
/// copy; `shared` says that it came from here.
#[verifier::external_body]
pub(crate) fn clone_receiver<M>(receiver: &Receiver<M>) -> Receiver<M> {
    receiver.clone()
}

/// Calls `Sender::close`, which closes the channel behind the shared handle. Nothing is claimed
/// of the result, whether the channel was still open; `closed_by` says that it came from here.
#[verifier::external_body]
fn close<M>(sender: &Sender<M>) -> bool {
    sender.close()
}

/// Whether `sender` and `receiver` can be the two ends that `async_channel::bounded` returns for
/// `capacity` messages.
pub closed spec fn opened<M>(capacity: usize, sender: Sender<M>, receiver: Receiver<M>) -> bool {
    call_ensures(bounded::<M>, (capacity,), (sender, receiver))
}

/// Whether `copy` can be what `Receiver::clone` returns for `receiver`.
pub open(crate) spec fn shared<M>(receiver: Receiver<M>, copy: Receiver<M>) -> bool {
    call_ensures(clone_receiver::<M>, (&receiver,), copy)
}

/// Whether `open` can be what `Sender::close` returns for `channel`.
pub closed spec fn closed_by<M>(channel: Sender<M>, open: bool) -> bool {
    call_ensures(self::close::<M>, (&channel,), open)
}

/// The channel of a service: its two ends, and what closes it.
#[verifier::reject_recursive_types(M)]
pub struct ServiceChannel<M> {
    pub sender: Sender<M>,
    pub receiver: Receiver<M>,
    pub closer: Closer<M>,
}

/// Closes the channel of a service.
#[verifier::reject_recursive_types(M)]
pub struct Closer<M> {
    sender: Sender<M>,
}

impl<M> Closer<M> {
    /// The channel that this closes.
    pub closed spec fn channel(&self) -> Sender<M> {
        self.sender
    }

    /// Closes the channel: nothing more can be sent, and what was sent can still be received.
    pub fn close(self)
        ensures
            exists|open: bool| #[trigger] closed_by(self.channel(), open),
    {
        let open = close(&self.sender);
        assert(closed_by(self.channel(), open));
    }
}

impl<M> ServiceChannel<M> {
    /// A channel that holds `capacity` messages.
    pub fn new(capacity: usize) -> (channel: Self)
        requires
            capacity > 0,
        ensures
            opened(capacity, channel.sender, channel.receiver),
            channel.closer.channel() == channel.sender,
    {
        let (sender, receiver) = bounded(capacity);
        let closer = Closer { sender: clone_sender(&sender) };
        ServiceChannel { sender, receiver, closer }
    }
}

/// `opened`, `shared` and `closed_by` each say of their arguments that a call was made with them,
/// and of their results that they came of that call.
proof fn law_relations_are_calls<M>(
    capacity: usize,
    sender: Sender<M>,
    receiver: Receiver<M>,
    copy: Receiver<M>,
    open: bool,
)
    ensures
        opened(capacity, sender, receiver) <==> call_ensures(
            bounded::<M>,
            (capacity,),
            (sender, receiver),
        ),
        shared(receiver, copy) <==> call_ensures(clone_receiver::<M>, (&receiver,), copy),
        closed_by(sender, open) <==> call_ensures(close::<M>, (&sender,), open),
{
}

/// The two ends of a service's channel are those of one channel, opened for as many messages as
/// was asked for, and its closer closes that channel.
pub proof fn law_channel_is_one<M>(capacity: usize, channel: ServiceChannel<M>)
    requires
        capacity > 0,
        call_ensures(ServiceChannel::<M>::new, (capacity,), channel),
        call_ensures(Closer::<M>::close, (channel.closer,), ()),
    ensures
        opened(capacity, channel.sender, channel.receiver),
        exists|open: bool| #[trigger] closed_by(channel.sender, open),
{
}

} // verus!
