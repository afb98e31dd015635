//! The update bus and the filter of one live connection.
//!
//! The bus is a `tokio` broadcast channel. Every handle of the channel shares
//! its state with all the others, in this thread and in others, so nothing is
//! claimed of what a receive returns: the filter is verified for every value
//! that can come out of the channel.

use crate::models::LiveUpdate;
use crate::rules::after_commit;
use crate::rules::reply_after;
use crate::rules::Rejection;
use crate::rules::StoreError;
use tokio::sync::broadcast::error::TryRecvError;
use tokio::sync::broadcast::Receiver;
use tokio::sync::broadcast::Sender;
use vstd::prelude::*;

verus! {

/// Number of updates the bus is asked to retain for subscribers that fall behind.
pub const HISTORY: usize = 100;

/// Number of subscriptions the bus takes at one time. The channel itself
/// gives up at twice as many, which leaves room for subscribers that pass
/// the check at the same moment.
pub const MAX_SUBSCRIBERS: usize = usize::MAX / 8;

/// `tokio::sync::broadcast::Sender`: the sending half of a broadcast channel.
#[verifier::external_type_specification]
#[verifier::external_body]
#[verifier::reject_recursive_types(T)]
pub struct ExSender<T>(tokio::sync::broadcast::Sender<T>);

/// `tokio::sync::broadcast::Receiver`: one subscriber's position in a
/// broadcast channel.
#[verifier::external_type_specification]
#[verifier::external_body]
#[verifier::reject_recursive_types(T)]
pub struct ExReceiver<T>(tokio::sync::broadcast::Receiver<T>);

/// What one pull from the bus brought.
#[derive(Clone, Debug, PartialEq, Eq)]
pub enum Pulled {
    /// The next update in publication order.
    Update(LiveUpdate),
    /// The subscriber fell behind and this many updates were dropped for it.
    Lagged(u64),
    /// The bus is gone: no update will follow.
    Closed,
}

/// What a live connection does after one pull.
#[derive(Clone, Debug, PartialEq, Eq)]
pub enum Step {
    /// Send one event with this text to the client.
    Emit(String),
    /// Send nothing and pull again.
    Skip,
    /// End the stream.
    End,
}

/// The number of slots in the ring of the channel that `sender` belongs to:
/// the length of the channel's buffer, which is fixed when the channel is
/// made and is the same for every handle of it.
pub uninterp spec fn ring_size(sender: Sender<LiveUpdate>) -> nat;

/// `tokio::sync::broadcast::channel`, of which the sending half is kept. The
/// channel panics on a capacity of zero or above `usize::MAX / 2`. It rounds
/// the capacity up to a power of two, so its ring has at least `capacity`
/// slots. Nothing else is claimed of the sender.
#[verifier::external_body]
fn open_channel(capacity: usize) -> (sender: Sender<LiveUpdate>)
    requires
        0 < capacity <= usize::MAX / 2,
    ensures
        ring_size(sender) >= capacity,
{
    tokio::sync::broadcast::channel(capacity).0
}

/// `Sender::send`: hands `update` to every receiver that is subscribed now.
/// It gives the number of those receivers, or fails when there is none; the
/// number it gives is therefore never zero.
#[verifier::external_body]
fn send(sender: &Sender<LiveUpdate>, update: LiveUpdate) -> (receivers: Option<usize>)
    ensures
        receivers != Some(0usize),
{
    sender.send(update).ok()
}

/// `Sender::receiver_count`: the number of receivers subscribed now. Other
/// handles of the channel change it at any time, so nothing is claimed of it.
#[verifier::external_body]
fn receiver_count(sender: &Sender<LiveUpdate>) -> (receivers: usize) {
    sender.receiver_count()
}

/// `Sender::subscribe`: a new receiver, which is handed what is sent from now
/// on. The channel panics once `usize::MAX / 4` receivers are subscribed at
/// the same time; the bus asks for none beyond [`MAX_SUBSCRIBERS`]. Nothing is
/// claimed of the receiver.
#[verifier::external_body]
fn new_receiver(sender: &Sender<LiveUpdate>) -> (receiver: Receiver<LiveUpdate>) {
    sender.subscribe()
}

/// `Receiver::try_recv`: the next update if one is waiting, without blocking.
/// `None` stands for an empty channel. What comes back depends on what other
/// handles of the channel did, so nothing is claimed of it.
#[verifier::external_body]
fn try_receive(receiver: &mut Receiver<LiveUpdate>) -> (pulled: Option<Pulled>) {
    match receiver.try_recv() {
        Ok(update) => Some(Pulled::Update(update)),
        Err(TryRecvError::Empty) => None,
        Err(TryRecvError::Lagged(missed)) => Some(Pulled::Lagged(missed)),
        Err(TryRecvError::Closed) => Some(Pulled::Closed),
    }
}

/// A filter bound to `event_id` forwards exactly the updates of that game.
pub open spec fn forwards(event_id: u128, update: LiveUpdate) -> bool {
    update.event_id() == event_id
}

/// The step for an update that was forwarded and then encoded: an update that
/// could not be encoded is dropped.
pub open spec fn emitted(encoded: Option<String>) -> Step {
    match encoded {
        Some(text) => Step::Emit(text),
        None => Step::Skip,
    }
}

/// The step after `pulled`, where `encoded` is what encoding the update gave.
/// An update of another game and a lag are skipped; only a closed bus ends the
/// stream.
pub open spec fn step_after(event_id: u128, pulled: Pulled, encoded: Option<String>) -> Step {
    match pulled {
        Pulled::Update(update) => if forwards(event_id, update) {
            emitted(encoded)
        } else {
            Step::Skip
        },
        Pulled::Lagged(_) => Step::Skip,
        Pulled::Closed => Step::End,
    }
}

/// Decides whether a filter bound to `event_id` forwards `update`.
pub fn is_forwarded(event_id: u128, update: &LiveUpdate) -> (yes: bool)
    ensures
        yes == forwards(event_id, *update),
{
    update.event_id() == event_id
}

/// Turns the outcome of encoding a forwarded update into a step.
pub fn emit(encoded: Option<String>) -> (step: Step)
    ensures
        step == emitted(encoded),
{
    match encoded {
        Some(text) => Step::Emit(text),
        None => Step::Skip,
    }
}

/// Whether a filter bound to `event_id` hands `pulled` on to be encoded.
pub open spec fn reaches_encoder(event_id: u128, pulled: Pulled) -> bool {
    pulled matches Pulled::Update(update) && forwards(event_id, update)
}

/// Decides what a connection bound to `event_id` does with `pulled`.
///
/// `encode` is called on an update of that game, and on nothing else. What
/// it returns decides between emitting and skipping; for every other pull the
/// step is fixed.
pub fn filter_pulled<F: FnOnce(&LiveUpdate) -> Option<String>>(
    event_id: u128,
    pulled: Pulled,
    encode: F,
) -> (step: Step)
    requires
        forall|update: LiveUpdate|
            pulled == Pulled::Update(update) && forwards(event_id, update) ==> call_requires(
                encode,
                (&update,),
            ),
    ensures
        exists|encoded: Option<String>|
            step == #[trigger] step_after(event_id, pulled, encoded) && (reaches_encoder(
                event_id,
                pulled,
            ) ==> call_ensures(encode, (&pulled->Update_0,), encoded)),
{
    match pulled {
        Pulled::Update(update) => {
            if is_forwarded(event_id, &update) {
                let encoded = encode(&update);
                let step = emit(encoded);
                assert(step == step_after(event_id, pulled, encoded));
                step
            } else {
                assert(Step::Skip == step_after(event_id, pulled, None));
                Step::Skip
            }
        },
        Pulled::Lagged(_) => {
            assert(Step::Skip == step_after(event_id, pulled, None));
            Step::Skip
        },
        Pulled::Closed => {
            assert(Step::End == step_after(event_id, pulled, None));
            Step::End
        },
    }
}

/// The updates that a filter bound to `event_id` forwards out of `published`,
/// in the order in which it forwards them.
pub open spec fn forwarded(event_id: u128, published: Seq<LiveUpdate>) -> Seq<LiveUpdate>
    decreases published.len(),
{
    if published.len() == 0 {
        Seq::empty()
    } else {
        let earlier = forwarded(event_id, published.drop_last());
        if forwards(event_id, published.last()) {
            earlier.push(published.last())
        } else {
            earlier
        }
    }
}

/// A filter forwards an update exactly when the update belongs to the game
/// the filter is bound to: an update of that game is emitted as it was
/// encoded, and no update of another game is ever emitted.
pub proof fn forwarding_is_by_game(event_id: u128, update: LiveUpdate, text: String)
    ensures
        step_after(event_id, Pulled::Update(update), Some(text)) == Step::Emit(text)
            <==> update.event_id() == event_id,
        forall|encoded: Option<String>|
            update.event_id() != event_id ==> #[trigger] step_after(
                event_id,
                Pulled::Update(update),
                encoded,
            ) == Step::Skip,
{
}

/// Of two filters bound to different games, an update of the first game gives
/// one event on the first filter and nothing on the second.
pub proof fn no_cross_talk(first: u128, second: u128, update: LiveUpdate, text: String)
    requires
        first != second,
        update.event_id() == first,
    ensures
        step_after(first, Pulled::Update(update), Some(text)) == Step::Emit(text),
        forall|encoded: Option<String>| #[trigger]
            step_after(second, Pulled::Update(update), encoded) == Step::Skip,
        forwarded(first, seq![update]) == seq![update],
        forwarded(second, seq![update]) == Seq::<LiveUpdate>::empty(),
{
    let one = seq![update];
    assert(one.drop_last() =~= Seq::<LiveUpdate>::empty());
    assert(forwarded(first, one.drop_last()) == Seq::<LiveUpdate>::empty());
    assert(forwarded(second, one.drop_last()) == Seq::<LiveUpdate>::empty());
    assert(forwarded(first, one) =~= one);
}

/// A lag is skipped and never ends the stream: the stream ends on a closed
/// bus and on nothing else.
pub proof fn only_closing_ends_the_stream(event_id: u128, pulled: Pulled, encoded: Option<String>)
    ensures
        step_after(event_id, pulled, encoded) == Step::End <==> pulled == Pulled::Closed,
        pulled is Lagged ==> step_after(event_id, pulled, encoded) == Step::Skip,
{
}

/// Every update that a filter forwards was published, and belongs to the
/// filter's game.
pub proof fn forwarded_was_published(event_id: u128, published: Seq<LiveUpdate>, i: int)
    requires
        0 <= i < forwarded(event_id, published).len(),
    ensures
        forwards(event_id, forwarded(event_id, published)[i]),
        exists|at: int|
            0 <= at < published.len() && #[trigger] published[at] == forwarded(
                event_id,
                published,
            )[i],
    decreases published.len(),
{
    let earlier = forwarded(event_id, published.drop_last());
    if i < earlier.len() {
        forwarded_was_published(event_id, published.drop_last(), i);
        let at = choose|at: int|
            0 <= at < published.drop_last().len() && #[trigger] published.drop_last()[at]
                == earlier[i];
        assert(published[at] == forwarded(event_id, published)[i]);
    } else {
        assert(published[published.len() - 1] == forwarded(event_id, published)[i]);
    }
}

/// The filter keeps the order of publication: of two updates that it
/// forwards, the one forwarded first was published first.
pub proof fn order_is_kept(event_id: u128, published: Seq<LiveUpdate>, i: int, j: int)
    requires
        0 <= i < j < forwarded(event_id, published).len(),
    ensures
        exists|first: int, second: int|
            0 <= first < second < published.len() && #[trigger] published[first] == forwarded(
                event_id,
                published,
            )[i] && #[trigger] published[second] == forwarded(event_id, published)[j],
    decreases published.len(),
{
    let earlier = forwarded(event_id, published.drop_last());
    if j < earlier.len() {
        order_is_kept(event_id, published.drop_last(), i, j);
        let (first, second) = choose|first: int, second: int|
            0 <= first < second < published.drop_last().len()
                && #[trigger] published.drop_last()[first] == earlier[i]
                && #[trigger] published.drop_last()[second] == earlier[j];
        assert(published[first] == forwarded(event_id, published)[i]);
        assert(published[second] == forwarded(event_id, published)[j]);
    } else {
        forwarded_was_published(event_id, published.drop_last(), i);
        let first = choose|at: int|
            0 <= at < published.drop_last().len() && #[trigger] published.drop_last()[at]
                == earlier[i];
        let second = published.len() - 1;
        assert(published[first] == forwarded(event_id, published)[i]);
        assert(published[second] == forwarded(event_id, published)[j]);
    }
}

/// A filter forwards all that is published for its own game, as it was
/// published: nothing is dropped, repeated or moved.
pub proof fn own_game_passes_unchanged(event_id: u128, published: Seq<LiveUpdate>)
    requires
        forall|at: int| 0 <= at < published.len() ==> forwards(event_id, #[trigger] published[at]),
    ensures
        forwarded(event_id, published) == published,
    decreases published.len(),
{
    if published.len() > 0 {
        own_game_passes_unchanged(event_id, published.drop_last());
        assert(published.drop_last().push(published.last()) =~= published);
    }
}

/// The number of subscribers a publication reports: those that were handed
/// the update, none if the bus had no subscriber.
pub open spec fn reached(receivers: Option<usize>) -> usize {
    match receivers {
        Some(count) => count,
        None => 0,
    }
}

/// The process-wide bus on which every committed change is published once.
pub struct UpdateBus {
    sender: Sender<LiveUpdate>,
}

impl UpdateBus {
    /// The number of updates the bus retains for a subscriber that falls
    /// behind.
    pub closed spec fn history(&self) -> nat {
        ring_size(self.sender)
    }

    /// A bus without subscribers that retains at least [`HISTORY`] updates.
    pub fn new() -> (bus: UpdateBus)
        ensures
            bus.history() >= HISTORY,
    {
        UpdateBus { sender: open_channel(HISTORY) }
    }

    /// Publishes `update` to the subscribers there are now, without blocking.
    ///
    /// The count of those subscribers is returned for information only: a bus
    /// without subscribers takes the update and returns zero.
    pub fn publish(&self, update: LiveUpdate) -> (subscribers: usize) {
        subscribers_reached(send(&self.sender, update))
    }

    /// Publishes the update of a change once the store has answered for it,
    /// and gives the reply to the client: what the change gave, if it was
    /// committed, and else the rejection that tells of its failure. Only a
    /// committed change is published.
    pub fn publish_committed<T>(&self, committed: Result<(T, LiveUpdate), StoreError>) -> (reply:
        Result<T, Rejection>)
        ensures
            reply == reply_after(committed),
    {
        let (update, reply) = after_commit(committed);
        match update {
            Some(update) => {
                self.publish(update);
            },
            None => {},
        }
        reply
    }

    /// Opens a subscription bound to the game `event_id`. Its stream begins
    /// now: it is handed what is published after this call.
    ///
    /// A bus that has [`MAX_SUBSCRIBERS`] subscriptions open takes no more and
    /// returns `None`.
    pub fn subscribe(&self, event_id: u128) -> (subscription: Option<Subscription>)
        ensures
            subscription matches Some(opened) ==> opened.event_id() == event_id,
    {
        if has_room(receiver_count(&self.sender)) {
            Some(Subscription { event_id, receiver: new_receiver(&self.sender) })
        } else {
            None
        }
    }
}

/// Decides whether a bus with `subscribers` subscriptions takes one more.
pub fn has_room(subscribers: usize) -> (room: bool)
    ensures
        room == (subscribers < MAX_SUBSCRIBERS),
{
    subscribers < MAX_SUBSCRIBERS
}

/// Counts the subscribers that a publication reached.
pub fn subscribers_reached(receivers: Option<usize>) -> (subscribers: usize)
    ensures
        subscribers == reached(receivers),
{
    match receivers {
        Some(count) => count,
        None => 0,
    }
}

/// A live connection's view of the bus: the game it is bound to, which never
/// changes, and its own position in the stream of updates.
pub struct Subscription {
    event_id: u128,
    receiver: Receiver<LiveUpdate>,
}

impl Subscription {
    /// The game this subscription is bound to.
    pub closed spec fn spec_event_id(&self) -> u128 {
        self.event_id
    }

    /// The game this subscription is bound to.
    #[verifier::when_used_as_spec(spec_event_id)]
    pub fn event_id(&self) -> (id: u128)
        ensures
            id == self.spec_event_id(),
    {
        self.event_id
    }

    /// Whether this subscription forwards `update` to its client.
    pub fn forwards(&self, update: &LiveUpdate) -> (yes: bool)
        ensures
            yes == (update.event_id() == self.event_id()),
    {
        is_forwarded(self.event_id, update)
    }

    /// Pulls once without waiting and decides the step. `None` means that no
    /// update is waiting.
    ///
    /// Whatever the bus hands out, the step is the one the filter takes after
    /// that pull, and the binding stays as it was.
    pub fn poll<F: FnOnce(&LiveUpdate) -> Option<String>>(&mut self, encode: F) -> (step: Option<
        Step,
    >)
        requires
            forall|update: LiveUpdate|
                forwards(old(self).event_id(), update) ==> call_requires(encode, (&update,)),
        ensures
            final(self).event_id() == old(self).event_id(),
            step matches Some(taken) ==> exists|pulled: Pulled, encoded: Option<String>|
                taken == #[trigger] step_after(old(self).event_id(), pulled, encoded) && (
                reaches_encoder(old(self).event_id(), pulled) ==> call_ensures(
                    encode,
                    (&pulled->Update_0,),
                    encoded,
                )),
    {
        match try_receive(&mut self.receiver) {
            Some(pulled) => Some(filter_pulled(self.event_id, pulled, encode)),
            None => None,
        }
    }

    /// Gives up the subscription for its parts: the game it was bound to and
    /// the receiving handle, for a caller that awaits the bus itself.
    pub fn into_parts(self) -> (parts: (u128, Receiver<LiveUpdate>))
        ensures
            parts.0 == self.event_id(),
    {
        (self.event_id, self.receiver)
    }
}

} // verus!
