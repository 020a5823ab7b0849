//! The message channel of one content view: one publisher, any number of
//! subscribers, each with its own inbox and its own shutdown.
//!
//! The content view publishes; every subscriber that is live at that moment
//! gets the message appended to its inbox. A subscriber that joins late
//! starts with the most recently published message, if there is one. Shutting
//! a subscriber down empties its inbox and ends its deliveries; the other
//! subscribers never notice.

use vstd::prelude::*;
use crate::decode::{decode, json_value_of, DecodeError};

verus! {

/// The handle of one subscription. It names the subscriber in every later
/// call and is never reused.
#[derive(Clone, Copy, Debug, PartialEq, Eq, Structural)]
pub struct IpcSubscription {
    pub id: usize,
}

/// The mathematical content of one subscriber.
pub struct SubscriberModel {
    /// The messages not yet handed to the subscriber, oldest first.
    pub inbox: Seq<Seq<char>>,
    pub shut_down: bool,
}

/// The mathematical content of an [`IpcChannel`].
#[verifier::ext_equal]
pub struct IpcModel {
    /// The most recently published message.
    pub latest: Option<Seq<char>>,
    /// The subscribers, indexed by the id of their subscription.
    pub subscribers: Seq<SubscriberModel>,
}

/// What a subscriber finds when it looks for its next message.
pub enum FrontModel {
    /// The subscription is shut down (or was never made): leave the loop.
    Exit,
    /// Nothing to deliver: wait for the next publication or for shutdown.
    Wait,
    /// The oldest undelivered message.
    Message(Seq<char>),
}

/// One operation on a channel, for statements about whole histories.
pub enum IpcOp {
    Publish(Seq<char>),
    Subscribe,
    Shutdown(int),
    Take(int),
}

impl SubscriberModel {
    /// The subscriber after `message` was published.
    pub open spec fn receiving(self, message: Seq<char>) -> SubscriberModel {
        if self.shut_down {
            self
        } else {
            SubscriberModel { inbox: self.inbox.push(message), shut_down: false }
        }
    }

    /// A subscriber after shutdown: nothing left to deliver.
    pub open spec fn stopped() -> SubscriberModel {
        SubscriberModel { inbox: Seq::empty(), shut_down: true }
    }
}

impl IpcModel {
    /// A channel on which nothing was published and nobody subscribed.
    pub open spec fn empty() -> IpcModel {
        IpcModel { latest: None, subscribers: Seq::empty() }
    }

    /// Whether `id` names a subscription that has not been shut down.
    pub open spec fn live(self, id: int) -> bool {
        0 <= id < self.subscribers.len() && !self.subscribers[id].shut_down
    }

    /// The inbox a new subscriber starts with: the latest message, if any.
    pub open spec fn seed(self) -> Seq<Seq<char>> {
        match self.latest {
            Some(message) => seq![message],
            None => Seq::empty(),
        }
    }

    /// The channel after `message` was published.
    pub open spec fn published(self, message: Seq<char>) -> IpcModel {
        IpcModel {
            latest: Some(message),
            subscribers: Seq::new(
                self.subscribers.len(),
                |i: int| self.subscribers[i].receiving(message),
            ),
        }
    }

    /// The channel after one more subscriber joined. Its id is the number of
    /// subscriptions made before it.
    pub open spec fn subscribed(self) -> IpcModel {
        IpcModel {
            latest: self.latest,
            subscribers: self.subscribers.push(
                SubscriberModel { inbox: self.seed(), shut_down: false },
            ),
        }
    }

    /// The channel after shutdown was requested for `id`. An id that names no
    /// subscription changes nothing.
    pub open spec fn shut(self, id: int) -> IpcModel {
        if 0 <= id < self.subscribers.len() {
            IpcModel {
                latest: self.latest,
                subscribers: self.subscribers.update(id, SubscriberModel::stopped()),
            }
        } else {
            self
        }
    }

    /// What subscriber `id` finds when it looks for its next message.
    pub open spec fn front(self, id: int) -> FrontModel {
        if !self.live(id) {
            FrontModel::Exit
        } else if self.subscribers[id].inbox.len() == 0 {
            FrontModel::Wait
        } else {
            FrontModel::Message(self.subscribers[id].inbox[0])
        }
    }

    /// The channel after subscriber `id` took its next message, if it had one.
    pub open spec fn taken(self, id: int) -> IpcModel {
        if self.front(id) is Message {
            IpcModel {
                latest: self.latest,
                subscribers: self.subscribers.update(
                    id,
                    SubscriberModel {
                        inbox: self.subscribers[id].inbox.drop_first(),
                        shut_down: false,
                    },
                ),
            }
        } else {
            self
        }
    }

    /// The channel after one operation.
    pub open spec fn after(self, op: IpcOp) -> IpcModel {
        match op {
            IpcOp::Publish(message) => self.published(message),
            IpcOp::Subscribe => self.subscribed(),
            IpcOp::Shutdown(id) => self.shut(id),
            IpcOp::Take(id) => self.taken(id),
        }
    }

    /// The channel after a whole history of operations, in order.
    pub open spec fn after_all(self, ops: Seq<IpcOp>) -> IpcModel
        decreases ops.len(),
    {
        if ops.len() == 0 {
            self
        } else {
            self.after_all(ops.drop_last()).after(ops.last())
        }
    }

    /// The messages that the history `ops` handed to subscriber `id`, in the
    /// order in which it took them.
    pub open spec fn handed_to(self, ops: Seq<IpcOp>, id: int) -> Seq<Seq<char>>
        decreases ops.len(),
    {
        if ops.len() == 0 {
            Seq::empty()
        } else {
            let earlier = self.handed_to(ops.drop_last(), id);
            let before = self.after_all(ops.drop_last());
            match ops.last() {
                IpcOp::Take(taker) => match before.front(id) {
                    FrontModel::Message(message) => if taker == id {
                        earlier.push(message)
                    } else {
                        earlier
                    },
                    _ => earlier,
                },
                _ => earlier,
            }
        }
    }
}

/// The messages that the history `ops` published, in order.
pub open spec fn published_in(ops: Seq<IpcOp>) -> Seq<Seq<char>>
    decreases ops.len(),
{
    if ops.len() == 0 {
        Seq::empty()
    } else {
        match ops.last() {
            IpcOp::Publish(message) => published_in(ops.drop_last()).push(message),
            _ => published_in(ops.drop_last()),
        }
    }
}

/// The history `ops` without its requests to shut down subscribers other
/// than `id`.
pub open spec fn without_other_shutdowns(ops: Seq<IpcOp>, id: int) -> Seq<IpcOp>
    decreases ops.len(),
{
    if ops.len() == 0 {
        Seq::empty()
    } else {
        let earlier = without_other_shutdowns(ops.drop_last(), id);
        match ops.last() {
            IpcOp::Shutdown(stopped) => if stopped == id {
                earlier.push(ops.last())
            } else {
                earlier
            },
            _ => earlier.push(ops.last()),
        }
    }
}

/// Whether the history `ops` never asks to shut subscriber `id` down.
pub open spec fn never_shuts(ops: Seq<IpcOp>, id: int) -> bool {
    forall|i: int| 0 <= i < ops.len() ==> #[trigger] ops[i] != IpcOp::Shutdown(id)
}

/// What a subscriber found when it looked for its next message.
#[derive(Clone, Debug)]
pub enum IpcPoll {
    /// The subscription is shut down: leave the loop, deliver nothing more.
    Exit,
    /// Nothing to deliver yet.
    Wait,
    /// The next message, taken out of the inbox.
    Message(String),
}

impl IpcPoll {
    pub open spec fn model(self) -> FrontModel {
        match self {
            IpcPoll::Exit => FrontModel::Exit,
            IpcPoll::Wait => FrontModel::Wait,
            IpcPoll::Message(text) => FrontModel::Message(text@),
        }
    }
}

/// What a subscriber's loop does next.
#[derive(Debug)]
pub enum IpcTurn {
    /// Leave the loop: the subscription was shut down.
    Exit,
    /// Wait for the next publication or for shutdown, whichever comes first.
    Wait,
    /// Schedule the handler with this value as a task of its own, then yield.
    Dispatch(serde_json::Value),
    /// The message was not a JSON value: raise this error in the subscriber's
    /// task. The subscription itself stays as it is.
    Fail(DecodeError),
}

/// The turn owed to a subscriber that found `found`.
pub open spec fn turn_fits(turn: IpcTurn, found: FrontModel) -> bool {
    match found {
        FrontModel::Exit => turn is Exit,
        FrontModel::Wait => turn is Wait,
        FrontModel::Message(text) => match json_value_of(text) {
            Some(value) => turn == IpcTurn::Dispatch(value),
            None => turn is Fail,
        },
    }
}

/// Turns a decoded message into the subscriber's next step: a value is
/// dispatched to the handler, a decode failure is raised, never dropped.
pub fn dispatch_decoded(decoded: Result<serde_json::Value, DecodeError>) -> (turn: IpcTurn)
    ensures
        match decoded {
            Ok(value) => turn == IpcTurn::Dispatch(value),
            Err(error) => turn == IpcTurn::Fail(error),
        },
{
    match decoded {
        Ok(value) => IpcTurn::Dispatch(value),
        Err(error) => IpcTurn::Fail(error),
    }
}

/// Turns what a subscriber found into its next step, decoding a message.
pub fn dispatch(found: IpcPoll) -> (turn: IpcTurn)
    ensures
        turn_fits(turn, found.model()),
{
    match found {
        IpcPoll::Exit => IpcTurn::Exit,
        IpcPoll::Wait => IpcTurn::Wait,
        IpcPoll::Message(text) => dispatch_decoded(decode(text.as_str())),
    }
}

/// One subscriber of a channel.
#[derive(Clone, Debug)]
pub struct Subscriber {
    inbox: Vec<String>,
    shut_down: bool,
}

impl View for Subscriber {
    type V = SubscriberModel;

    closed spec fn view(&self) -> SubscriberModel {
        SubscriberModel {
            inbox: Seq::new(self.inbox@.len(), |i: int| self.inbox@[i]@),
            shut_down: self.shut_down,
        }
    }
}

/// The message channel of one content view.
#[derive(Clone, Debug)]
pub struct IpcChannel {
    latest: Option<String>,
    subscribers: Vec<Subscriber>,
}

impl View for IpcChannel {
    type V = IpcModel;

    closed spec fn view(&self) -> IpcModel {
        IpcModel {
            latest: match self.latest {
                Some(message) => Some(message@),
                None => None,
            },
            subscribers: Seq::new(self.subscribers@.len(), |i: int| self.subscribers@[i]@),
        }
    }
}

impl IpcChannel {
    /// A channel without subscribers on which nothing was published.
    pub fn new() -> (channel: IpcChannel)
        ensures
            channel@ == IpcModel::empty(),
    {
        let channel = IpcChannel { latest: None, subscribers: Vec::new() };
        assert(channel@.subscribers =~= Seq::empty());
        channel
    }

    /// The number of subscriptions made so far, shut down or not.
    pub fn subscriptions(&self) -> (count: usize)
        ensures
            count == self@.subscribers.len(),
    {
        self.subscribers.len()
    }

    /// Whether `subscription` is live: made on this channel and not shut
    /// down.
    pub fn is_live(&self, subscription: IpcSubscription) -> (live: bool)
        ensures
            live == self@.live(subscription.id as int),
    {
        let id = subscription.id;
        id < self.subscribers.len() && !self.subscribers[id].shut_down
    }

    /// Publishes `message`: it becomes the latest message and is appended to
    /// the inbox of every live subscriber.
    pub fn publish(&mut self, message: String)
        ensures
            final(self)@ == old(self)@.published(message@),
    {
        let n = self.subscribers.len();
        let mut i: usize = 0;
        while i < n
            invariant
                i <= n,
                n == self.subscribers@.len(),
                n == old(self).subscribers@.len(),
                forall|j: int|
                    0 <= j < i ==> (#[trigger] self.subscribers@[j])@ == old(
                        self,
                    ).subscribers@[j]@.receiving(message@),
                forall|j: int| i <= j < n ==> #[trigger] self.subscribers@[j] == old(self).subscribers@[j],
            decreases n - i,
        {
            let ghost before = self.subscribers@[i as int]@;
            if !self.subscribers[i].shut_down {
                let copy = message.clone();
                self.subscribers[i].inbox.push(copy);
                assert(self.subscribers@[i as int]@.inbox =~= before.inbox.push(message@));
            }
            i += 1;
        }
        self.latest = Some(message);
        assert(self@.subscribers =~= old(self)@.published(message@).subscribers);
    }

    /// Adds a subscriber and returns its handle. The new subscriber starts
    /// with the latest message in its inbox, if one was ever published.
    pub fn subscribe(&mut self) -> (subscription: IpcSubscription)
        ensures
            final(self)@ == old(self)@.subscribed(),
            subscription.id == old(self)@.subscribers.len(),
    {
        let mut inbox: Vec<String> = Vec::new();
        match &self.latest {
            Some(message) => {
                inbox.push(message.clone());
            },
            None => {},
        }
        let id = self.subscribers.len();
        let subscriber = Subscriber { inbox, shut_down: false };
        assert(subscriber@.inbox =~= old(self)@.seed());
        self.subscribers.push(subscriber);
        assert(self@.subscribers =~= old(self)@.subscribed().subscribers);
        IpcSubscription { id }
    }

    /// Requests shutdown of `subscription`: whatever its inbox still holds is
    /// dropped and nothing is delivered to it again. Asking again, or asking
    /// for a subscription that was never made, changes nothing and is no
    /// error.
    pub fn shutdown(&mut self, subscription: IpcSubscription)
        ensures
            final(self)@ == old(self)@.shut(subscription.id as int),
    {
        let id = subscription.id;
        if id < self.subscribers.len() {
            let stopped = Subscriber { inbox: Vec::new(), shut_down: true };
            assert(stopped@.inbox =~= Seq::empty());
            self.subscribers.set(id, stopped);
            assert(self@.subscribers =~= old(self)@.shut(id as int).subscribers);
        }
    }

    /// Looks for the next message of `subscription` and takes it out of the
    /// inbox.
    pub fn take(&mut self, subscription: IpcSubscription) -> (found: IpcPoll)
        ensures
            found.model() == old(self)@.front(subscription.id as int),
            final(self)@ == old(self)@.taken(subscription.id as int),
    {
        let id = subscription.id;
        if id >= self.subscribers.len() {
            return IpcPoll::Exit;
        }
        if self.subscribers[id].shut_down {
            return IpcPoll::Exit;
        }
        if self.subscribers[id].inbox.len() == 0 {
            assert(self@.subscribers[id as int].inbox.len() == 0);
            return IpcPoll::Wait;
        }
        let ghost before = self.subscribers@[id as int]@;
        let message = self.subscribers[id].inbox.remove(0);
        assert(before.inbox[0] == message@);
        assert(self.subscribers@[id as int]@.inbox =~= before.inbox.drop_first());
        assert(self@.subscribers =~= old(self)@.taken(id as int).subscribers);
        IpcPoll::Message(message)
    }

    /// One step of the loop that serves `subscription`: takes the next
    /// message, decodes it and says what the loop does next.
    pub fn next(&mut self, subscription: IpcSubscription) -> (turn: IpcTurn)
        ensures
            turn_fits(turn, old(self)@.front(subscription.id as int)),
            final(self)@ == old(self)@.taken(subscription.id as int),
    {
        let found = self.take(subscription);
        dispatch(found)
    }
}

/// Shutdown is idempotent: asking a second time leaves the channel exactly as
/// the first request left it.
pub proof fn lemma_shutdown_is_idempotent(channel: IpcModel, id: int)
    ensures
        channel.shut(id).shut(id) == channel.shut(id),
        channel.shut(id).front(id) is Exit,
{
    assert(channel.shut(id).shut(id).subscribers =~= channel.shut(id).subscribers);
}

/// No operation on one subscription touches another: shutting down, or
/// taking a message for, subscriber `id` leaves every other subscriber's
/// inbox and liveness as they were.
pub proof fn lemma_subscribers_are_independent(channel: IpcModel, id: int, other: int)
    requires
        id != other,
        0 <= other < channel.subscribers.len(),
    ensures
        channel.shut(id).subscribers[other] == channel.subscribers[other],
        channel.taken(id).subscribers[other] == channel.subscribers[other],
        channel.shut(id).front(other) == channel.front(other),
        channel.taken(id).front(other) == channel.front(other),
{
}

/// Over a whole history, the shutdown of other subscribers never changes
/// what a subscriber is handed: take the shutdowns of all others out of any
/// history, and subscriber `id` is handed the same messages in the same
/// order and ends with the same inbox and the same liveness.
pub proof fn lemma_shutdown_of_others_changes_no_delivery(start: IpcModel, ops: Seq<IpcOp>, id: int)
    requires
        0 <= id < start.subscribers.len(),
    ensures
        start.handed_to(ops, id) == start.handed_to(without_other_shutdowns(ops, id), id),
        start.after_all(ops).subscribers[id] == start.after_all(
            without_other_shutdowns(ops, id),
        ).subscribers[id],
        start.after_all(ops).subscribers.len() == start.after_all(
            without_other_shutdowns(ops, id),
        ).subscribers.len(),
        start.after_all(ops).latest == start.after_all(without_other_shutdowns(ops, id)).latest,
        id < start.after_all(ops).subscribers.len(),
    decreases ops.len(),
{
    if ops.len() > 0 {
        let earlier = ops.drop_last();
        let spared_earlier = without_other_shutdowns(earlier, id);
        let spared = without_other_shutdowns(ops, id);
        lemma_shutdown_of_others_changes_no_delivery(start, earlier, id);
        let with = start.after_all(earlier);
        let without = start.after_all(spared_earlier);
        let op = ops.last();
        let kept = !(op matches IpcOp::Shutdown(stopped) && stopped != id);
        if kept {
            assert(spared == spared_earlier.push(op));
            assert(spared.drop_last() == spared_earlier);
            assert(spared.last() == op);
            assert(with.front(id) == without.front(id));
            assert(with.after(op).subscribers[id] == without.after(op).subscribers[id]);
        } else {
            assert(spared == spared_earlier);
            assert(with.after(op).subscribers[id] == with.subscribers[id]);
        }
    }
}

/// A publication reaches every live subscriber, and only those: each live
/// inbox grows by exactly the published message, at its end.
pub proof fn lemma_publication_reaches_every_live_subscriber(
    channel: IpcModel,
    message: Seq<char>,
    id: int,
)
    requires
        0 <= id < channel.subscribers.len(),
    ensures
        channel.live(id) ==> channel.published(message).subscribers[id].inbox
            == channel.subscribers[id].inbox.push(message),
        !channel.live(id) ==> channel.published(message).subscribers[id]
            == channel.subscribers[id],
        channel.published(message).live(id) == channel.live(id),
{
}

/// A published text reaches the handler decoded and otherwise untouched: a
/// live subscriber with nothing else to deliver finds exactly the published
/// text, and whenever that text decodes to `value`, the handler is
/// dispatched with `value`.
pub proof fn lemma_published_text_is_decoded_unchanged(
    channel: IpcModel,
    id: int,
    text: Seq<char>,
    value: serde_json::Value,
    turn: IpcTurn,
)
    requires
        channel.live(id),
        channel.subscribers[id].inbox.len() == 0,
        json_value_of(text) == Some(value),
        turn_fits(turn, channel.published(text).front(id)),
    ensures
        channel.published(text).front(id) == FrontModel::Message(text),
        turn == IpcTurn::Dispatch(value),
{
}

/// A subscriber that joins late is live and starts with the most recently
/// published message, if there is one, and with nothing otherwise.
pub proof fn lemma_late_subscriber_starts_with_latest(channel: IpcModel)
    ensures
        channel.subscribed().live(channel.subscribers.len() as int),
        channel.subscribed().subscribers[channel.subscribers.len() as int].inbox
            == channel.seed(),
        forall|id: int|
            0 <= id < channel.subscribers.len() ==> #[trigger] channel.subscribed().subscribers[id]
                == channel.subscribers[id],
{
}

/// Every message published while a subscriber is live reaches that
/// subscriber, in order, whatever else happens on the channel.
///
/// Take any history of publications, new subscriptions, shutdowns of other
/// subscribers and takes by anybody. What subscriber `id` was handed during
/// the history, followed by what its inbox still holds afterwards, is what
/// its inbox held at the start followed by everything published since. The
/// subscriber is still live at the end.
pub proof fn lemma_every_publication_is_delivered(start: IpcModel, ops: Seq<IpcOp>, id: int)
    requires
        start.live(id),
        never_shuts(ops, id),
    ensures
        start.after_all(ops).live(id),
        start.handed_to(ops, id) + start.after_all(ops).subscribers[id].inbox
            == start.subscribers[id].inbox + published_in(ops),
    decreases ops.len(),
{
    if ops.len() == 0 {
        assert(start.handed_to(ops, id) + start.subscribers[id].inbox =~= start.subscribers[id].inbox
            + published_in(ops));
    } else {
        let earlier_ops = ops.drop_last();
        assert forall|i: int| 0 <= i < earlier_ops.len() implies #[trigger] earlier_ops[i]
            != IpcOp::Shutdown(id) by {
            assert(earlier_ops[i] == ops[i]);
        }
        lemma_every_publication_is_delivered(start, earlier_ops, id);
        let before = start.after_all(earlier_ops);
        let handed = start.handed_to(earlier_ops, id);
        let inbox = before.subscribers[id].inbox;
        let initial = start.subscribers[id].inbox;
        let after = before.after(ops.last());
        assert(ops[ops.len() - 1] != IpcOp::Shutdown(id));
        match ops.last() {
            IpcOp::Publish(message) => {
                assert(after.subscribers[id].inbox == inbox.push(message));
                assert(handed + inbox.push(message) =~= (handed + inbox).push(message));
                assert((initial + published_in(earlier_ops)).push(message) =~= initial
                    + published_in(earlier_ops).push(message));
            },
            IpcOp::Subscribe => {
                assert(after.subscribers[id] == before.subscribers[id]);
            },
            IpcOp::Shutdown(stopped) => {
                assert(stopped != id);
                if 0 <= stopped < before.subscribers.len() {
                    assert(after.subscribers[id] == before.subscribers[id]);
                }
            },
            IpcOp::Take(taker) => {
                if taker == id {
                    if inbox.len() > 0 {
                        assert(before.front(id) == FrontModel::Message(inbox[0]));
                        assert(after.subscribers[id].inbox == inbox.drop_first());
                        assert(handed.push(inbox[0]) + inbox.drop_first() =~= handed + inbox);
                    }
                } else {
                    if before.front(taker) is Message {
                        assert(after.subscribers[id] == before.subscribers[id]);
                    }
                }
            },
        }
    }
}

} // verus!
