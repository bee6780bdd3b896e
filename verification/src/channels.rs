//! The registry of client channels and the broadcast over it.
//!
//! Every listening client has one channel. The registry keeps the sending
//! halves; a broadcast hands a copy of the game state to each of them and
//! forgets those whose receiving half is gone. That is the only way in which
//! a client that went away is ever noticed: nothing is told to the registry
//! when a connection ends, and nothing asks the clients whether they are
//! still there.
//!
//! A channel has no bound. A client that reads slowly, or not at all, costs
//! memory for every state that waits for it, and never makes a broadcast
//! wait.

use crate::game_state::{GameState, Phrases};
use tokio::sync::mpsc::error::SendError;
use tokio::sync::mpsc::{UnboundedReceiver, UnboundedSender};
use vstd::prelude::*;

verus! {

/// `tokio::sync::mpsc::UnboundedSender`, the sending half of a channel. It is
/// carried around and handed to `send`; nothing inside it is looked at.
#[verifier::external_type_specification]
#[verifier::external_body]
#[verifier::reject_recursive_types(T)]
pub struct ExUnboundedSender<T>(tokio::sync::mpsc::UnboundedSender<T>);

/// `tokio::sync::mpsc::UnboundedReceiver`, the receiving half of a channel. It
/// is made here and handed to the caller untouched.
#[verifier::external_type_specification]
#[verifier::external_body]
#[verifier::reject_recursive_types(T)]
pub struct ExUnboundedReceiver<T>(tokio::sync::mpsc::UnboundedReceiver<T>);

/// `tokio::sync::mpsc::error::SendError`, which a failed `send` returns with
/// the message inside. Only its presence is used.
#[verifier::external_type_specification]
#[verifier::external_body]
#[verifier::reject_recursive_types(T)]
pub struct ExSendError<T>(tokio::sync::mpsc::error::SendError<T>);

/// `tokio::sync::mpsc::unbounded_channel` makes a fresh pair of halves. Nothing
/// is claimed of the pair.
pub assume_specification<T>[ tokio::sync::mpsc::unbounded_channel::<T> ]() -> (halves: (
    UnboundedSender<T>,
    UnboundedReceiver<T>,
));

/// `UnboundedSender::send` queues the message without waiting, or fails when
/// the receiving half was closed or dropped. Which of the two happens depends
/// on the other end, so nothing is claimed of the outcome.
pub assume_specification<T>[ tokio::sync::mpsc::UnboundedSender::<T>::send ](
    sender: &UnboundedSender<T>,
    message: T,
) -> (outcome: Result<(), SendError<T>>);

/// One registered client, as the registry holds it.
pub struct UserChannel {
    /// The sending half of the client's channel.
    pub sender: UnboundedSender<GameState>,
    /// The snapshots that the channel has taken since it was opened, oldest
    /// first; the channel hands them to its receiving half in this order. It
    /// is kept for the contracts alone and is not there when the program runs.
    pub accepted: Ghost<Seq<Phrases>>,
}

/// The channels of all clients that are listening, in the order in which they
/// registered. A client that went away stays in it until the next broadcast.
pub struct UserChannels {
    pub channels: Vec<UserChannel>,
}

impl View for UserChannels {
    type V = Seq<UserChannel>;

    open spec fn view(&self) -> Seq<UserChannel> {
        self.channels@
    }
}

/// The channel after it has taken one more snapshot.
pub open spec fn took(channel: UserChannel, snapshot: Phrases) -> UserChannel {
    UserChannel { sender: channel.sender, accepted: Ghost(channel.accepted@.push(snapshot)) }
}

/// The registry after `snapshot` was offered to each of `channels`, where
/// `reached[i]` says whether channel `i` took it: the channels that took it
/// stay, in their order and with the snapshot added to what they have
/// accepted; the others are gone.
pub open spec fn after_broadcast(
    channels: Seq<UserChannel>,
    snapshot: Phrases,
    reached: Seq<bool>,
) -> Seq<UserChannel>
    decreases channels.len(),
{
    if channels.len() == 0 || reached.len() != channels.len() {
        Seq::empty()
    } else {
        let before = after_broadcast(channels.drop_last(), snapshot, reached.drop_last());
        if reached.last() {
            before.push(took(channels.last(), snapshot))
        } else {
            before
        }
    }
}

/// How many of the channels did not take the snapshot.
pub open spec fn refusals(reached: Seq<bool>) -> nat
    decreases reached.len(),
{
    if reached.len() == 0 {
        0
    } else if reached.last() {
        refusals(reached.drop_last())
    } else {
        refusals(reached.drop_last()) + 1
    }
}

impl UserChannel {
    /// Opens a channel for a new client: the half that the registry keeps, with
    /// nothing accepted yet, and the half on which the client's connection
    /// waits.
    pub fn open() -> (halves: (UserChannel, UnboundedReceiver<GameState>))
        ensures
            halves.0.accepted@ == Seq::<Phrases>::empty(),
    {
        let (sender, receiver) = tokio::sync::mpsc::unbounded_channel::<GameState>();
        (UserChannel { sender, accepted: Ghost(Seq::empty()) }, receiver)
    }

    /// What becomes of the channel once a send of `snapshot` on it has come
    /// back with `outcome`: a channel that took the snapshot is kept, and has
    /// accepted one snapshot more; one that refused is given up. A refusal is
    /// final, nothing is tried again.
    pub fn settle(self, snapshot: &GameState, outcome: Result<(), SendError<GameState>>) -> (kept:
        Option<UserChannel>)
        ensures
            kept == match outcome {
                Ok(_) => Some(took(self, snapshot@)),
                Err(_) => None,
            },
    {
        match outcome {
            Ok(_) => Some(
                UserChannel {
                    sender: self.sender,
                    accepted: Ghost(self.accepted@.push(snapshot@)),
                },
            ),
            Err(_) => None,
        }
    }
}

impl UserChannels {
    /// A registry with no client in it.
    pub fn new() -> (user_channels: UserChannels)
        ensures
            user_channels@ == Seq::<UserChannel>::empty(),
    {
        UserChannels { channels: Vec::new() }
    }

    /// The number of registered channels.
    pub fn len(&self) -> (n: usize)
        ensures
            n == self@.len(),
    {
        self.channels.len()
    }

    /// Whether no channel is registered.
    pub fn is_empty(&self) -> (none: bool)
        ensures
            none == (self@.len() == 0),
    {
        self.channels.len() == 0
    }
}

/// Registers a new client. Its channel goes behind the ones that are there,
/// which stay as they are, and the receiving half is returned. The new channel
/// has accepted nothing: the client is shown later states only, none of what
/// was broadcast before it came.
pub fn create_user_connection(user_channels: &mut UserChannels) -> (receiver: UnboundedReceiver<
    GameState,
>)
    ensures
        final(user_channels)@.len() == old(user_channels)@.len() + 1,
        final(user_channels)@.drop_last() == old(user_channels)@,
        final(user_channels)@.last().accepted@ == Seq::<Phrases>::empty(),
{
    let (channel, receiver) = UserChannel::open();
    user_channels.channels.push(channel);
    receiver
}

/// Offers a copy of `g` to every registered channel, once each and in the
/// order of the registry, and drops the channels that refuse it. `reached`
/// tells for each channel that was registered whether it took the copy.
///
/// A channel is unbounded, so no send waits; a refusal is never reported as a
/// failure of the broadcast.
pub fn broadcast_game_state(g: &GameState, user_channels: &mut UserChannels) -> (reached: Vec<bool>)
    ensures
        reached@.len() == old(user_channels)@.len(),
        final(user_channels)@ == after_broadcast(old(user_channels)@, g@, reached@),
        final(user_channels)@.len() == old(user_channels)@.len() - refusals(reached@),
{
    let mut waiting: Vec<UserChannel> = Vec::new();
    std::mem::swap(&mut waiting, &mut user_channels.channels);
    let mut reached: Vec<bool> = Vec::new();
    let ghost all = waiting@;
    for channel in it: waiting
        invariant
            it.seq() == all,
            reached@.len() == it.index(),
            user_channels@ == after_broadcast(all.take(it.index() as int), g@, reached@),
    {
        let ghost done = it.index() as int;
        let ghost flags = reached@;
        let outcome = channel.sender.send(g.clone());
        match channel.settle(g, outcome) {
            Some(kept) => {
                user_channels.channels.push(kept);
                reached.push(true);
            },
            None => {
                reached.push(false);
            },
        }
        assert(all.take(done + 1).drop_last() == all.take(done));
        assert(reached@.drop_last() == flags);
    }
    assert(all.take(all.len() as int) == all);
    proof {
        lemma_each_refusal_frees_one_place(all, g@, reached@);
    }
    reached
}

/// A broadcast shortens the registry by one place for each channel that
/// refused, and by no more: where exactly one client has gone away, the
/// registry is exactly one shorter afterwards.
pub proof fn lemma_each_refusal_frees_one_place(
    channels: Seq<UserChannel>,
    snapshot: Phrases,
    reached: Seq<bool>,
)
    requires
        reached.len() == channels.len(),
    ensures
        refusals(reached) <= channels.len(),
        after_broadcast(channels, snapshot, reached).len() == channels.len() - refusals(reached),
    decreases channels.len(),
{
    if channels.len() > 0 {
        lemma_each_refusal_frees_one_place(channels.drop_last(), snapshot, reached.drop_last());
    }
}

/// The place that channel `i` has in the registry after a broadcast that it
/// took: one place nearer to the front for each channel before it that
/// refused.
pub open spec fn place_after(reached: Seq<bool>, i: int) -> int {
    i - refusals(reached.take(i))
}

/// A channel that takes the snapshot of a broadcast stays registered, and the
/// snapshot is the one thing that the broadcast adds to what it has accepted.
pub proof fn lemma_channel_that_took_is_kept(
    channels: Seq<UserChannel>,
    snapshot: Phrases,
    reached: Seq<bool>,
    i: int,
)
    requires
        reached.len() == channels.len(),
        0 <= i < channels.len(),
        reached[i],
    ensures
        0 <= place_after(reached, i) < after_broadcast(channels, snapshot, reached).len(),
        after_broadcast(channels, snapshot, reached)[place_after(reached, i)] == took(
            channels[i],
            snapshot,
        ),
    decreases channels.len(),
{
    let earlier = channels.drop_last();
    let flags = reached.drop_last();
    lemma_each_refusal_frees_one_place(earlier, snapshot, flags);
    if i < channels.len() - 1 {
        assert(reached.take(i) == flags.take(i));
        lemma_channel_that_took_is_kept(earlier, snapshot, flags, i);
    }
}

/// Whether broadcast `k` of a run goes as told: it offers `snapshots[k]` to
/// `registries[k]`, with the outcomes `reached[k]`, and leaves
/// `registries[k + 1]`; the client that is followed stands at `places[k]`
/// before it, takes the snapshot, and stands at `places[k + 1]` after it.
pub open spec fn broadcast_in_run(
    registries: Seq<Seq<UserChannel>>,
    snapshots: Seq<Phrases>,
    reached: Seq<Seq<bool>>,
    places: Seq<int>,
    k: int,
) -> bool {
    &&& reached[k].len() == registries[k].len()
    &&& registries[k + 1] == after_broadcast(registries[k], snapshots[k], reached[k])
    &&& 0 <= places[k] < registries[k].len()
    &&& reached[k][places[k]]
    &&& places[k + 1] == place_after(reached[k], places[k])
}

/// Whether the four sequences tell of one client through a run of broadcasts,
/// one broadcast for each of `snapshots`, from the registry `registries[0]`,
/// in which the client stands at `places[0]`.
pub open spec fn follows_client(
    registries: Seq<Seq<UserChannel>>,
    snapshots: Seq<Phrases>,
    reached: Seq<Seq<bool>>,
    places: Seq<int>,
) -> bool {
    &&& registries.len() == snapshots.len() + 1
    &&& reached.len() == snapshots.len()
    &&& places.len() == registries.len()
    &&& 0 <= places[0] < registries[0].len()
    &&& forall|k: int|
        0 <= k < snapshots.len() ==> #[trigger] broadcast_in_run(
            registries,
            snapshots,
            reached,
            places,
            k,
        )
}

/// A client that is registered before a run of broadcasts, and whose channel
/// takes each of them, is still registered after the run and has accepted
/// every snapshot of the run, each once and in the order in which they were
/// issued, behind what it had accepted before. For a client that registered
/// just before the run these snapshots are all that it has accepted.
pub proof fn lemma_registered_client_gets_every_snapshot(
    registries: Seq<Seq<UserChannel>>,
    snapshots: Seq<Phrases>,
    reached: Seq<Seq<bool>>,
    places: Seq<int>,
)
    requires
        follows_client(registries, snapshots, reached, places),
    ensures
        0 <= places.last() < registries.last().len(),
        registries.last()[places.last()].sender == registries[0][places[0]].sender,
        registries.last()[places.last()].accepted@ == registries[0][places[0]].accepted@
            + snapshots,
        registries[0][places[0]].accepted@.len() == 0 ==> registries.last()[places.last()].accepted@
            == snapshots,
    decreases snapshots.len(),
{
    if snapshots.len() > 0 {
        let k = snapshots.len() - 1;
        let shorter = snapshots.drop_last();
        assert forall|j: int| 0 <= j < shorter.len() implies #[trigger] broadcast_in_run(
            registries.drop_last(),
            shorter,
            reached.drop_last(),
            places.drop_last(),
            j,
        ) by {
            assert(broadcast_in_run(registries, snapshots, reached, places, j));
        }
        lemma_registered_client_gets_every_snapshot(
            registries.drop_last(),
            shorter,
            reached.drop_last(),
            places.drop_last(),
        );
        assert(broadcast_in_run(registries, snapshots, reached, places, k));
        lemma_channel_that_took_is_kept(registries[k], snapshots[k], reached[k], places[k]);
        let before = registries[0][places[0]].accepted@;
        assert((before + shorter).push(snapshots[k]) =~= before + snapshots);
    }
}

} // verus!
