//! The subscriber registry: one multicast channel per user.
//!
//! A user's channel is made when the user first subscribes and is kept from
//! then on, whether or not anybody still listens. Publishing never makes a
//! channel and never waits: a receiver that falls behind loses its oldest
//! events, and nobody else is held up by it.
//!
//! The channels live in a `dashmap::DashMap`, the channels themselves are
//! `tokio::sync::broadcast` channels. What this module states of the
//! registry is which users have a channel; what a receiver later takes from
//! its channel is the business of `tokio`.

use crate::event::AppEvent;
use dashmap::DashMap;
use std::sync::Arc;
use tokio::sync::broadcast::{Receiver, Sender};
use vstd::prelude::*;

verus! {

/// `dashmap::DashMap`, of which nothing is known but what the functions
/// below say.
#[verifier::external_type_specification]
#[verifier::external_body]
#[verifier::reject_recursive_types(K)]
#[verifier::reject_recursive_types(V)]
#[verifier::reject_recursive_types(S)]
pub struct ExDashMap<K, V, S>(dashmap::DashMap<K, V, S>);

/// `tokio::sync::broadcast::Sender`, the sending half of a channel; it is
/// only carried about.
#[verifier::external_type_specification]
#[verifier::external_body]
#[verifier::reject_recursive_types(T)]
pub struct ExSender<T>(tokio::sync::broadcast::Sender<T>);

/// `tokio::sync::broadcast::Receiver`, a receiving half of a channel; it is
/// only handed on.
#[verifier::external_type_specification]
#[verifier::external_body]
#[verifier::reject_recursive_types(T)]
pub struct ExReceiver<T>(tokio::sync::broadcast::Receiver<T>);

/// The number of events that a channel holds for a receiver that has fallen
/// behind, before it drops the oldest.
pub const CHANNEL_CAPACITY: usize = 256;

/// The entries of the map: each user's sender.
pub uninterp spec fn registered(map: DashMap<u64, Sender<Arc<AppEvent>>>) -> Map<
    u64,
    Sender<Arc<AppEvent>>,
>;

/// `DashMap::new`: a map without entries.
#[verifier::external_body]
fn new_channels() -> (map: DashMap<u64, Sender<Arc<AppEvent>>>)
    ensures
        registered(map).dom() == Set::<u64>::empty(),
{
    DashMap::new()
}

/// `DashMap::get`, handing out a clone of the sender found: there is one
/// exactly where the user has an entry. The map is left as it is.
#[verifier::external_body]
fn find_channel(map: &DashMap<u64, Sender<Arc<AppEvent>>>, user: u64) -> (found: Option<
    Sender<Arc<AppEvent>>,
>)
    ensures
        found is Some <==> registered(*map).contains_key(user),
{
    map.get(&user).map(|entry| entry.value().clone())
}

/// `DashMap::insert`: afterwards the user's entry is `sender`, and every
/// other entry is what it was. The map is borrowed mutably, though `DashMap`
/// does not ask for it, so that nobody else can change it between two calls.
#[verifier::external_body]
fn insert_channel(
    map: &mut DashMap<u64, Sender<Arc<AppEvent>>>,
    user: u64,
    sender: Sender<Arc<AppEvent>>,
)
    ensures
        registered(*final(map)) == registered(*old(map)).insert(user, sender),
{
    map.insert(user, sender);
}

/// `DashMap::len`: the number of entries.
#[verifier::external_body]
fn count_channels(map: &DashMap<u64, Sender<Arc<AppEvent>>>) -> (count: usize)
    ensures
        count == registered(*map).dom().len(),
{
    map.len()
}

/// `tokio::sync::broadcast::channel`, which panics on a capacity of zero or
/// above `usize::MAX / 2`. Nothing is claimed of the two halves.
#[verifier::external_body]
fn open_channel(capacity: usize) -> (halves: (Sender<Arc<AppEvent>>, Receiver<Arc<AppEvent>>))
    requires
        0 < capacity <= usize::MAX / 2,
{
    tokio::sync::broadcast::channel(capacity)
}

/// `Sender::subscribe`: a receiver of what is sent from now on. Nothing is
/// claimed of it. (It panics on the receiver after the `usize::MAX / 4`th,
/// which no machine can hold.)
#[verifier::external_body]
fn attach(sender: &Sender<Arc<AppEvent>>) -> (receiver: Receiver<Arc<AppEvent>>) {
    sender.subscribe()
}

/// `Sender::send`: the number of receivers at that moment, which is at
/// least one, or `None` where there was none. It does not wait.
#[verifier::external_body]
fn send_event(sender: &Sender<Arc<AppEvent>>, event: Arc<AppEvent>) -> (receivers: Option<
    usize,
>)
    ensures
        receivers matches Some(n) ==> n >= 1,
{
    sender.send(event).ok()
}

/// What became of one attempt to publish an event to a user.
#[derive(Debug, Clone, Copy, PartialEq, Eq)]
pub enum Delivery {
    /// The user has no channel: nobody ever subscribed for the user.
    NoChannel,
    /// The user has a channel that nobody listens to at the moment.
    NoReceivers,
    /// The event was handed to this many receivers, at least one.
    Delivered(usize),
}

impl Delivery {
    /// The outcome that the channel's answer to a send stands for:
    /// `receivers` is the number of receivers, `None` where there was none.
    pub fn of_send(receivers: Option<usize>) -> (delivery: Delivery)
        ensures
            delivery == match receivers {
                Some(n) => Delivery::Delivered(n),
                None => Delivery::NoReceivers,
            },
    {
        match receivers {
            Some(n) => Delivery::Delivered(n),
            None => Delivery::NoReceivers,
        }
    }
}

/// The channels of all users who ever subscribed.
pub struct Registry {
    channels: DashMap<u64, Sender<Arc<AppEvent>>>,
}

impl Registry {
    /// The channel of each user that has one, by its sender.
    pub closed spec fn channels(&self) -> Map<u64, Sender<Arc<AppEvent>>> {
        registered(self.channels)
    }

    /// The users that have a channel.
    pub open spec fn users(&self) -> Set<u64> {
        self.channels().dom()
    }

    /// A registry without channels.
    pub fn new() -> (registry: Registry)
        ensures
            registry.users() == Set::<u64>::empty(),
    {
        Registry { channels: new_channels() }
    }

    /// Whether `user` has a channel.
    pub fn has_channel(&self, user: u64) -> (found: bool)
        ensures
            found == self.users().contains(user),
    {
        find_channel(&self.channels, user).is_some()
    }

    /// The number of channels.
    pub fn len(&self) -> (count: usize)
        ensures
            count == self.users().len(),
    {
        count_channels(&self.channels)
    }

    /// A new receiver on the channel of `user`, which is made first if the
    /// user has none. Every channel that there was stays the channel of its
    /// user: none is replaced, and nobody but `user` gains one.
    pub fn subscribe(&mut self, user: u64) -> (receiver: Receiver<Arc<AppEvent>>)
        ensures
            final(self).users() == old(self).users().insert(user),
            old(self).channels().submap_of(final(self).channels()),
    {
        match find_channel(&self.channels, user) {
            Some(sender) => {
                assert(self.users().insert(user) =~= self.users());
                attach(&sender)
            },
            None => {
                let (sender, receiver) = open_channel(CHANNEL_CAPACITY);
                insert_channel(&mut self.channels, user, sender);
                assert(self.users() =~= old(self).users().insert(user));
                receiver
            },
        }
    }

    /// Sends `event` to whoever listens on the channel of `user` at this
    /// moment. A user without a channel gets none; the registry stays as it
    /// is in every case.
    pub fn publish(&self, user: u64, event: &Arc<AppEvent>) -> (delivery: Delivery)
        ensures
            delivery is NoChannel <==> !self.users().contains(user),
            delivery matches Delivery::Delivered(n) ==> n >= 1,
    {
        match find_channel(&self.channels, user) {
            Some(sender) => Delivery::of_send(send_event(&sender, event.clone())),
            None => Delivery::NoChannel,
        }
    }
}

} // verus!
