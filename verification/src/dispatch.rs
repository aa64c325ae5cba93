//! Dispatching: from a raw notification to the channels of the users
//! concerned.
//!
//! Notifications are taken one at a time and in the order in which they
//! arrive, so the events of one user are published in that order. One
//! shared event goes to every recipient; it is never copied.

use crate::decode::{
    decode, decode_spec, lemma_same_members_skip, outcome_view, ChatMutationView, DecodeError,
    Decoded, DecodedView, Notification,
};
use crate::json::json_parse;
use crate::registry::{Delivery, Registry};
use vstd::prelude::*;

verus! {

/// A notification as the store sends it: the name of a channel and a text.
#[derive(Debug, Clone, PartialEq, Eq)]
pub struct RawNotification {
    pub channel: String,
    pub payload: String,
}

/// One attempt to publish an event, and what became of it.
#[derive(Debug, Clone, Copy, PartialEq, Eq)]
pub struct Publication {
    pub user: u64,
    pub delivery: Delivery,
}

/// What was done about one notification.
#[derive(Debug, PartialEq, Eq)]
pub enum DispatchReport {
    /// It could not be decoded and was dropped.
    Rejected(DecodeError),
    /// It asked for nothing, and nothing was published.
    Skipped,
    /// Its event was published, once to each user concerned; the list has
    /// the attempts in the order in which they were made.
    Published(Vec<Publication>),
}

/// What the listener hands to the dispatcher.
#[derive(Debug, Clone, PartialEq, Eq)]
pub enum Incoming {
    /// The next notification.
    Notification(RawNotification),
    /// The subscription reported an error.
    Failed,
    /// The subscription has ended.
    Closed,
}

/// What the loop around the dispatcher does next.
#[derive(Debug, PartialEq, Eq)]
pub enum Step {
    /// Take the next notification; the report says what was done about
    /// this one.
    Continue(DispatchReport),
    /// Stop listening: the subscription is gone.
    Stop,
}

/// Whether `attempts` are one attempt for each of `users`, in that order,
/// each with an outcome that fits the channels that `registry` has.
pub open spec fn published_to(
    registry: &Registry,
    users: Seq<u64>,
    attempts: Seq<Publication>,
) -> bool {
    &&& attempts.len() == users.len()
    &&& forall|i: int|
        0 <= i < attempts.len() ==> {
            &&& (#[trigger] attempts[i]).user == users[i]
            &&& attempts[i].delivery is NoChannel <==> !registry.users().contains(users[i])
            &&& attempts[i].delivery matches Delivery::Delivered(n) ==> n >= 1
        }
}

impl DispatchReport {
    /// The number of calls to publish that were made.
    pub open spec fn publish_count(self) -> nat {
        match self {
            DispatchReport::Published(attempts) => attempts@.len(),
            _ => 0,
        }
    }

    /// Whether this is the report that `outcome` calls for.
    pub open spec fn answers(
        self,
        registry: &Registry,
        outcome: Result<DecodedView, DecodeError>,
    ) -> bool {
        match outcome {
            Err(error) => self == DispatchReport::Rejected(error),
            Ok(DecodedView::Skip) => self is Skipped,
            Ok(DecodedView::Notify(notification)) => {
                &&& self matches DispatchReport::Published(attempts)
                &&& published_to(registry, notification.user_ids, attempts@)
            },
        }
    }
}

/// Publishes the event of `notification` to each of its users, once and in
/// the order of the list.
pub fn publish_all(registry: &Registry, notification: &Notification) -> (attempts: Vec<
    Publication,
>)
    ensures
        published_to(registry, notification.user_ids@, attempts@),
{
    let mut attempts: Vec<Publication> = Vec::new();
    let mut i: usize = 0;
    while i < notification.user_ids.len()
        invariant
            i <= notification.user_ids.len(),
            published_to(registry, notification.user_ids@.take(i as int), attempts@),
        decreases notification.user_ids.len() - i,
    {
        let user = notification.user_ids[i];
        let delivery = registry.publish(user, &notification.event);
        attempts.push(Publication { user, delivery });
        i += 1;
    }
    assert(notification.user_ids@.take(i as int) =~= notification.user_ids@);
    attempts
}

/// Acts on the outcome of a decoding: publishes where there is an event,
/// and reports.
pub fn deliver(registry: &Registry, outcome: &Result<Decoded, DecodeError>) -> (report:
    DispatchReport)
    ensures
        report.answers(registry, outcome_view(*outcome)),
{
    match outcome {
        Err(error) => DispatchReport::Rejected(*error),
        Ok(Decoded::Skip) => DispatchReport::Skipped,
        Ok(Decoded::Notify(notification)) => DispatchReport::Published(
            publish_all(registry, notification),
        ),
    }
}

/// Decodes one notification and publishes its event to the users
/// concerned. A notification that cannot be decoded is reported and
/// otherwise ignored.
pub fn dispatch(registry: &Registry, notification: &RawNotification) -> (report: DispatchReport)
    ensures
        report.answers(
            registry,
            decode_spec(notification.channel@, json_parse(notification.payload@)),
        ),
{
    let outcome = decode(notification.channel.as_str(), notification.payload.as_str());
    deliver(registry, &outcome)
}

/// One turn of the loop that drives the listener: a notification is
/// dispatched and the loop goes on, whatever became of it; an error or the
/// end of the subscription stops the loop.
pub fn step(registry: &Registry, incoming: &Incoming) -> (next: Step)
    ensures
        match *incoming {
            Incoming::Notification(notification) => next matches Step::Continue(report)
                && report.answers(
                registry,
                decode_spec(notification.channel@, json_parse(notification.payload@)),
            ),
            Incoming::Failed => next is Stop,
            Incoming::Closed => next is Stop,
        },
{
    match incoming {
        Incoming::Notification(notification) => Step::Continue(dispatch(registry, notification)),
        Incoming::Failed => Step::Stop,
        Incoming::Closed => Step::Stop,
    }
}

/// A mutation whose two snapshots name the same users leads to no call to
/// publish.
pub proof fn lemma_same_members_publish_nothing(
    registry: &Registry,
    payload: ChatMutationView,
    report: DispatchReport,
)
    requires
        payload.old is Some,
        payload.new is Some,
        payload.old->0.members.to_set() == payload.new->0.members.to_set(),
        report.answers(registry, payload.decoded()),
    ensures
        report is Skipped,
        report.publish_count() == 0,
{
    lemma_same_members_skip(payload);
}

/// When an event is published to users that are listed once each, every
/// one of them is tried exactly once and nobody else is tried; a user
/// without a channel is passed over without an error.
pub proof fn lemma_one_attempt_each(
    registry: &Registry,
    users: Seq<u64>,
    attempts: Seq<Publication>,
)
    requires
        users.no_duplicates(),
        published_to(registry, users, attempts),
    ensures
        forall|i: int, j: int|
            0 <= i < attempts.len() && 0 <= j < attempts.len() && attempts[i].user
                == attempts[j].user ==> i == j,
        forall|user: u64|
            users.contains(user) <==> exists|i: int|
                0 <= i < attempts.len() && (#[trigger] attempts[i]).user == user,
        forall|i: int|
            0 <= i < attempts.len() && !registry.users().contains(attempts[i].user) ==> (
            #[trigger] attempts[i]).delivery is NoChannel,
{
    assert forall|user: u64| users.contains(user) implies exists|i: int|
        0 <= i < attempts.len() && (#[trigger] attempts[i]).user == user by {
        let i = choose|i: int| 0 <= i < users.len() && users[i] == user;
        assert(attempts[i].user == user);
    }
    assert forall|user: u64|
        (exists|i: int| 0 <= i < attempts.len() && (#[trigger] attempts[i]).user == user)
            implies users.contains(user) by {
        let i = choose|i: int| 0 <= i < attempts.len() && (#[trigger] attempts[i]).user == user;
        assert(users[i] == user);
    }
}

} // verus!
