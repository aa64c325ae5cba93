//! Decoding raw notifications into events and the users they concern.

use crate::event::{AppEvent, AppEventView};
use crate::json::{json_parse, lemma_object_view, lookup, Json, JsonValue};
use crate::record::{
    member_list, read_user_ids, ChatRecord, ChatRecordView, MessageRecord, MessageRecordView,
};
use crate::text::same_text;
use crate::users::{distinct, distinct_users, lemma_distinct, merged_users, same_users};
use std::sync::Arc;
use vstd::prelude::*;

verus! {

/// The channel that carries chat mutations.
pub const CHAT_MUTATION: &'static str = "chat_mutation";

/// The channel that carries newly created messages.
pub const MESSAGE_CREATED: &'static str = "message_created";

/// Why a notification could not be decoded. None of these is fatal: the
/// notification is dropped and the next one is taken up.
#[derive(Debug, Clone, Copy, PartialEq, Eq)]
pub enum DecodeError {
    /// The payload is not JSON of the shape that its channel carries.
    Malformed,
    /// The operation of a chat mutation is none of the three known.
    UnknownOperation,
    /// The channel is none of the two known.
    UnknownChannel,
}

/// What was done to a chat.
#[derive(Debug, Clone, Copy, PartialEq, Eq)]
pub enum Operation {
    Insert,
    Update,
    Delete,
}

/// The mathematical content of a [`ChatMutationPayload`].
pub struct ChatMutationView {
    pub operation: Operation,
    pub old: Option<ChatRecordView>,
    pub new: Option<ChatRecordView>,
}

/// A chat mutation as the store reports it: the operation and the chat
/// before and after, as far as there is one.
#[derive(Debug, PartialEq, Eq)]
pub struct ChatMutationPayload {
    pub operation: Operation,
    pub old: Option<ChatRecord>,
    pub new: Option<ChatRecord>,
}

/// The mathematical content of a [`MessageCreatedPayload`].
pub struct MessageCreatedView {
    pub message: MessageRecordView,
    pub members: Seq<u64>,
}

/// A new message as the store reports it, with the members of its chat at
/// that moment.
#[derive(Debug, PartialEq, Eq)]
pub struct MessageCreatedPayload {
    pub message: MessageRecord,
    pub members: Vec<u64>,
}

/// The mathematical content of a [`Notification`].
pub struct NotificationView {
    pub event: AppEventView,
    pub user_ids: Seq<u64>,
}

/// An event and the users who are to be told of it.
#[derive(Debug, PartialEq, Eq)]
pub struct Notification {
    /// The users concerned, each once.
    pub user_ids: Vec<u64>,
    /// The event, shared by all who receive it.
    pub event: Arc<AppEvent>,
}

/// The mathematical content of a [`Decoded`].
pub enum DecodedView {
    Skip,
    Notify(NotificationView),
}

/// What a well-shaped notification asks for.
#[derive(Debug, PartialEq, Eq)]
pub enum Decoded {
    /// Nothing: the members of the chat did not change.
    Skip,
    /// Telling the users of an event.
    Notify(Notification),
}

/// The content of a chat that may be absent.
pub open spec fn chat_view(chat: Option<ChatRecord>) -> Option<ChatRecordView> {
    match chat {
        Some(c) => Some(c@),
        None => None,
    }
}

/// The members of a chat that may be absent.
pub open spec fn members_of(chat: Option<ChatRecordView>) -> Option<Seq<u64>> {
    match chat {
        Some(c) => Some(c.members),
        None => None,
    }
}

impl View for ChatMutationPayload {
    type V = ChatMutationView;

    open spec fn view(&self) -> ChatMutationView {
        ChatMutationView {
            operation: self.operation,
            old: chat_view(self.old),
            new: chat_view(self.new),
        }
    }
}

impl View for MessageCreatedPayload {
    type V = MessageCreatedView;

    open spec fn view(&self) -> MessageCreatedView {
        MessageCreatedView { message: self.message@, members: self.members@ }
    }
}

impl View for Notification {
    type V = NotificationView;

    open spec fn view(&self) -> NotificationView {
        NotificationView { event: self.event@, user_ids: self.user_ids@ }
    }
}

impl View for Decoded {
    type V = DecodedView;

    open spec fn view(&self) -> DecodedView {
        match self {
            Decoded::Skip => DecodedView::Skip,
            Decoded::Notify(notification) => DecodedView::Notify(notification@),
        }
    }
}

/// The content of the outcome of a decoding.
pub open spec fn outcome_view(outcome: Result<Decoded, DecodeError>) -> Result<
    DecodedView,
    DecodeError,
> {
    match outcome {
        Ok(decoded) => Ok(decoded@),
        Err(error) => Err(error),
    }
}

/// The users that a change from `old` to `new` concerns, each once: nobody
/// where both lists name the same users, else everybody in either.
pub open spec fn affected(old: Option<Seq<u64>>, new: Option<Seq<u64>>) -> Seq<u64> {
    match (old, new) {
        (Some(o), Some(n)) => if o.to_set() == n.to_set() {
            Seq::empty()
        } else {
            distinct(o + n)
        },
        (Some(o), None) => distinct(o),
        (None, Some(n)) => distinct(n),
        (None, None) => Seq::empty(),
    }
}

/// The operation that a name spells.
pub open spec fn operation_of(name: Seq<char>) -> Option<Operation> {
    if name == "INSERT"@ {
        Some(Operation::Insert)
    } else if name == "UPDATE"@ {
        Some(Operation::Update)
    } else if name == "DELETE"@ {
        Some(Operation::Delete)
    } else {
        None
    }
}

/// The chat under a field that may be missing or null: the outer `None`
/// where the field holds something else that is no chat.
pub open spec fn optional_chat(value: Option<JsonValue>) -> Option<Option<ChatRecordView>> {
    match value {
        None => Some(None),
        Some(JsonValue::Null) => Some(None),
        Some(document) => match ChatRecordView::of_json(document) {
            Some(chat) => Some(Some(chat)),
            None => None,
        },
    }
}

impl ChatMutationView {
    /// The mutation that a JSON document spells: an object with a string
    /// `operation` and, each optional, chats `old` and `new`.
    pub open spec fn of_json(document: JsonValue) -> Result<ChatMutationView, DecodeError> {
        match document {
            JsonValue::Object(fields) => match (
                lookup(fields, "operation"@),
                optional_chat(lookup(fields, "old"@)),
                optional_chat(lookup(fields, "new"@)),
            ) {
                (Some(JsonValue::Text(name)), Some(old), Some(new)) => match operation_of(name) {
                    Some(operation) => Ok(ChatMutationView { operation, old, new }),
                    None => Err(DecodeError::UnknownOperation),
                },
                _ => Err(DecodeError::Malformed),
            },
            _ => Err(DecodeError::Malformed),
        }
    }

    /// The event that the mutation gives rise to, where the snapshot that
    /// its operation speaks of is there.
    pub open spec fn event(self) -> Option<AppEventView> {
        match self.operation {
            Operation::Insert => match self.new {
                Some(chat) => Some(AppEventView::NewChat(chat)),
                None => None,
            },
            Operation::Update => match self.old {
                Some(chat) => Some(AppEventView::AddToChat(chat)),
                None => None,
            },
            Operation::Delete => match self.old {
                Some(chat) => Some(AppEventView::RemoveFromChat(chat)),
                None => None,
            },
        }
    }

    /// Whether both snapshots are there and name the same users.
    pub open spec fn unchanged(self) -> bool {
        match (self.old, self.new) {
            (Some(o), Some(n)) => o.members.to_set() == n.members.to_set(),
            _ => false,
        }
    }

    /// The users that the mutation concerns, each once.
    pub open spec fn user_ids(self) -> Seq<u64> {
        affected(members_of(self.old), members_of(self.new))
    }

    /// What the mutation asks for.
    pub open spec fn decoded(self) -> Result<DecodedView, DecodeError> {
        if self.old is None && self.new is None {
            Err(DecodeError::Malformed)
        } else if self.unchanged() {
            Ok(DecodedView::Skip)
        } else {
            match self.event() {
                Some(event) => Ok(
                    DecodedView::Notify(NotificationView { event, user_ids: self.user_ids() }),
                ),
                None => Err(DecodeError::Malformed),
            }
        }
    }
}

impl MessageCreatedView {
    /// The report that a JSON document spells: an object with a message
    /// `message` and an array `members` of user ids.
    pub open spec fn of_json(document: JsonValue) -> Result<MessageCreatedView, DecodeError> {
        match document {
            JsonValue::Object(fields) => match (
                lookup(fields, "message"@),
                member_list(lookup(fields, "members"@)),
            ) {
                (Some(inner), Some(members)) => match MessageRecordView::of_json(inner) {
                    Some(message) => Ok(MessageCreatedView { message, members }),
                    None => Err(DecodeError::Malformed),
                },
                _ => Err(DecodeError::Malformed),
            },
            _ => Err(DecodeError::Malformed),
        }
    }

    /// What the report asks for: telling each member of the new message.
    pub open spec fn decoded(self) -> DecodedView {
        DecodedView::Notify(
            NotificationView {
                event: AppEventView::NewMessage(self.message),
                user_ids: distinct(self.members),
            },
        )
    }
}

/// What a notification on `channel` asks for, given the document that its
/// payload spells, if it spells one.
pub open spec fn decode_spec(channel: Seq<char>, document: Option<JsonValue>) -> Result<
    DecodedView,
    DecodeError,
> {
    if channel == CHAT_MUTATION@ {
        match document {
            Some(d) => match ChatMutationView::of_json(d) {
                Ok(payload) => payload.decoded(),
                Err(error) => Err(error),
            },
            None => Err(DecodeError::Malformed),
        }
    } else if channel == MESSAGE_CREATED@ {
        match document {
            Some(d) => match MessageCreatedView::of_json(d) {
                Ok(payload) => Ok(payload.decoded()),
                Err(error) => Err(error),
            },
            None => Err(DecodeError::Malformed),
        }
    } else {
        Err(DecodeError::UnknownChannel)
    }
}

impl Operation {
    /// The operation that `name` spells.
    pub fn from_name(name: &str) -> (operation: Option<Operation>)
        ensures
            operation == operation_of(name@),
    {
        if same_text(name, "INSERT") {
            Some(Operation::Insert)
        } else if same_text(name, "UPDATE") {
            Some(Operation::Update)
        } else if same_text(name, "DELETE") {
            Some(Operation::Delete)
        } else {
            None
        }
    }
}

/// Reads the chat under the field `name`, which may be missing or null.
fn read_optional_chat(document: &Json, name: &str) -> (chat: Option<Option<ChatRecord>>)
    ensures
        match chat {
            Some(c) => optional_chat(document@.field(name@)) == Some(chat_view(c)),
            None => optional_chat(document@.field(name@)) is None,
        },
        chat matches Some(Some(c)) ==> c@.well_formed(),
{
    match document.get(name) {
        None => Some(None),
        Some(Json::Null) => Some(None),
        Some(value) => match ChatRecord::from_json(value) {
            Some(chat) => Some(Some(chat)),
            None => None,
        },
    }
}

/// The users that a change from `old` to `new` concerns, each once: nobody
/// where both chats have the same members, else every member of either.
pub fn get_affected_chat_user_ids(old: Option<&ChatRecord>, new: Option<&ChatRecord>) -> (user_ids:
    Vec<u64>)
    ensures
        user_ids@ == affected(
            match old {
                Some(c) => Some(c.members@),
                None => None,
            },
            match new {
                Some(c) => Some(c.members@),
                None => None,
            },
        ),
        user_ids@.no_duplicates(),
{
    let user_ids = match (old, new) {
        (Some(o), Some(n)) => {
            if same_users(&o.members, &n.members) {
                Vec::new()
            } else {
                merged_users(&o.members, &n.members)
            }
        },
        (Some(o), None) => distinct_users(&o.members),
        (None, Some(n)) => distinct_users(&n.members),
        (None, None) => Vec::new(),
    };
    proof {
        match (old, new) {
            (Some(o), Some(n)) => lemma_distinct(o.members@ + n.members@),
            (Some(o), None) => lemma_distinct(o.members@),
            (None, Some(n)) => lemma_distinct(n.members@),
            (None, None) => {},
        }
    }
    user_ids
}

impl ChatMutationPayload {
    /// Reads a mutation from its JSON form. `Malformed` where the document
    /// is not an object with a string `operation` and, where they are there
    /// and not null, chats `old` and `new`; `UnknownOperation` where all
    /// that holds and the operation is none of `INSERT`, `UPDATE`, `DELETE`.
    pub fn from_json(document: &Json) -> (payload: Result<ChatMutationPayload, DecodeError>)
        ensures
            match payload {
                Ok(p) => ChatMutationView::of_json(document@) == Ok::<_, DecodeError>(p@)
                    && p.well_formed(),
                Err(e) => ChatMutationView::of_json(document@) == Err::<ChatMutationView, _>(e),
            },
    {
        match document {
            Json::Object(fields) => {
                proof {
                    lemma_object_view(*fields);
                }
                let name = match document.get("operation") {
                    Some(value) => match value.as_text() {
                        Some(name) => name,
                        None => {
                            return Err(DecodeError::Malformed);
                        },
                    },
                    None => {
                        return Err(DecodeError::Malformed);
                    },
                };
                let old = match read_optional_chat(document, "old") {
                    Some(chat) => chat,
                    None => {
                        return Err(DecodeError::Malformed);
                    },
                };
                let new = match read_optional_chat(document, "new") {
                    Some(chat) => chat,
                    None => {
                        return Err(DecodeError::Malformed);
                    },
                };
                match Operation::from_name(name.as_str()) {
                    Some(operation) => Ok(ChatMutationPayload { operation, old, new }),
                    None => Err(DecodeError::UnknownOperation),
                }
            },
            _ => Err(DecodeError::Malformed),
        }
    }

    /// Whether the snapshots that are there are well formed.
    pub open spec fn well_formed(&self) -> bool {
        &&& self.old matches Some(c) ==> c@.well_formed()
        &&& self.new matches Some(c) ==> c@.well_formed()
    }

    /// What the mutation asks for. `Malformed` where neither snapshot is
    /// there, or not the one that the operation speaks of; `Skip` where both
    /// are there with the same members; else the event of the operation,
    /// for every member of either snapshot.
    pub fn decode(self) -> (outcome: Result<Decoded, DecodeError>)
        ensures
            outcome_view(outcome) == self@.decoded(),
            outcome matches Ok(Decoded::Notify(n)) ==> n.user_ids@.no_duplicates(),
            self.well_formed() ==> (outcome matches Ok(Decoded::Notify(n))
                ==> n.event@.well_formed()),
    {
        let ChatMutationPayload { operation, old, new } = self;
        let user_ids = match (&old, &new) {
            (None, None) => {
                return Err(DecodeError::Malformed);
            },
            (Some(o), Some(n)) => {
                if same_users(&o.members, &n.members) {
                    return Ok(Decoded::Skip);
                }
                get_affected_chat_user_ids(Some(o), Some(n))
            },
            (Some(o), None) => get_affected_chat_user_ids(Some(o), None),
            (None, Some(n)) => get_affected_chat_user_ids(None, Some(n)),
        };
        let event = match operation {
            Operation::Insert => match new {
                Some(chat) => AppEvent::NewChat(chat),
                None => {
                    return Err(DecodeError::Malformed);
                },
            },
            Operation::Update => match old {
                Some(chat) => AppEvent::AddToChat(chat),
                None => {
                    return Err(DecodeError::Malformed);
                },
            },
            Operation::Delete => match old {
                Some(chat) => AppEvent::RemoveFromChat(chat),
                None => {
                    return Err(DecodeError::Malformed);
                },
            },
        };
        Ok(Decoded::Notify(Notification { user_ids, event: Arc::new(event) }))
    }
}

impl MessageCreatedPayload {
    /// Reads a report of a new message from its JSON form; `Malformed`
    /// where the document is not an object with a message `message` and an
    /// array `members` of user ids.
    pub fn from_json(document: &Json) -> (payload: Result<MessageCreatedPayload, DecodeError>)
        ensures
            match payload {
                Ok(p) => MessageCreatedView::of_json(document@) == Ok::<_, DecodeError>(p@)
                    && p.message@.well_formed(),
                Err(e) => e == DecodeError::Malformed && MessageCreatedView::of_json(document@)
                    == Err::<MessageCreatedView, _>(e),
            },
    {
        match document {
            Json::Object(fields) => {
                proof {
                    lemma_object_view(*fields);
                }
                let inner = match document.get("message") {
                    Some(inner) => inner,
                    None => {
                        return Err(DecodeError::Malformed);
                    },
                };
                let members = match document.get("members") {
                    Some(value) => match value.as_array() {
                        Some(items) => match read_user_ids(items) {
                            Some(members) => members,
                            None => {
                                return Err(DecodeError::Malformed);
                            },
                        },
                        None => {
                            return Err(DecodeError::Malformed);
                        },
                    },
                    None => {
                        return Err(DecodeError::Malformed);
                    },
                };
                match MessageRecord::from_json(inner) {
                    Some(message) => Ok(MessageCreatedPayload { message, members }),
                    None => Err(DecodeError::Malformed),
                }
            },
            _ => Err(DecodeError::Malformed),
        }
    }

    /// What the report asks for: telling each member, once, of the message.
    pub fn decode(self) -> (decoded: Decoded)
        ensures
            decoded@ == self@.decoded(),
            decoded matches Decoded::Notify(n) && n.user_ids@.no_duplicates(),
            self.message@.well_formed() ==> (decoded matches Decoded::Notify(n)
                && n.event@.well_formed()),
    {
        let MessageCreatedPayload { message, members } = self;
        let user_ids = distinct_users(&members);
        proof {
            lemma_distinct(members@);
        }
        Decoded::Notify(
            Notification { user_ids, event: Arc::new(AppEvent::NewMessage(message)) },
        )
    }
}

/// The content of a document that may be absent.
pub open spec fn document_view(document: Option<&Json>) -> Option<JsonValue> {
    match document {
        Some(d) => Some(d@),
        None => None,
    }
}

/// Decodes a notification whose payload has been read as JSON already;
/// `document` is `None` where the payload was no JSON. The channel decides
/// first: on an unknown channel the payload is not looked at.
pub fn decode_document(channel: &str, document: Option<&Json>) -> (outcome: Result<
    Decoded,
    DecodeError,
>)
    ensures
        outcome_view(outcome) == decode_spec(channel@, document_view(document)),
        outcome matches Ok(Decoded::Notify(n)) ==> n.user_ids@.no_duplicates()
            && n.event@.well_formed(),
{
    if same_text(channel, CHAT_MUTATION) {
        match document {
            Some(d) => match ChatMutationPayload::from_json(d) {
                Ok(payload) => payload.decode(),
                Err(error) => Err(error),
            },
            None => Err(DecodeError::Malformed),
        }
    } else if same_text(channel, MESSAGE_CREATED) {
        match document {
            Some(d) => match MessageCreatedPayload::from_json(d) {
                Ok(payload) => Ok(payload.decode()),
                Err(error) => Err(error),
            },
            None => Err(DecodeError::Malformed),
        }
    } else {
        Err(DecodeError::UnknownChannel)
    }
}

/// Decodes a raw notification into what it asks for: an event and the users
/// it concerns, or nothing, or the reason why it cannot be decoded.
pub fn decode(channel: &str, payload: &str) -> (outcome: Result<Decoded, DecodeError>)
    ensures
        outcome_view(outcome) == decode_spec(channel@, json_parse(payload@)),
        outcome matches Ok(Decoded::Notify(n)) ==> n.user_ids@.no_duplicates()
            && n.event@.well_formed(),
{
    let document = Json::parse(payload);
    match &document {
        Some(d) => decode_document(channel, Some(d)),
        None => decode_document(channel, None),
    }
}

/// The users that a change concerns are listed once each, and they are:
/// nobody where both lists name the same users; everybody in either list
/// where they differ; the users of the one list where only one is there.
pub proof fn lemma_affected(old: Option<Seq<u64>>, new: Option<Seq<u64>>)
    ensures
        affected(old, new).no_duplicates(),
        affected(old, new).to_set() == match (old, new) {
            (Some(o), Some(n)) => if o.to_set() == n.to_set() {
                Set::<u64>::empty()
            } else {
                o.to_set().union(n.to_set())
            },
            (Some(o), None) => o.to_set(),
            (None, Some(n)) => n.to_set(),
            (None, None) => Set::<u64>::empty(),
        },
{
    match (old, new) {
        (Some(o), Some(n)) => {
            lemma_distinct(o + n);
            if o.to_set() == n.to_set() {
                assert(Seq::<u64>::empty().to_set() =~= Set::<u64>::empty());
            } else {
                assert forall|user: u64| (o + n).contains(user) <==> o.contains(user)
                    || n.contains(user) by {
                    if o.contains(user) {
                        let i = choose|i: int| 0 <= i < o.len() && o[i] == user;
                        assert((o + n)[i] == user);
                    }
                    if n.contains(user) {
                        let i = choose|i: int| 0 <= i < n.len() && n[i] == user;
                        assert((o + n)[o.len() + i] == user);
                    }
                    if (o + n).contains(user) {
                        let i = choose|i: int| 0 <= i < (o + n).len() && (o + n)[i] == user;
                        if i < o.len() {
                            assert(o[i] == user);
                        } else {
                            assert(n[i - o.len()] == user);
                        }
                    }
                }
                assert((o + n).to_set() =~= o.to_set().union(n.to_set()));
            }
        },
        (Some(o), None) => lemma_distinct(o),
        (None, Some(n)) => lemma_distinct(n),
        (None, None) => {
            assert(Seq::<u64>::empty().to_set() =~= Set::<u64>::empty());
        },
    }
}

/// A mutation whose two snapshots name the same users concerns nobody and
/// asks for nothing, whatever its operation.
pub proof fn lemma_same_members_skip(payload: ChatMutationView)
    requires
        payload.old is Some,
        payload.new is Some,
        payload.old->0.members.to_set() == payload.new->0.members.to_set(),
    ensures
        payload.user_ids() == Seq::<u64>::empty(),
        payload.decoded() == Ok::<_, DecodeError>(DecodedView::Skip),
{
}

/// An insertion tells the members of the new chat of that chat. (Where an
/// old snapshot comes with it, this is so as long as its members are some,
/// but not all, of the new ones.)
pub proof fn lemma_insert(payload: ChatMutationView)
    requires
        payload.operation is Insert,
        payload.new is Some,
        payload.old matches Some(o) ==> o.members.to_set() != payload.new->0.members.to_set()
            && o.members.to_set().subset_of(payload.new->0.members.to_set()),
    ensures
        payload.decoded() matches Ok(DecodedView::Notify(n)) && n.event
            == AppEventView::NewChat(payload.new->0) && n.user_ids.to_set()
            == payload.new->0.members.to_set() && n.user_ids.no_duplicates(),
{
    lemma_affected(members_of(payload.old), members_of(payload.new));
    if payload.old is Some {
        assert(payload.old->0.members.to_set().union(payload.new->0.members.to_set())
            =~= payload.new->0.members.to_set());
    }
}

/// A deletion tells the members of the old chat that they are out of it.
/// (Where a new snapshot comes with it, this is so as long as its members
/// are some, but not all, of the old ones.)
pub proof fn lemma_delete(payload: ChatMutationView)
    requires
        payload.operation is Delete,
        payload.old is Some,
        payload.new matches Some(n) ==> n.members.to_set() != payload.old->0.members.to_set()
            && n.members.to_set().subset_of(payload.old->0.members.to_set()),
    ensures
        payload.decoded() matches Ok(DecodedView::Notify(n)) && n.event
            == AppEventView::RemoveFromChat(payload.old->0) && n.user_ids.to_set()
            == payload.old->0.members.to_set() && n.user_ids.no_duplicates(),
{
    lemma_affected(members_of(payload.old), members_of(payload.new));
    if payload.new is Some {
        assert(payload.old->0.members.to_set().union(payload.new->0.members.to_set())
            =~= payload.old->0.members.to_set());
    }
}

/// A payload that is no JSON is rejected as malformed on both channels, and
/// on any other channel the channel is what is rejected.
pub proof fn lemma_unreadable_payload(channel: Seq<char>)
    ensures
        decode_spec(channel, None) == Err::<DecodedView, _>(
            if channel == CHAT_MUTATION@ || channel == MESSAGE_CREATED@ {
                DecodeError::Malformed
            } else {
                DecodeError::UnknownChannel
            },
        ),
{
}

} // verus!
