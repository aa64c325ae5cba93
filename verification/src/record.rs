//! Chat and message records, and their JSON form.
//!
//! The engine reads a record's identity and, of a chat, its members. Every
//! other field travels with the record untouched, by name and JSON value.

use crate::json::{
    fields_view, fields_without, find_field, free_of, items_view, lemma_array_view,
    lemma_object_view, lemma_without_concat, lemma_without_is_free, lemma_without_keeps, lookup,
    names_view, without, Json, JsonValue,
};
use crate::text::owned;
use vstd::prelude::*;

verus! {

/// The field names that a chat record keeps for itself.
pub open spec fn chat_keys() -> Seq<Seq<char>> {
    seq!["event"@, "id"@, "members"@]
}

/// The field names that a message record keeps for itself.
pub open spec fn message_keys() -> Seq<Seq<char>> {
    seq!["event"@, "id"@, "chat_id"@]
}

/// The user ids that a list of JSON values spells, where each of the values
/// is an integer that fits in `u64`.
pub open spec fn user_ids(items: Seq<JsonValue>) -> Option<Seq<u64>> {
    if forall|i: int| 0 <= i < items.len() ==> (#[trigger] items[i]).as_u64() is Some {
        Some(Seq::new(items.len(), |i: int| items[i].as_u64()->0))
    } else {
        None
    }
}

/// The user ids of a field that must be an array of them.
pub open spec fn member_list(value: Option<JsonValue>) -> Option<Seq<u64>> {
    match value {
        Some(JsonValue::Array(items)) => user_ids(items),
        _ => None,
    }
}

/// The integer of a field that must be one that fits in `i64`.
pub open spec fn integer(value: Option<JsonValue>) -> Option<i64> {
    match value {
        Some(v) => v.as_i64(),
        None => None,
    }
}

/// The characters of a field that must be a string.
pub open spec fn text(value: Option<JsonValue>) -> Option<Seq<char>> {
    match value {
        Some(v) => v.as_text(),
        None => None,
    }
}

/// The JSON array that lists `users`.
pub open spec fn user_array(users: Seq<u64>) -> JsonValue {
    JsonValue::Array(Seq::new(users.len(), |i: int| JsonValue::Unsigned(users[i])))
}

/// The mathematical content of a [`ChatRecord`].
pub struct ChatRecordView {
    pub id: i64,
    pub members: Seq<u64>,
    pub rest: Seq<(Seq<char>, JsonValue)>,
}

/// A snapshot of a chat.
#[derive(Debug, PartialEq, Eq)]
pub struct ChatRecord {
    pub id: i64,
    /// The users in the chat, as listed; a user may be listed twice.
    pub members: Vec<u64>,
    /// The other fields of the record, in document order.
    pub rest: Vec<(String, Json)>,
}

/// The mathematical content of a [`MessageRecord`].
pub struct MessageRecordView {
    pub id: i64,
    pub chat_id: i64,
    pub rest: Seq<(Seq<char>, JsonValue)>,
}

/// A message as it was stored.
#[derive(Debug, PartialEq, Eq)]
pub struct MessageRecord {
    pub id: i64,
    pub chat_id: i64,
    /// The other fields of the record (`sender_id`, `content`, `created_at`
    /// and whatever else the store sends), in document order.
    pub rest: Vec<(String, Json)>,
}

impl View for ChatRecord {
    type V = ChatRecordView;

    open spec fn view(&self) -> ChatRecordView {
        ChatRecordView { id: self.id, members: self.members@, rest: fields_view(self.rest@) }
    }
}

impl View for MessageRecord {
    type V = MessageRecordView;

    open spec fn view(&self) -> MessageRecordView {
        MessageRecordView { id: self.id, chat_id: self.chat_id, rest: fields_view(self.rest@) }
    }
}

impl ChatRecordView {
    /// A record is well formed when none of its other fields takes a name
    /// that the record keeps for itself.
    pub open spec fn well_formed(self) -> bool {
        free_of(self.rest, chat_keys())
    }

    /// The chat that a JSON document spells: an object with an integer `id`
    /// and an array `members` of user ids.
    pub open spec fn of_json(document: JsonValue) -> Option<ChatRecordView> {
        match document {
            JsonValue::Object(fields) => match (
                integer(lookup(fields, "id"@)),
                member_list(lookup(fields, "members"@)),
            ) {
                (Some(id), Some(members)) => Some(
                    ChatRecordView { id, members, rest: without(fields, chat_keys()) },
                ),
                _ => None,
            },
            _ => None,
        }
    }

    /// The fields of the record's JSON form: identity, members, the rest.
    pub open spec fn fields(self) -> Seq<(Seq<char>, JsonValue)> {
        seq![("id"@, JsonValue::of_i64(self.id)), ("members"@, user_array(self.members))]
            + self.rest
    }

    /// The record's JSON form.
    pub open spec fn to_json(self) -> JsonValue {
        JsonValue::Object(self.fields())
    }
}

impl MessageRecordView {
    /// A record is well formed when none of its other fields takes a name
    /// that the record keeps for itself.
    pub open spec fn well_formed(self) -> bool {
        free_of(self.rest, message_keys())
    }

    /// The message that a JSON document spells: an object with integers `id`
    /// and `chat_id`.
    pub open spec fn of_json(document: JsonValue) -> Option<MessageRecordView> {
        match document {
            JsonValue::Object(fields) => match (
                integer(lookup(fields, "id"@)),
                integer(lookup(fields, "chat_id"@)),
            ) {
                (Some(id), Some(chat_id)) => Some(
                    MessageRecordView { id, chat_id, rest: without(fields, message_keys()) },
                ),
                _ => None,
            },
            _ => None,
        }
    }

    /// The fields of the record's JSON form: identity, then the rest.
    pub open spec fn fields(self) -> Seq<(Seq<char>, JsonValue)> {
        seq![("id"@, JsonValue::of_i64(self.id)), ("chat_id"@, JsonValue::of_i64(self.chat_id))]
            + self.rest
    }

    /// The record's JSON form.
    pub open spec fn to_json(self) -> JsonValue {
        JsonValue::Object(self.fields())
    }
}

/// The names in `chat_keys`, as strings.
fn chat_key_list() -> (names: Vec<String>)
    ensures
        names_view(names@) == chat_keys(),
{
    let mut names: Vec<String> = Vec::new();
    names.push(owned("event"));
    names.push(owned("id"));
    names.push(owned("members"));
    assert(names_view(names@) =~= chat_keys());
    names
}

/// The names in `message_keys`, as strings.
fn message_key_list() -> (names: Vec<String>)
    ensures
        names_view(names@) == message_keys(),
{
    let mut names: Vec<String> = Vec::new();
    names.push(owned("event"));
    names.push(owned("id"));
    names.push(owned("chat_id"));
    assert(names_view(names@) =~= message_keys());
    names
}

/// Reads a list of user ids from the items of a JSON array.
pub fn read_user_ids(items: &Vec<Json>) -> (users: Option<Vec<u64>>)
    ensures
        match users {
            Some(list) => user_ids(items_view(items@)) == Some(list@),
            None => user_ids(items_view(items@)) is None,
        },
{
    let mut list: Vec<u64> = Vec::new();
    let mut i: usize = 0;
    while i < items.len()
        invariant
            i <= items.len(),
            list.len() == i,
            forall|j: int| 0 <= j < i ==> items_view(items@)[j].as_u64() == Some(list@[j]),
        decreases items.len() - i,
    {
        match items[i].as_u64() {
            Some(user) => {
                list.push(user);
            },
            None => {
                assert(items_view(items@)[i as int].as_u64() is None);
                return None;
            },
        }
        i += 1;
    }
    proof {
        let values = items_view(items@);
        assert forall|j: int| 0 <= j < values.len() implies (#[trigger] values[j]).as_u64()
            is Some by {
            assert(values[j].as_u64() == Some(list@[j]));
        }
        assert(user_ids(values) is Some);
        assert(user_ids(values)->0 =~= list@);
    }
    Some(list)
}

/// Writes a list of user ids as a JSON array.
pub fn write_user_ids(users: &Vec<u64>) -> (array: Json)
    ensures
        array@ == user_array(users@),
{
    let mut items: Vec<Json> = Vec::new();
    let mut i: usize = 0;
    while i < users.len()
        invariant
            i <= users.len(),
            items.len() == i,
            forall|j: int| 0 <= j < i ==> items@[j]@ == JsonValue::Unsigned(users@[j]),
        decreases users.len() - i,
    {
        items.push(Json::Unsigned(users[i]));
        i += 1;
    }
    proof {
        lemma_array_view(items);
        assert(items_view(items@) =~= user_array(users@)->Array_0);
    }
    Json::Array(items)
}

/// Reads the integer field `name` of an object.
fn read_integer(document: &Json, name: &str) -> (n: Option<i64>)
    ensures
        n == integer(document@.field(name@)),
{
    match document.get(name) {
        Some(value) => value.as_i64(),
        None => None,
    }
}

/// Reads the field `members` of an object.
fn read_members(document: &Json) -> (members: Option<Vec<u64>>)
    ensures
        match members {
            Some(list) => member_list(document@.field("members"@)) == Some(list@),
            None => member_list(document@.field("members"@)) is None,
        },
{
    match document.get("members") {
        Some(value) => match value.as_array() {
            Some(items) => read_user_ids(items),
            None => None,
        },
        None => None,
    }
}

impl ChatRecord {
    /// Reads a chat from its JSON form; `None` where the document is not an
    /// object with an integer `id` and an array `members` of user ids.
    pub fn from_json(document: &Json) -> (chat: Option<ChatRecord>)
        ensures
            match chat {
                Some(c) => ChatRecordView::of_json(document@) == Some(c@) && c@.well_formed(),
                None => ChatRecordView::of_json(document@) is None,
            },
    {
        match document {
            Json::Object(fields) => {
                proof {
                    lemma_object_view(*fields);
                    lemma_without_is_free(fields_view(fields@), chat_keys());
                }
                let id = read_integer(document, "id");
                let members = read_members(document);
                match (id, members) {
                    (Some(id), Some(members)) => {
                        let names = chat_key_list();
                        let rest = fields_without(fields, &names);
                        Some(ChatRecord { id, members, rest })
                    },
                    _ => None,
                }
            },
            _ => None,
        }
    }

    /// The fields of the record's JSON form.
    pub fn fields(&self) -> (fields: Vec<(String, Json)>)
        ensures
            fields_view(fields@) == self@.fields(),
    {
        let none: Vec<String> = Vec::new();
        let mut fields = fields_without(&self.rest, &none);
        proof {
            assert(names_view(none@) =~= Seq::empty());
            assert(free_of(fields_view(self.rest@), Seq::empty()));
            lemma_without_keeps(fields_view(self.rest@), Seq::empty());
        }
        fields.insert(0, (owned("members"), write_user_ids(&self.members)));
        fields.insert(0, (owned("id"), Json::from_i64(self.id)));
        assert(fields_view(fields@) =~= self@.fields());
        fields
    }

    /// The record's JSON form.
    pub fn to_json(&self) -> (document: Json)
        ensures
            document@ == self@.to_json(),
    {
        let fields = self.fields();
        proof {
            lemma_object_view(fields);
        }
        Json::Object(fields)
    }
}

impl MessageRecord {
    /// The user who sent the message, where the record says so.
    pub fn sender_id(&self) -> (sender: Option<i64>)
        ensures
            sender == integer(lookup(self@.rest, "sender_id"@)),
    {
        match find_field(&self.rest, "sender_id") {
            Some(value) => value.as_i64(),
            None => None,
        }
    }

    /// The text of the message, where the record has one.
    pub fn content(&self) -> (content: Option<&String>)
        ensures
            match content {
                Some(t) => text(lookup(self@.rest, "content"@)) == Some(t@),
                None => text(lookup(self@.rest, "content"@)) is None,
            },
    {
        match find_field(&self.rest, "content") {
            Some(value) => value.as_text(),
            None => None,
        }
    }

    /// When the message was created, as the record spells it.
    pub fn created_at(&self) -> (created_at: Option<&String>)
        ensures
            match created_at {
                Some(t) => text(lookup(self@.rest, "created_at"@)) == Some(t@),
                None => text(lookup(self@.rest, "created_at"@)) is None,
            },
    {
        match find_field(&self.rest, "created_at") {
            Some(value) => value.as_text(),
            None => None,
        }
    }

    /// Reads a message from its JSON form; `None` where the document is not
    /// an object with integers `id` and `chat_id`.
    pub fn from_json(document: &Json) -> (message: Option<MessageRecord>)
        ensures
            match message {
                Some(m) => MessageRecordView::of_json(document@) == Some(m@)
                    && m@.well_formed(),
                None => MessageRecordView::of_json(document@) is None,
            },
    {
        match document {
            Json::Object(fields) => {
                proof {
                    lemma_object_view(*fields);
                    lemma_without_is_free(fields_view(fields@), message_keys());
                }
                let id = read_integer(document, "id");
                let chat_id = read_integer(document, "chat_id");
                match (id, chat_id) {
                    (Some(id), Some(chat_id)) => {
                        let names = message_key_list();
                        let rest = fields_without(fields, &names);
                        Some(MessageRecord { id, chat_id, rest })
                    },
                    _ => None,
                }
            },
            _ => None,
        }
    }

    /// The fields of the record's JSON form.
    pub fn fields(&self) -> (fields: Vec<(String, Json)>)
        ensures
            fields_view(fields@) == self@.fields(),
    {
        let none: Vec<String> = Vec::new();
        let mut fields = fields_without(&self.rest, &none);
        proof {
            assert(names_view(none@) =~= Seq::empty());
            assert(free_of(fields_view(self.rest@), Seq::empty()));
            lemma_without_keeps(fields_view(self.rest@), Seq::empty());
        }
        fields.insert(0, (owned("chat_id"), Json::from_i64(self.chat_id)));
        fields.insert(0, (owned("id"), Json::from_i64(self.id)));
        assert(fields_view(fields@) =~= self@.fields());
        fields
    }

    /// The record's JSON form.
    pub fn to_json(&self) -> (document: Json)
        ensures
            document@ == self@.to_json(),
    {
        let fields = self.fields();
        proof {
            lemma_object_view(fields);
        }
        Json::Object(fields)
    }
}

/// The user ids written as an array are read back as they were.
pub proof fn lemma_user_array(users: Seq<u64>)
    ensures
        member_list(Some(user_array(users))) == Some(users),
{
    let items = user_array(users)->Array_0;
    assert forall|i: int| 0 <= i < items.len() implies (#[trigger] items[i]).as_u64() is Some by {
        assert(items[i] == JsonValue::Unsigned(users[i]));
    }
    assert(user_ids(items)->0 =~= users);
}

/// An integer written as a JSON number is read back as it was.
pub proof fn lemma_integer(n: i64)
    ensures
        integer(Some(JsonValue::of_i64(n))) == Some(n),
{
}

/// A well-formed chat is read back from its JSON form, also where a field
/// `event` stands in front of it.
pub proof fn lemma_chat_read_back(chat: ChatRecordView, tag: JsonValue)
    requires
        chat.well_formed(),
    ensures
        ChatRecordView::of_json(chat.to_json()) == Some(chat),
        ChatRecordView::of_json(JsonValue::Object(seq![("event"@, tag)] + chat.fields()))
            == Some(chat),
{
    reveal_strlit("event");
    reveal_strlit("id");
    reveal_strlit("members");
    reveal_with_fuel(lookup, 4);
    reveal_with_fuel(without, 4);
    let keys = chat_keys();
    assert(keys[0] == "event"@ && keys[1] == "id"@ && keys[2] == "members"@);
    assert("event"@ != "id"@ && "event"@ != "members"@ && "id"@ != "members"@) by {
        assert("event"@.len() == 5 && "id"@.len() == 2 && "members"@.len() == 7);
    }
    lemma_user_array(chat.members);
    lemma_integer(chat.id);
    lemma_without_keeps(chat.rest, keys);

    let own = seq![("id"@, JsonValue::of_i64(chat.id)), ("members"@, user_array(chat.members))];
    assert(chat.fields() == own + chat.rest);
    lemma_without_concat(own, chat.rest, keys);
    assert(own.drop_last() =~= seq![("id"@, JsonValue::of_i64(chat.id))]);
    assert(own.drop_last().drop_last() =~= Seq::empty());
    assert(without(own, keys) =~= Seq::empty());
    assert(without(own, keys) + chat.rest =~= chat.rest);
    assert(chat.fields().first() == own[0]);
    assert(chat.fields().drop_first().first() == own[1]);

    let tagged = seq![("event"@, tag)] + chat.fields();
    let front = seq![("event"@, tag)];
    lemma_without_concat(front, chat.fields(), keys);
    assert(front.drop_last() =~= Seq::empty());
    assert(without(front, keys) =~= Seq::empty());
    assert(without(front, keys) + chat.rest =~= chat.rest);
    assert(tagged.first() == front[0]);
    assert(tagged.drop_first() =~= chat.fields());
}

/// A well-formed message is read back from its JSON form, also where a field
/// `event` stands in front of it.
pub proof fn lemma_message_read_back(message: MessageRecordView, tag: JsonValue)
    requires
        message.well_formed(),
    ensures
        MessageRecordView::of_json(message.to_json()) == Some(message),
        MessageRecordView::of_json(
            JsonValue::Object(seq![("event"@, tag)] + message.fields()),
        ) == Some(message),
{
    reveal_strlit("event");
    reveal_strlit("id");
    reveal_strlit("chat_id");
    reveal_with_fuel(lookup, 4);
    reveal_with_fuel(without, 4);
    let keys = message_keys();
    assert(keys[0] == "event"@ && keys[1] == "id"@ && keys[2] == "chat_id"@);
    assert("event"@ != "id"@ && "event"@ != "chat_id"@ && "id"@ != "chat_id"@) by {
        assert("event"@.len() == 5 && "id"@.len() == 2 && "chat_id"@.len() == 7);
    }
    lemma_integer(message.id);
    lemma_integer(message.chat_id);
    lemma_without_keeps(message.rest, keys);

    let own = seq![
        ("id"@, JsonValue::of_i64(message.id)),
        ("chat_id"@, JsonValue::of_i64(message.chat_id)),
    ];
    assert(message.fields() == own + message.rest);
    lemma_without_concat(own, message.rest, keys);
    assert(own.drop_last() =~= seq![("id"@, JsonValue::of_i64(message.id))]);
    assert(own.drop_last().drop_last() =~= Seq::empty());
    assert(without(own, keys) =~= Seq::empty());
    assert(without(own, keys) + message.rest =~= message.rest);
    assert(message.fields().first() == own[0]);
    assert(message.fields().drop_first().first() == own[1]);

    let tagged = seq![("event"@, tag)] + message.fields();
    let front = seq![("event"@, tag)];
    lemma_without_concat(front, message.fields(), keys);
    assert(front.drop_last() =~= Seq::empty());
    assert(without(front, keys) =~= Seq::empty());
    assert(without(front, keys) + message.rest =~= message.rest);
    assert(tagged.first() == front[0]);
    assert(tagged.drop_first() =~= message.fields());
}

} // verus!
