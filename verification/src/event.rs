//! Change events and their form on the wire.
//!
//! On the wire an event is one JSON object: the field `event` names the
//! variant, and the fields of the record follow it.

use crate::json::{fields_view, json_parse, json_print, lemma_object_view, lookup, Json, JsonValue};
use crate::record::{
    lemma_chat_read_back, lemma_message_read_back, ChatRecord, ChatRecordView, MessageRecord,
    MessageRecordView,
};
use crate::text::{owned, same_text};
use vstd::prelude::*;

verus! {

/// The mathematical content of a [`AppEvent`].
pub enum AppEventView {
    NewChat(ChatRecordView),
    AddToChat(ChatRecordView),
    RemoveFromChat(ChatRecordView),
    NewMessage(MessageRecordView),
}

/// A change that clients are told of. It is built once and never changed.
#[derive(Debug, PartialEq, Eq)]
pub enum AppEvent {
    NewChat(ChatRecord),
    AddToChat(ChatRecord),
    RemoveFromChat(ChatRecord),
    NewMessage(MessageRecord),
}

impl View for AppEvent {
    type V = AppEventView;

    open spec fn view(&self) -> AppEventView {
        match self {
            AppEvent::NewChat(chat) => AppEventView::NewChat(chat@),
            AppEvent::AddToChat(chat) => AppEventView::AddToChat(chat@),
            AppEvent::RemoveFromChat(chat) => AppEventView::RemoveFromChat(chat@),
            AppEvent::NewMessage(message) => AppEventView::NewMessage(message@),
        }
    }
}

impl AppEventView {
    /// The name of the variant, as it stands on the wire.
    pub open spec fn name(self) -> Seq<char> {
        match self {
            AppEventView::NewChat(_) => "NewChat"@,
            AppEventView::AddToChat(_) => "AddToChat"@,
            AppEventView::RemoveFromChat(_) => "RemoveFromChat"@,
            AppEventView::NewMessage(_) => "NewMessage"@,
        }
    }

    /// An event is well formed when its record is.
    pub open spec fn well_formed(self) -> bool {
        match self {
            AppEventView::NewChat(chat) => chat.well_formed(),
            AppEventView::AddToChat(chat) => chat.well_formed(),
            AppEventView::RemoveFromChat(chat) => chat.well_formed(),
            AppEventView::NewMessage(message) => message.well_formed(),
        }
    }

    /// The fields of the record that the event carries.
    pub open spec fn record_fields(self) -> Seq<(Seq<char>, JsonValue)> {
        match self {
            AppEventView::NewChat(chat) => chat.fields(),
            AppEventView::AddToChat(chat) => chat.fields(),
            AppEventView::RemoveFromChat(chat) => chat.fields(),
            AppEventView::NewMessage(message) => message.fields(),
        }
    }

    /// The event's JSON form: the variant's name under `event`, then the
    /// fields of the record.
    pub open spec fn to_json(self) -> JsonValue {
        JsonValue::Object(seq![("event"@, JsonValue::Text(self.name()))] + self.record_fields())
    }

    /// The event that a JSON document spells, where it spells one.
    pub open spec fn of_json(document: JsonValue) -> Option<AppEventView> {
        match document.field("event"@) {
            Some(JsonValue::Text(name)) => if name == "NewChat"@ {
                match ChatRecordView::of_json(document) {
                    Some(chat) => Some(AppEventView::NewChat(chat)),
                    None => None,
                }
            } else if name == "AddToChat"@ {
                match ChatRecordView::of_json(document) {
                    Some(chat) => Some(AppEventView::AddToChat(chat)),
                    None => None,
                }
            } else if name == "RemoveFromChat"@ {
                match ChatRecordView::of_json(document) {
                    Some(chat) => Some(AppEventView::RemoveFromChat(chat)),
                    None => None,
                }
            } else if name == "NewMessage"@ {
                match MessageRecordView::of_json(document) {
                    Some(message) => Some(AppEventView::NewMessage(message)),
                    None => None,
                }
            } else {
                None
            },
            _ => None,
        }
    }

    /// The event's JSON text, `None` where it has none.
    pub open spec fn to_text(self) -> Option<Seq<char>> {
        json_print(self.to_json())
    }

    /// The event that a JSON text spells, where it spells one.
    pub open spec fn of_text(text: Seq<char>) -> Option<AppEventView> {
        match json_parse(text) {
            Some(document) => AppEventView::of_json(document),
            None => None,
        }
    }
}

/// Reading an event's JSON form gives the event back, field for field.
pub proof fn lemma_event_round_trip(event: AppEventView)
    requires
        event.well_formed(),
    ensures
        AppEventView::of_json(event.to_json()) == Some(event),
{
    reveal_strlit("NewChat");
    reveal_strlit("AddToChat");
    reveal_strlit("RemoveFromChat");
    reveal_strlit("NewMessage");
    assert("NewChat"@.len() == 7 && "AddToChat"@.len() == 9 && "RemoveFromChat"@.len() == 14
        && "NewMessage"@.len() == 10);
    let tag = JsonValue::Text(event.name());
    let fields = seq![("event"@, tag)] + event.record_fields();
    assert(fields.first() == ("event"@, tag));
    assert(lookup(fields, "event"@) == Some(tag));
    match event {
        AppEventView::NewChat(chat) => lemma_chat_read_back(chat, tag),
        AppEventView::AddToChat(chat) => lemma_chat_read_back(chat, tag),
        AppEventView::RemoveFromChat(chat) => lemma_chat_read_back(chat, tag),
        AppEventView::NewMessage(message) => lemma_message_read_back(message, tag),
    }
}

impl AppEvent {
    /// The name of the variant, as it stands on the wire.
    pub fn name(&self) -> (name: &'static str)
        ensures
            name@ == self@.name(),
    {
        match self {
            AppEvent::NewChat(_) => "NewChat",
            AppEvent::AddToChat(_) => "AddToChat",
            AppEvent::RemoveFromChat(_) => "RemoveFromChat",
            AppEvent::NewMessage(_) => "NewMessage",
        }
    }

    /// The event's JSON form.
    pub fn to_json(&self) -> (document: Json)
        ensures
            document@ == self@.to_json(),
    {
        let mut fields = match self {
            AppEvent::NewChat(chat) => chat.fields(),
            AppEvent::AddToChat(chat) => chat.fields(),
            AppEvent::RemoveFromChat(chat) => chat.fields(),
            AppEvent::NewMessage(message) => message.fields(),
        };
        fields.insert(0, (owned("event"), Json::from_text(self.name())));
        proof {
            lemma_object_view(fields);
            assert(fields_view(fields@) =~= self@.to_json()->Object_0);
        }
        Json::Object(fields)
    }

    /// Reads an event from its JSON form; `None` where the document is not
    /// an object whose `event` names a variant and whose fields spell that
    /// variant's record.
    pub fn from_json(document: &Json) -> (event: Option<AppEvent>)
        ensures
            match event {
                Some(e) => AppEventView::of_json(document@) == Some(e@) && e@.well_formed(),
                None => AppEventView::of_json(document@) is None,
            },
    {
        let name = match document.get("event") {
            Some(tag) => match tag.as_text() {
                Some(name) => name,
                None => {
                    return None;
                },
            },
            None => {
                return None;
            },
        };
        if same_text(name.as_str(), "NewChat") {
            match ChatRecord::from_json(document) {
                Some(chat) => Some(AppEvent::NewChat(chat)),
                None => None,
            }
        } else if same_text(name.as_str(), "AddToChat") {
            match ChatRecord::from_json(document) {
                Some(chat) => Some(AppEvent::AddToChat(chat)),
                None => None,
            }
        } else if same_text(name.as_str(), "RemoveFromChat") {
            match ChatRecord::from_json(document) {
                Some(chat) => Some(AppEvent::RemoveFromChat(chat)),
                None => None,
            }
        } else if same_text(name.as_str(), "NewMessage") {
            match MessageRecord::from_json(document) {
                Some(message) => Some(AppEvent::NewMessage(message)),
                None => None,
            }
        } else {
            None
        }
    }

    /// The event's JSON text, as it is sent to clients.
    pub fn to_text(&self) -> (text: Option<String>)
        ensures
            match text {
                Some(t) => self@.to_text() == Some(t@),
                None => self@.to_text() is None,
            },
    {
        self.to_json().to_text()
    }

    /// Reads an event from JSON text.
    pub fn from_text(text: &str) -> (event: Option<AppEvent>)
        ensures
            match event {
                Some(e) => AppEventView::of_text(text@) == Some(e@) && e@.well_formed(),
                None => AppEventView::of_text(text@) is None,
            },
    {
        match Json::parse(text) {
            Some(document) => AppEvent::from_json(&document),
            None => None,
        }
    }
}

} // verus!
