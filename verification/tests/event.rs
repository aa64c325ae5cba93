use notify_server::event::AppEvent;
use notify_server::json::Json;
use notify_server::record::{read_user_ids, write_user_ids, ChatRecord, MessageRecord};

fn sample_chat() -> ChatRecord {
    ChatRecord {
        id: 12,
        members: vec![3, 1, 3],
        rest: vec![
            ("name".to_string(), Json::Text("general".to_string())),
            ("ws_id".to_string(), Json::Unsigned(1)),
        ],
    }
}

fn sample_message() -> MessageRecord {
    MessageRecord {
        id: 10,
        chat_id: 5,
        rest: vec![
            ("content".to_string(), Json::Text("hello".to_string())),
            ("created_at".to_string(), Json::Text("2024-05-01T10:00:00Z".to_string())),
            ("files".to_string(), Json::Array(vec![])),
            ("sender_id".to_string(), Json::Unsigned(3)),
        ],
    }
}

#[test]
fn names_on_the_wire() {
    assert_eq!(AppEvent::NewChat(sample_chat()).name(), "NewChat");
    assert_eq!(AppEvent::AddToChat(sample_chat()).name(), "AddToChat");
    assert_eq!(AppEvent::RemoveFromChat(sample_chat()).name(), "RemoveFromChat");
    assert_eq!(AppEvent::NewMessage(sample_message()).name(), "NewMessage");
}

#[test]
fn chat_event_as_json() {
    let expected = Json::Object(vec![
        ("event".to_string(), Json::Text("AddToChat".to_string())),
        ("id".to_string(), Json::Unsigned(12)),
        (
            "members".to_string(),
            Json::Array(vec![Json::Unsigned(3), Json::Unsigned(1), Json::Unsigned(3)]),
        ),
        ("name".to_string(), Json::Text("general".to_string())),
        ("ws_id".to_string(), Json::Unsigned(1)),
    ]);
    assert_eq!(AppEvent::AddToChat(sample_chat()).to_json(), expected);
}

#[test]
fn event_as_text() {
    assert_eq!(
        AppEvent::NewChat(sample_chat()).to_text(),
        Some(r#"{"event":"NewChat","id":12,"members":[3,1,3],"name":"general","ws_id":1}"#.to_string())
    );
    assert_eq!(
        AppEvent::NewMessage(MessageRecord { id: -10, chat_id: 5, rest: vec![] }).to_text(),
        Some(r#"{"chat_id":5,"event":"NewMessage","id":-10}"#.to_string())
    );
}

#[test]
fn every_variant_survives_the_wire() {
    let events = vec![
        AppEvent::NewChat(sample_chat()),
        AppEvent::AddToChat(sample_chat()),
        AppEvent::RemoveFromChat(sample_chat()),
        AppEvent::NewMessage(sample_message()),
    ];
    for event in events {
        let json = event.to_json();
        assert_eq!(AppEvent::from_json(&json), Some(event.to_json()).and_then(|j| AppEvent::from_json(&j)));
        assert_eq!(AppEvent::from_json(&json).as_ref(), Some(&event));
        let text = event.to_text().expect("text");
        assert_eq!(AppEvent::from_text(&text).as_ref(), Some(&event));
    }
}

#[test]
fn events_are_not_read_from_other_documents() {
    assert_eq!(AppEvent::from_text("{}"), None);
    assert_eq!(AppEvent::from_text("nothing"), None);
    assert_eq!(AppEvent::from_text(r#"{"event":"Other","id":1,"members":[]}"#), None);
    assert_eq!(AppEvent::from_text(r#"{"event":7,"id":1,"members":[]}"#), None);
    assert_eq!(AppEvent::from_text(r#"{"event":"NewChat","id":1}"#), None);
    assert_eq!(AppEvent::from_text(r#"{"event":"NewMessage","id":1,"members":[]}"#), None);
    assert_eq!(
        AppEvent::from_text(r#"{"event":"NewMessage","id":1,"chat_id":2}"#),
        Some(AppEvent::NewMessage(MessageRecord { id: 1, chat_id: 2, rest: vec![] }))
    );
}

#[test]
fn records_as_json_and_back() {
    let chat = sample_chat();
    assert_eq!(ChatRecord::from_json(&chat.to_json()).as_ref(), Some(&chat));
    assert_eq!(chat.fields().len(), 4);
    let message = sample_message();
    assert_eq!(MessageRecord::from_json(&message.to_json()).as_ref(), Some(&message));
    assert_eq!(
        MessageRecord { id: 1, chat_id: 2, rest: vec![] }.to_json(),
        Json::Object(vec![
            ("id".to_string(), Json::Unsigned(1)),
            ("chat_id".to_string(), Json::Unsigned(2)),
        ])
    );
}

#[test]
fn records_drop_fields_of_reserved_names() {
    let document = Json::Object(vec![
        ("event".to_string(), Json::Text("x".to_string())),
        ("id".to_string(), Json::Unsigned(1)),
        ("members".to_string(), Json::Array(vec![Json::Unsigned(2)])),
        ("id".to_string(), Json::Unsigned(9)),
        ("topic".to_string(), Json::Null),
    ]);
    assert_eq!(
        ChatRecord::from_json(&document),
        Some(ChatRecord {
            id: 1,
            members: vec![2],
            rest: vec![("topic".to_string(), Json::Null)],
        })
    );
    assert_eq!(ChatRecord::from_json(&Json::Null), None);
    assert_eq!(MessageRecord::from_json(&document), None);
}

#[test]
fn user_ids_as_json_and_back() {
    assert_eq!(
        write_user_ids(&vec![1, 2, u64::MAX]),
        Json::Array(vec![Json::Unsigned(1), Json::Unsigned(2), Json::Unsigned(u64::MAX)])
    );
    assert_eq!(read_user_ids(&vec![Json::Unsigned(1), Json::Signed(2)]), Some(vec![1, 2]));
    assert_eq!(read_user_ids(&vec![]), Some(vec![]));
    assert_eq!(read_user_ids(&vec![Json::Unsigned(1), Json::Signed(-2)]), None);
    assert_eq!(read_user_ids(&vec![Json::Null]), None);
}

#[test]
fn message_fields_by_name() {
    let message = sample_message();
    assert_eq!(message.sender_id(), Some(3));
    assert_eq!(message.content(), Some(&"hello".to_string()));
    assert_eq!(message.created_at(), Some(&"2024-05-01T10:00:00Z".to_string()));
    let bare = MessageRecord {
        id: 1,
        chat_id: 2,
        rest: vec![("content".to_string(), Json::Unsigned(1))],
    };
    assert_eq!(bare.sender_id(), None);
    assert_eq!(bare.content(), None);
    assert_eq!(bare.created_at(), None);
}
