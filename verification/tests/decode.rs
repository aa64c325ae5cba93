use notify_server::decode::{
    decode, decode_document, get_affected_chat_user_ids, ChatMutationPayload, DecodeError,
    Decoded, MessageCreatedPayload, Notification, Operation, CHAT_MUTATION, MESSAGE_CREATED,
};
use notify_server::event::AppEvent;
use notify_server::json::Json;
use notify_server::record::{ChatRecord, MessageRecord};

fn chat(id: i64, members: Vec<u64>) -> ChatRecord {
    ChatRecord { id, members, rest: vec![] }
}

fn notified(outcome: Result<Decoded, DecodeError>) -> Notification {
    match outcome {
        Ok(Decoded::Notify(notification)) => notification,
        other => panic!("expected an event, got {:?}", other),
    }
}

#[test]
fn channel_names_are_the_two_known() {
    assert_eq!(CHAT_MUTATION, "chat_mutation");
    assert_eq!(MESSAGE_CREATED, "message_created");
}

#[test]
fn insert_tells_members_of_new_chat() {
    let payload = r#"{"operation":"INSERT","old":null,"new":{"id":3,"members":[4,5,6]}}"#;
    let n = notified(decode("chat_mutation", payload));
    assert_eq!(*n.event, AppEvent::NewChat(chat(3, vec![4, 5, 6])));
    assert_eq!(n.user_ids, vec![4, 5, 6]);
}

#[test]
fn insert_without_old_field_is_accepted() {
    let payload = r#"{"operation":"INSERT","new":{"id":3,"members":[9]}}"#;
    let n = notified(decode("chat_mutation", payload));
    assert_eq!(*n.event, AppEvent::NewChat(chat(3, vec![9])));
    assert_eq!(n.user_ids, vec![9]);
}

#[test]
fn delete_tells_members_of_old_chat() {
    let payload = r#"{"operation":"DELETE","old":{"id":8,"members":[1,2]},"new":null}"#;
    let n = notified(decode("chat_mutation", payload));
    assert_eq!(*n.event, AppEvent::RemoveFromChat(chat(8, vec![1, 2])));
    assert_eq!(n.user_ids, vec![1, 2]);
}

#[test]
fn update_tells_members_of_either_snapshot_of_old_chat() {
    let payload = r#"{"operation":"UPDATE","old":{"id":1,"members":[1,2,3]},"new":{"id":1,"members":[1,2,4]}}"#;
    let n = notified(decode("chat_mutation", payload));
    assert_eq!(*n.event, AppEvent::AddToChat(chat(1, vec![1, 2, 3])));
    assert_eq!(n.user_ids, vec![1, 2, 3, 4]);
}

#[test]
fn update_with_same_members_is_skipped() {
    let payload = r#"{"operation":"UPDATE","old":{"id":1,"members":[1,2,3]},"new":{"id":1,"members":[3,2,1,1]}}"#;
    assert!(matches!(decode("chat_mutation", payload), Ok(Decoded::Skip)));
}

#[test]
fn same_members_are_skipped_for_every_operation() {
    for operation in [Operation::Insert, Operation::Update, Operation::Delete] {
        let payload = ChatMutationPayload {
            operation,
            old: Some(chat(1, vec![7, 8])),
            new: Some(chat(1, vec![8, 7])),
        };
        assert!(matches!(payload.decode(), Ok(Decoded::Skip)));
    }
}

#[test]
fn mutation_without_snapshots_is_malformed() {
    let payload = r#"{"operation":"UPDATE","old":null,"new":null}"#;
    assert!(matches!(decode("chat_mutation", payload), Err(DecodeError::Malformed)));
    let payload = r#"{"operation":"UPDATE"}"#;
    assert!(matches!(decode("chat_mutation", payload), Err(DecodeError::Malformed)));
}

#[test]
fn mutation_without_the_snapshot_of_its_operation_is_malformed() {
    let insert = ChatMutationPayload {
        operation: Operation::Insert,
        old: Some(chat(1, vec![1])),
        new: None,
    };
    assert!(matches!(insert.decode(), Err(DecodeError::Malformed)));
    let update = ChatMutationPayload {
        operation: Operation::Update,
        old: None,
        new: Some(chat(1, vec![1])),
    };
    assert!(matches!(update.decode(), Err(DecodeError::Malformed)));
    let delete = ChatMutationPayload {
        operation: Operation::Delete,
        old: None,
        new: Some(chat(1, vec![1])),
    };
    assert!(matches!(delete.decode(), Err(DecodeError::Malformed)));
}

#[test]
fn unknown_operation_is_rejected() {
    let payload = r#"{"operation":"TRUNCATE","old":{"id":1,"members":[1]},"new":null}"#;
    assert!(matches!(decode("chat_mutation", payload), Err(DecodeError::UnknownOperation)));
    let payload = r#"{"operation":"insert","new":{"id":1,"members":[1]}}"#;
    assert!(matches!(decode("chat_mutation", payload), Err(DecodeError::UnknownOperation)));
}

#[test]
fn bad_snapshot_comes_before_unknown_operation() {
    let payload = r#"{"operation":"TRUNCATE","old":{"id":1},"new":null}"#;
    assert!(matches!(decode("chat_mutation", payload), Err(DecodeError::Malformed)));
}

#[test]
fn unknown_channel_is_rejected_whatever_the_payload() {
    let payload = r#"{"operation":"INSERT","new":{"id":1,"members":[1]}}"#;
    assert!(matches!(decode("chat_updated", payload), Err(DecodeError::UnknownChannel)));
    assert!(matches!(decode("", "not json"), Err(DecodeError::UnknownChannel)));
}

#[test]
fn text_that_is_no_json_is_malformed_on_both_channels() {
    for payload in ["", "{", "not json", r#"{"operation":"INSERT","new":"#] {
        assert!(matches!(decode("chat_mutation", payload), Err(DecodeError::Malformed)));
        assert!(matches!(decode("message_created", payload), Err(DecodeError::Malformed)));
    }
}

#[test]
fn json_of_another_shape_is_malformed() {
    for payload in [
        "null",
        "[]",
        "17",
        r#"{"operation":7,"new":{"id":1,"members":[1]}}"#,
        r#"{"new":{"id":1,"members":[1]}}"#,
        r#"{"operation":"INSERT","new":{"id":1,"members":[-1]}}"#,
        r#"{"operation":"INSERT","new":{"id":1,"members":[1.5]}}"#,
        r#"{"operation":"INSERT","new":{"id":"1","members":[1]}}"#,
        r#"{"operation":"INSERT","new":{"id":1,"members":"1"}}"#,
        r#"{"operation":"INSERT","new":[1]}"#,
    ] {
        assert!(
            matches!(decode("chat_mutation", payload), Err(DecodeError::Malformed)),
            "{}",
            payload
        );
    }
    for payload in [
        "null",
        r#"{"members":[1]}"#,
        r#"{"message":{"id":1,"chat_id":2}}"#,
        r#"{"message":{"id":1},"members":[1]}"#,
        r#"{"message":{"id":1,"chat_id":2},"members":[1,"2"]}"#,
        r#"{"message":null,"members":[1]}"#,
    ] {
        assert!(
            matches!(decode("message_created", payload), Err(DecodeError::Malformed)),
            "{}",
            payload
        );
    }
}

#[test]
fn message_created_tells_the_members_once_each() {
    let payload = r#"{"message":{"id":10,"chat_id":5},"members":[1,2,1]}"#;
    let n = notified(decode("message_created", payload));
    assert_eq!(
        *n.event,
        AppEvent::NewMessage(MessageRecord { id: 10, chat_id: 5, rest: vec![] })
    );
    assert_eq!(n.user_ids, vec![1, 2]);
}

#[test]
fn message_keeps_its_other_fields() {
    let payload = r#"{"message":{"id":10,"chat_id":5,"sender_id":1,"content":"hi","created_at":"2024-05-01T10:00:00Z"},"members":[]}"#;
    let n = notified(decode("message_created", payload));
    let expected = MessageRecord {
        id: 10,
        chat_id: 5,
        rest: vec![
            ("content".to_string(), Json::Text("hi".to_string())),
            ("created_at".to_string(), Json::Text("2024-05-01T10:00:00Z".to_string())),
            ("sender_id".to_string(), Json::Unsigned(1)),
        ],
    };
    assert_eq!(*n.event, AppEvent::NewMessage(expected));
    assert!(n.user_ids.is_empty());
}

#[test]
fn chat_keeps_its_other_fields() {
    let payload = r#"{"operation":"INSERT","new":{"id":-3,"ws_id":1,"name":null,"type":"group","members":[2],"ratio":0.5}}"#;
    let n = notified(decode("chat_mutation", payload));
    let expected = ChatRecord {
        id: -3,
        members: vec![2],
        rest: vec![
            ("name".to_string(), Json::Null),
            ("ratio".to_string(), Json::Float("0.5".to_string())),
            ("type".to_string(), Json::Text("group".to_string())),
            ("ws_id".to_string(), Json::Unsigned(1)),
        ],
    };
    assert_eq!(*n.event, AppEvent::NewChat(expected));
}

#[test]
fn insert_with_empty_chat_concerns_nobody() {
    let payload = r#"{"operation":"INSERT","new":{"id":3,"members":[]}}"#;
    let n = notified(decode("chat_mutation", payload));
    assert!(n.user_ids.is_empty());
}

#[test]
fn affected_users_of_two_snapshots() {
    let old = chat(1, vec![1, 2, 3]);
    let new = chat(1, vec![1, 2, 4]);
    assert_eq!(get_affected_chat_user_ids(Some(&old), Some(&new)), vec![1, 2, 3, 4]);
    assert_eq!(get_affected_chat_user_ids(Some(&old), Some(&old)), Vec::<u64>::new());
    let shuffled = chat(1, vec![3, 3, 1, 2]);
    assert_eq!(get_affected_chat_user_ids(Some(&old), Some(&shuffled)), Vec::<u64>::new());
}

#[test]
fn affected_users_of_one_snapshot() {
    let only = chat(1, vec![5, 6, 5]);
    assert_eq!(get_affected_chat_user_ids(Some(&only), None), vec![5, 6]);
    assert_eq!(get_affected_chat_user_ids(None, Some(&only)), vec![5, 6]);
    assert_eq!(get_affected_chat_user_ids(None, None), Vec::<u64>::new());
}

#[test]
fn operation_names() {
    assert_eq!(Operation::from_name("INSERT"), Some(Operation::Insert));
    assert_eq!(Operation::from_name("UPDATE"), Some(Operation::Update));
    assert_eq!(Operation::from_name("DELETE"), Some(Operation::Delete));
    assert_eq!(Operation::from_name("delete"), None);
    assert_eq!(Operation::from_name(""), None);
}

#[test]
fn payloads_are_read_from_json() {
    let document = Json::parse(r#"{"operation":"UPDATE","old":{"id":1,"members":[1]},"extra":true}"#)
        .expect("json");
    let payload = ChatMutationPayload::from_json(&document).expect("payload");
    assert_eq!(
        payload,
        ChatMutationPayload { operation: Operation::Update, old: Some(chat(1, vec![1])), new: None }
    );
    let document = Json::parse(r#"{"message":{"id":1,"chat_id":2},"members":[3,3]}"#).expect("json");
    let payload = MessageCreatedPayload::from_json(&document).expect("payload");
    assert_eq!(
        payload,
        MessageCreatedPayload {
            message: MessageRecord { id: 1, chat_id: 2, rest: vec![] },
            members: vec![3, 3],
        }
    );
}

#[test]
fn decoding_a_document_that_is_missing() {
    assert!(matches!(decode_document("chat_mutation", None), Err(DecodeError::Malformed)));
    assert!(matches!(decode_document("message_created", None), Err(DecodeError::Malformed)));
    assert!(matches!(decode_document("elsewhere", None), Err(DecodeError::UnknownChannel)));
    let document = Json::parse(r#"{"message":{"id":1,"chat_id":2},"members":[3]}"#).expect("json");
    let n = notified(decode_document("message_created", Some(&document)));
    assert_eq!(n.user_ids, vec![3]);
}
