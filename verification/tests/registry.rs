use notify_server::decode::{Decoded, DecodeError};
use notify_server::dispatch::{
    deliver, dispatch, publish_all, step, DispatchReport, Incoming, Publication, RawNotification,
    Step,
};
use notify_server::event::AppEvent;
use notify_server::record::{ChatRecord, MessageRecord};
use notify_server::registry::{Delivery, Registry, CHANNEL_CAPACITY};
use notify_server::stream::{frame, next_step, Received, StreamStep};
use std::sync::Arc;
use tokio::sync::broadcast::error::TryRecvError;

fn message_event(id: i64) -> Arc<AppEvent> {
    Arc::new(AppEvent::NewMessage(MessageRecord { id, chat_id: 5, rest: vec![] }))
}

fn raw(channel: &str, payload: &str) -> RawNotification {
    RawNotification { channel: channel.to_string(), payload: payload.to_string() }
}

#[test]
fn new_registry_is_empty() {
    let registry = Registry::new();
    assert_eq!(registry.len(), 0);
    assert!(!registry.has_channel(1));
}

#[test]
fn subscribe_makes_one_channel_per_user() {
    let mut registry = Registry::new();
    let _a = registry.subscribe(1);
    let _b = registry.subscribe(1);
    let _c = registry.subscribe(2);
    assert_eq!(registry.len(), 2);
    assert!(registry.has_channel(1));
    assert!(registry.has_channel(2));
    assert!(!registry.has_channel(3));
}

#[test]
fn publish_without_channel_does_nothing() {
    let mut registry = Registry::new();
    let mut other = registry.subscribe(1);
    assert_eq!(registry.publish(2, &message_event(1)), Delivery::NoChannel);
    assert_eq!(registry.len(), 1);
    assert!(!registry.has_channel(2));
    assert!(matches!(other.try_recv(), Err(TryRecvError::Empty)));
}

#[test]
fn publish_without_receivers_does_nothing() {
    let mut registry = Registry::new();
    let receiver = registry.subscribe(1);
    drop(receiver);
    assert_eq!(registry.publish(1, &message_event(1)), Delivery::NoReceivers);
    assert_eq!(registry.len(), 1);
    assert!(registry.has_channel(1));
    let mut late = registry.subscribe(1);
    assert!(matches!(late.try_recv(), Err(TryRecvError::Empty)));
    assert_eq!(registry.len(), 1);
}

#[test]
fn every_receiver_of_a_user_gets_the_same_event() {
    let mut registry = Registry::new();
    let mut first = registry.subscribe(1);
    let mut second = registry.subscribe(1);
    let event = message_event(7);
    assert_eq!(registry.publish(1, &event), Delivery::Delivered(2));
    let got_first = first.try_recv().expect("event");
    let got_second = second.try_recv().expect("event");
    assert!(Arc::ptr_eq(&got_first, &event));
    assert!(Arc::ptr_eq(&got_second, &event));
    assert!(matches!(first.try_recv(), Err(TryRecvError::Empty)));
}

#[test]
fn a_receiver_sees_only_what_is_sent_after_it_attached() {
    let mut registry = Registry::new();
    let mut early = registry.subscribe(1);
    registry.publish(1, &message_event(1));
    let mut late = registry.subscribe(1);
    registry.publish(1, &message_event(2));
    assert_eq!(early.try_recv().expect("event").as_ref(), message_event(1).as_ref());
    assert_eq!(early.try_recv().expect("event").as_ref(), message_event(2).as_ref());
    assert_eq!(late.try_recv().expect("event").as_ref(), message_event(2).as_ref());
    assert!(matches!(late.try_recv(), Err(TryRecvError::Empty)));
}

#[test]
fn a_slow_receiver_loses_its_oldest_events_only() {
    assert_eq!(CHANNEL_CAPACITY, 256);
    let mut registry = Registry::new();
    let mut slow = registry.subscribe(1);
    let mut other = registry.subscribe(2);
    for id in 0..(CHANNEL_CAPACITY as i64 + 3) {
        assert_eq!(registry.publish(1, &message_event(id)), Delivery::Delivered(1));
    }
    assert_eq!(registry.publish(2, &message_event(1000)), Delivery::Delivered(1));
    assert!(matches!(slow.try_recv(), Err(TryRecvError::Lagged(3))));
    assert_eq!(slow.try_recv().expect("event").as_ref(), message_event(3).as_ref());
    assert_eq!(other.try_recv().expect("event").as_ref(), message_event(1000).as_ref());
}

#[test]
fn delivery_of_a_send() {
    assert_eq!(Delivery::of_send(None), Delivery::NoReceivers);
    assert_eq!(Delivery::of_send(Some(4)), Delivery::Delivered(4));
}

#[test]
fn dispatch_reaches_subscribers_of_the_members_only() {
    let mut registry = Registry::new();
    let mut one = registry.subscribe(1);
    let mut two = registry.subscribe(2);
    let mut three = registry.subscribe(3);
    let report = dispatch(
        &registry,
        &raw("message_created", r#"{"message":{"id":10,"chat_id":5},"members":[1,2]}"#),
    );
    assert_eq!(
        report,
        DispatchReport::Published(vec![
            Publication { user: 1, delivery: Delivery::Delivered(1) },
            Publication { user: 2, delivery: Delivery::Delivered(1) },
        ])
    );
    let expected = AppEvent::NewMessage(MessageRecord { id: 10, chat_id: 5, rest: vec![] });
    assert_eq!(one.try_recv().expect("event").as_ref(), &expected);
    assert_eq!(two.try_recv().expect("event").as_ref(), &expected);
    assert!(matches!(one.try_recv(), Err(TryRecvError::Empty)));
    assert!(matches!(three.try_recv(), Err(TryRecvError::Empty)));
}

#[test]
fn a_stream_gets_one_frame_per_event_in_order() {
    let mut registry = Registry::new();
    let mut mine = registry.subscribe(1);
    let notifications = [
        raw("chat_mutation", r#"{"operation":"INSERT","new":{"id":1,"members":[1,2]}}"#),
        raw("message_created", r#"{"message":{"id":10,"chat_id":1},"members":[2]}"#),
        raw("message_created", r#"{"message":{"id":11,"chat_id":1},"members":[1,2]}"#),
        raw("chat_mutation", r#"{"operation":"DELETE","old":{"id":1,"members":[2,1]}}"#),
    ];
    for notification in notifications.iter() {
        dispatch(&registry, notification);
    }
    let mut frames = Vec::new();
    while let Ok(event) = mine.try_recv() {
        frames.push(frame(&event).expect("frame"));
    }
    assert_eq!(
        frames,
        vec![
            "event: NewChat\ndata: {\"event\":\"NewChat\",\"id\":1,\"members\":[1,2]}\n\n".to_string(),
            "event: NewMessage\ndata: {\"chat_id\":1,\"event\":\"NewMessage\",\"id\":11}\n\n".to_string(),
            "event: RemoveFromChat\ndata: {\"event\":\"RemoveFromChat\",\"id\":1,\"members\":[2,1]}\n\n"
                .to_string(),
        ]
    );
    assert_eq!(registry.len(), 1);
    assert!(!registry.has_channel(2));
}

#[test]
fn dispatch_shares_one_event_among_all() {
    let mut registry = Registry::new();
    let mut one = registry.subscribe(1);
    let mut two = registry.subscribe(2);
    dispatch(
        &registry,
        &raw("message_created", r#"{"message":{"id":10,"chat_id":5},"members":[1,2]}"#),
    );
    let a = one.try_recv().expect("event");
    let b = two.try_recv().expect("event");
    assert!(Arc::ptr_eq(&a, &b));
}

#[test]
fn unchanged_members_publish_nothing() {
    let mut registry = Registry::new();
    let mut one = registry.subscribe(1);
    let report = dispatch(
        &registry,
        &raw(
            "chat_mutation",
            r#"{"operation":"UPDATE","old":{"id":1,"members":[1,2]},"new":{"id":1,"members":[2,1]}}"#,
        ),
    );
    assert_eq!(report, DispatchReport::Skipped);
    assert!(matches!(one.try_recv(), Err(TryRecvError::Empty)));
}

#[test]
fn a_bad_notification_does_not_stop_the_next() {
    let mut registry = Registry::new();
    let mut one = registry.subscribe(1);
    let bad = Incoming::Notification(raw("chat_mutation", "{oops"));
    assert_eq!(step(&registry, &bad), Step::Continue(DispatchReport::Rejected(DecodeError::Malformed)));
    let bad = Incoming::Notification(raw("message_created", "[1,2"));
    assert_eq!(step(&registry, &bad), Step::Continue(DispatchReport::Rejected(DecodeError::Malformed)));
    let unknown = Incoming::Notification(raw("other", "{}"));
    assert_eq!(
        step(&registry, &unknown),
        Step::Continue(DispatchReport::Rejected(DecodeError::UnknownChannel))
    );
    let good = Incoming::Notification(raw(
        "message_created",
        r#"{"message":{"id":10,"chat_id":5},"members":[1]}"#,
    ));
    assert_eq!(
        step(&registry, &good),
        Step::Continue(DispatchReport::Published(vec![Publication {
            user: 1,
            delivery: Delivery::Delivered(1)
        }]))
    );
    assert!(one.try_recv().is_ok());
}

#[test]
fn the_loop_stops_when_the_subscription_is_gone() {
    let registry = Registry::new();
    assert_eq!(step(&registry, &Incoming::Failed), Step::Stop);
    assert_eq!(step(&registry, &Incoming::Closed), Step::Stop);
}

#[test]
fn deliver_follows_the_outcome() {
    let mut registry = Registry::new();
    let _one = registry.subscribe(1);
    assert_eq!(
        deliver(&registry, &Err(DecodeError::UnknownOperation)),
        DispatchReport::Rejected(DecodeError::UnknownOperation)
    );
    assert_eq!(deliver(&registry, &Ok(Decoded::Skip)), DispatchReport::Skipped);
    let payload = notify_server::decode::ChatMutationPayload {
        operation: notify_server::decode::Operation::Insert,
        old: None,
        new: Some(ChatRecord { id: 1, members: vec![2, 1, 2], rest: vec![] }),
    };
    let outcome = payload.decode();
    assert_eq!(
        deliver(&registry, &outcome),
        DispatchReport::Published(vec![
            Publication { user: 2, delivery: Delivery::NoChannel },
            Publication { user: 1, delivery: Delivery::Delivered(1) },
        ])
    );
    if let Ok(Decoded::Notify(notification)) = &outcome {
        assert_eq!(publish_all(&registry, notification).len(), 2);
    } else {
        panic!("expected an event");
    }
}

#[test]
fn frames_of_events() {
    let event = AppEvent::AddToChat(ChatRecord { id: 4, members: vec![9], rest: vec![] });
    assert_eq!(
        frame(&event),
        Some("event: AddToChat\ndata: {\"event\":\"AddToChat\",\"id\":4,\"members\":[9]}\n\n".to_string())
    );
    let broken = AppEvent::NewMessage(MessageRecord {
        id: 1,
        chat_id: 2,
        rest: vec![("x".to_string(), notify_server::json::Json::Float("?".to_string()))],
    });
    assert_eq!(frame(&broken), None);
}

#[test]
fn steps_of_a_stream() {
    assert_eq!(
        next_step(&Received::Event(message_event(3))),
        StreamStep::Send("event: NewMessage\ndata: {\"chat_id\":5,\"event\":\"NewMessage\",\"id\":3}\n\n".to_string())
    );
    assert_eq!(next_step(&Received::Lagged(12)), StreamStep::Missed(12));
    assert_eq!(next_step(&Received::Closed), StreamStep::Stop);
    let broken = Arc::new(AppEvent::NewMessage(MessageRecord {
        id: 1,
        chat_id: 2,
        rest: vec![("x".to_string(), notify_server::json::Json::Float("?".to_string()))],
    }));
    assert_eq!(next_step(&Received::Event(broken)), StreamStep::Unwritable);
}
