use xmpp_client::events::{Subscription, Timestamp, XmppEvent};
use xmpp_client::jid::Jid;

#[test]
fn test_xmpp_event_serialization() {
    let jid: Jid = "user@example.com".parse().unwrap();
    let now = Timestamp { unix_millis: chrono::Utc::now().timestamp_millis() };
    let event = XmppEvent::MessageReceived {
        from: jid.clone(),
        to: jid.clone(),
        body: "Hello, World!".to_string(),
        stanza_id: "msg_123".to_string(),
        timestamp: Some(now),
    };

    let event_clone = event.clone();

    match (event, event_clone) {
        (
            XmppEvent::MessageReceived { from: f1, to: t1, body: b1, stanza_id: s1, .. },
            XmppEvent::MessageReceived { from: f2, to: t2, body: b2, stanza_id: s2, .. },
        ) => {
            assert_eq!(f1, f2);
            assert_eq!(t1, t2);
            assert_eq!(b1, b2);
            assert_eq!(s1, s2);
        }
        _ => panic!("Event cloning failed"),
    }
}

#[test]
fn subscription_names() {
    assert_eq!(Subscription::Neither.as_str(), "none");
    assert_eq!(Subscription::Both.as_str(), "both");
    assert_eq!(Subscription::Remove.as_str(), "remove");
}
