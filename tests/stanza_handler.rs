use xmpp_client::events::{CarbonType, Timestamp, XmppEvent};
use xmpp_client::jid::Jid;
use xmpp_client::protocol::{InboundMessage, MessageType, OutboundStanza};
use xmpp_client::stanza_handler::{DelayInfo, MucUserItem, StanzaHandler, XmlElement};

fn jid(s: &str) -> Jid {
    Jid::new(s).unwrap()
}

fn delay_element(attrs: Vec<(&str, &str)>) -> XmlElement {
    XmlElement {
        name: "delay".to_string(),
        ns: Some("urn:xmpp:delay".to_string()),
        attrs: attrs.into_iter().map(|(k, v)| (k.to_string(), v.to_string())).collect(),
    }
}

#[test]
fn delay_info_reads_stamp() {
    let e = delay_element(vec![("from", "Capulet.lit"), ("stamp", "2002-09-10T23:08:25Z"), ("reason", "Offline Storage")]);
    let d = DelayInfo::from_element(&e).unwrap();
    assert_eq!(d.stamp, Timestamp { unix_millis: 1_031_699_305_000 });
    assert_eq!(d.from, Some(jid("capulet.lit")));
    assert_eq!(d.reason.as_deref(), Some("Offline Storage"));

    let e = delay_element(vec![("stamp", "2002-09-10T23:08:25+02:00")]);
    let d = DelayInfo::from_element(&e).unwrap();
    assert_eq!(d.stamp, Timestamp { unix_millis: 1_031_692_105_000 });
    assert_eq!(d.from, None);
    assert_eq!(d.reason, None);
}

#[test]
fn delay_info_rejects_other_elements() {
    assert_eq!(DelayInfo::from_element(&delay_element(vec![("stamp", "yesterday")])), None);
    assert_eq!(DelayInfo::from_element(&delay_element(vec![])), None);
    let mut e = delay_element(vec![("stamp", "2002-09-10T23:08:25Z")]);
    e.ns = Some("jabber:x:delay".to_string());
    assert_eq!(DelayInfo::from_element(&e), None);
    let mut e = delay_element(vec![("stamp", "2002-09-10T23:08:25Z")]);
    e.name = "x".to_string();
    assert_eq!(DelayInfo::from_element(&e), None);
}

#[test]
fn version_and_ping_answers() {
    let h = StanzaHandler::new();
    match h.handle_version_request(jid("a@localhost/r"), "v1".to_string(), "linux".to_string()) {
        OutboundStanza::IqResult { id, to, version: Some(v) } => {
            assert_eq!(id, "v1");
            assert_eq!(to, jid("a@localhost/r"));
            assert_eq!(v.name, "XMPP Client");
            assert_eq!(v.version, "0.1.0");
            assert_eq!(v.os, "linux");
        }
        other => panic!("unexpected {:?}", other),
    }
    assert_eq!(
        h.handle_ping_request(jid("localhost"), "p1".to_string()),
        OutboundStanza::IqResult { id: "p1".to_string(), to: jid("localhost"), version: None }
    );
}

#[test]
fn muc_occupant_events() {
    let h = StanzaHandler::new();
    let items = vec![
        MucUserItem { nick: Some("juliet".to_string()), role: Some("participant".to_string()), affiliation: None, jid: Some(jid("j@capulet.lit/balcony")) },
        MucUserItem { nick: None, role: None, affiliation: None, jid: None },
        MucUserItem { nick: Some("romeo".to_string()), role: None, affiliation: None, jid: None },
    ];
    let evs = h.handle_muc_user_presence(Some(jid("room@chat.shakespeare.lit/juliet")), items.clone());
    assert_eq!(evs.len(), 2);
    assert_eq!(
        evs[0],
        XmppEvent::MucUserJoined {
            room_jid: jid("room@chat.shakespeare.lit"),
            nickname: "juliet".to_string(),
            jid: Some(jid("j@capulet.lit/balcony")),
        }
    );
    assert_eq!(evs[1], XmppEvent::MucUserLeft { room_jid: jid("room@chat.shakespeare.lit"), nickname: "romeo".to_string() });
    assert!(h.handle_muc_user_presence(None, items).is_empty());
}

fn msg() -> InboundMessage {
    InboundMessage {
        from: Some(jid("a@localhost/x")),
        to: Some(jid("b@localhost/y")),
        bodies: vec!["copy".to_string()],
        id: Some("c1".to_string()),
        message_type: MessageType::Chat,
        chat_states: vec![],
        delay: None,
    }
}

#[test]
fn carbons_and_delayed_messages() {
    let h = StanzaHandler::new();
    let now = Timestamp { unix_millis: 10 };
    match h.handle_carbons_message(msg(), CarbonType::Sent, now) {
        Some(XmppEvent::CarbonReceived { carbon_type, message }) => {
            assert_eq!(carbon_type, CarbonType::Sent);
            assert_eq!(message.body, "copy");
            assert_eq!(message.stanza_id, "c1");
            assert_eq!(message.timestamp, Some(now));
        }
        other => panic!("unexpected {:?}", other),
    }
    let mut m = msg();
    m.to = None;
    assert_eq!(h.handle_carbons_message(m, CarbonType::Received, now), None);

    let delay = DelayInfo { stamp: Timestamp { unix_millis: 99 }, from: None, reason: None };
    match h.handle_delayed_message(msg(), &delay) {
        Some(XmppEvent::MessageReceived { timestamp, body, .. }) => {
            assert_eq!(timestamp, Some(Timestamp { unix_millis: 99 }));
            assert_eq!(body, "copy");
        }
        other => panic!("unexpected {:?}", other),
    }
}
