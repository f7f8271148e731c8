use xmpp_client::client::{
    finish_command, initial_presence, report_failure, ChatStateCommand, ConnectionStatus, XmppClient, XmppClientConfig, XmppCommand,
};
use xmpp_client::error::XmppError;
use xmpp_client::events::{ChatState, RosterItem, Subscription, Timestamp, XmppEvent};
use xmpp_client::jid::Jid;
use xmpp_client::protocol::{
    Effect, InboundIq, InboundStanza, MessageType, OutboundStanza, PresenceShow, PresenceType, StoreCall,
};

const UUID: &str = "67e55044-10b1-426f-9247-bb680e5fe0c8";

fn test_config() -> XmppClientConfig {
    let mut c = XmppClientConfig::default();
    c.jid = "user@localhost".to_string();
    c.password = "secret".to_string();
    c.use_tls = false;
    c.accept_invalid_certs = true;
    c
}

fn jid(s: &str) -> Jid {
    Jid::new(s).unwrap()
}

fn connected_client() -> XmppClient {
    let mut client = XmppClient::new(test_config());
    client.handle_command(XmppCommand::Connect, UUID, Timestamp { unix_millis: 1 }).unwrap();
    client.on_transport_opened(Ok(()), Timestamp { unix_millis: 2 });
    client
}

fn events(effects: &[Effect]) -> Vec<XmppEvent> {
    effects
        .iter()
        .filter_map(|e| match e {
            Effect::Emit(ev) => Some(ev.clone()),
            _ => None,
        })
        .collect()
}

#[test]
fn connect_then_send_message_scenario() {
    let mut client = XmppClient::new(test_config());
    let mut all = Vec::new();
    let out = client.handle_command(XmppCommand::Connect, UUID, Timestamp { unix_millis: 1 }).unwrap();
    match &out[1] {
        Effect::OpenTransport(req) => {
            assert_eq!(req.jid.to_string(), "user@localhost/xmpp-client");
            assert!(!req.use_tls);
            assert!(req.accept_invalid_certs);
            assert_eq!(req.password, "secret");
            assert_eq!(req.host, "localhost");
            assert_eq!(req.port, 5222);
        }
        other => panic!("unexpected {:?}", other),
    }
    assert_eq!(client.get_state().connection_status, ConnectionStatus::Connecting);
    all.extend(out);
    all.extend(client.on_transport_opened(Ok(()), Timestamp { unix_millis: 5 }));
    assert_eq!(client.get_state().connection_status, ConnectionStatus::Connected);
    assert!(client.get_state().authenticated);
    assert_eq!(client.get_state().connected_at, Some(Timestamp { unix_millis: 5 }));
    let send = XmppCommand::SendMessage { to: jid("a@localhost"), body: "hi".to_string(), chat_state: None };
    all.extend(client.handle_command(send, UUID, Timestamp { unix_millis: 6 }).unwrap());

    let evs = events(&all);
    assert_eq!(evs.len(), 4);
    assert_eq!(evs[0], XmppEvent::Connecting);
    assert_eq!(evs[1], XmppEvent::Connected { jid: jid("user@localhost/xmpp-client") });
    assert_eq!(evs[2], XmppEvent::AuthenticationSuccess);
    match &evs[3] {
        XmppEvent::MessageSent { to, body, stanza_id } => {
            assert_eq!(to.to_string(), "a@localhost");
            assert_eq!(body, "hi");
            assert_eq!(stanza_id, &format!("msg_{}", UUID));
        }
        other => panic!("unexpected {:?}", other),
    }
    let stored: Vec<&StoreCall> = all
        .iter()
        .filter_map(|e| match e {
            Effect::Store(s) => Some(s),
            _ => None,
        })
        .collect();
    assert_eq!(stored.len(), 1);
    match stored[0] {
        StoreCall::SaveMessage { from, to, body, message_type, .. } => {
            assert_eq!(body, "hi");
            assert_eq!(message_type, "chat");
            assert_eq!(to.to_string(), "a@localhost");
            assert_eq!(from.to_string(), "user@localhost/xmpp-client");
        }
        other => panic!("unexpected {:?}", other),
    }
}

#[test]
fn send_message_stanza_carries_chat_state() {
    let mut client = connected_client();
    let cmd = XmppCommand::SendMessage {
        to: jid("a@localhost"),
        body: "typing".to_string(),
        chat_state: Some(ChatStateCommand::Composing),
    };
    let out = client.handle_command(cmd, UUID, Timestamp { unix_millis: 3 }).unwrap();
    assert_eq!(out.len(), 3);
    match &out[0] {
        Effect::Send(OutboundStanza::Message { message_type, chat_state, id, .. }) => {
            assert_eq!(*message_type, MessageType::Chat);
            assert_eq!(*chat_state, Some(ChatState::Composing));
            assert_eq!(id, &format!("msg_{}", UUID));
        }
        other => panic!("unexpected {:?}", other),
    }
}

#[test]
fn send_file_always_reports_unimplemented() {
    let mut client = XmppClient::new(test_config());
    let cmd = XmppCommand::SendFile { to: jid("a@localhost"), file_path: "/tmp/x".to_string() };
    let out = client.handle_command(cmd, UUID, Timestamp { unix_millis: 1 }).unwrap();
    assert_eq!(out.len(), 1);
    match &out[0] {
        Effect::Emit(XmppEvent::FileTransferError { error, .. }) => {
            assert_eq!(error, "File transfer not yet implemented");
        }
        other => panic!("unexpected {:?}", other),
    }

    let mut client = connected_client();
    let cmd = XmppCommand::SendFile { to: jid("b@localhost"), file_path: String::new() };
    let out = client.handle_command(cmd, UUID, Timestamp { unix_millis: 1 }).unwrap();
    assert_eq!(out.len(), 1);
    assert!(matches!(&out[0], Effect::Emit(XmppEvent::FileTransferError { .. })));
}

#[test]
fn connect_then_disconnect_resets_state() {
    let mut client = XmppClient::new(test_config());
    client.handle_command(XmppCommand::Connect, UUID, Timestamp { unix_millis: 1 }).unwrap();
    let out = client.handle_command(XmppCommand::Disconnect, UUID, Timestamp { unix_millis: 2 }).unwrap();
    assert_eq!(out.len(), 1);
    assert_eq!(out[0], Effect::Emit(XmppEvent::Disconnected { reason: "User requested disconnect".to_string() }));
    let s = client.get_state();
    assert_eq!(s.connection_status, ConnectionStatus::Disconnected);
    assert!(!s.authenticated);
    assert_eq!(s.connected_at, None);

    let mut client = connected_client();
    let out = client.handle_command(XmppCommand::Disconnect, UUID, Timestamp { unix_millis: 2 }).unwrap();
    assert_eq!(out.len(), 3);
    assert!(matches!(&out[0], Effect::Send(OutboundStanza::Presence { presence_type: PresenceType::Unavailable, .. })));
    assert_eq!(out[1], Effect::CloseTransport);
    let s = client.get_state();
    assert_eq!(s.connection_status, ConnectionStatus::Disconnected);
    assert!(!s.authenticated);
    assert_eq!(s.connected_at, None);
}

#[test]
fn commands_need_a_connection() {
    let mut client = XmppClient::new(test_config());
    let r = client.handle_command(XmppCommand::GetRoster, UUID, Timestamp { unix_millis: 1 });
    assert!(matches!(r, Err(XmppError::NotConnected)));
    let cmd = XmppCommand::SendMessage { to: jid("a@localhost"), body: "x".to_string(), chat_state: None };
    assert!(matches!(client.handle_command(cmd, UUID, Timestamp { unix_millis: 1 }), Err(XmppError::NotConnected)));
}

#[test]
fn connect_with_invalid_jid_reports_error() {
    let mut config = test_config();
    config.jid = "a@b@c".to_string();
    let mut client = XmppClient::new(config);
    let r = client.handle_command(XmppCommand::Connect, UUID, Timestamp { unix_millis: 1 });
    match r {
        Err(XmppError::InvalidJid(m)) => assert_eq!(m, "Invalid JID: second @ found before parsing the resource"),
        other => panic!("unexpected {:?}", other),
    }
    assert_eq!(client.get_state().connection_status, ConnectionStatus::Disconnected);
    assert!(client.session_jid.is_none());
}

#[test]
fn failed_write_stores_and_announces_nothing() {
    let mut client = connected_client();
    let cmd = XmppCommand::SendMessage { to: jid("a@localhost"), body: "hi".to_string(), chat_state: None };
    let out = client.handle_command(cmd, UUID, Timestamp { unix_millis: 3 }).unwrap();
    match finish_command(out, Err("broken pipe".to_string())) {
        Err(XmppError::ConnectionError(m)) => assert_eq!(m, "broken pipe"),
        other => panic!("unexpected {:?}", other),
    }

    let cmd = XmppCommand::SendMessage { to: jid("a@localhost"), body: "hi".to_string(), chat_state: None };
    let out = client.handle_command(cmd, UUID, Timestamp { unix_millis: 3 }).unwrap();
    let rest = finish_command(out, Ok(())).unwrap();
    assert_eq!(rest.len(), 2);
    assert!(matches!(&rest[0], Effect::Store(StoreCall::SaveMessage { .. })));
    assert!(matches!(&rest[1], Effect::Emit(XmppEvent::MessageSent { .. })));

    let events_only = vec![Effect::Emit(XmppEvent::Connecting)];
    assert_eq!(finish_command(events_only, Err("x".to_string())).unwrap(), vec![Effect::Emit(XmppEvent::Connecting)]);
}

#[test]
fn connect_while_connected_does_nothing() {
    let mut client = connected_client();
    let out = client.handle_command(XmppCommand::Connect, UUID, Timestamp { unix_millis: 9 }).unwrap();
    assert!(out.is_empty());
    assert_eq!(client.get_state().connection_status, ConnectionStatus::Connected);
}

#[test]
fn transport_failure_and_stream_close() {
    let mut client = XmppClient::new(test_config());
    client.handle_command(XmppCommand::Connect, UUID, Timestamp { unix_millis: 1 }).unwrap();
    let out = client.on_transport_failed("refused".to_string());
    assert_eq!(out, vec![Effect::Emit(XmppEvent::ConnectionError { error: "refused".to_string() })]);
    assert_eq!(client.get_state().connection_status, ConnectionStatus::Disconnected);

    let mut client = connected_client();
    let out = client.on_stream_error("reset");
    assert_eq!(out, vec![Effect::Emit(XmppEvent::Error { error: "Stream error: reset".to_string(), stanza: None })]);
    let out = client.on_stream_closed();
    assert_eq!(out, vec![Effect::Emit(XmppEvent::Disconnected { reason: "Stream closed".to_string() })]);
    assert_eq!(client.get_state().connection_status, ConnectionStatus::Disconnected);
}

#[test]
fn roster_and_subscription_commands() {
    let mut client = connected_client();
    let t = Timestamp { unix_millis: 3 };
    let out = client.handle_command(XmppCommand::GetRoster, UUID, t).unwrap();
    match &out[0] {
        Effect::Send(OutboundStanza::RosterGet { id, .. }) => assert_eq!(id, &format!("iq_{}", UUID)),
        other => panic!("unexpected {:?}", other),
    }
    let cmd = XmppCommand::AddRosterItem {
        jid: jid("c@localhost"),
        name: Some("C".to_string()),
        groups: vec!["Friends".to_string()],
    };
    let out = client.handle_command(cmd, UUID, t).unwrap();
    assert_eq!(out.len(), 2);
    match &out[1] {
        Effect::Store(StoreCall::AddRosterItem { user, contact, name, groups }) => {
            assert_eq!(user.to_string(), "user@localhost");
            assert_eq!(contact.to_string(), "c@localhost");
            assert_eq!(name.as_deref(), Some("C"));
            assert_eq!(groups, &vec!["Friends".to_string()]);
        }
        other => panic!("unexpected {:?}", other),
    }
    let out = client.handle_command(XmppCommand::RemoveRosterItem { jid: jid("c@localhost") }, UUID, t).unwrap();
    assert!(matches!(&out[0], Effect::Send(OutboundStanza::RosterSet { remove: true, .. })));
    let out = client.handle_command(XmppCommand::ApproveSubscription { jid: jid("d@localhost") }, UUID, t).unwrap();
    assert_eq!(out[1], Effect::Emit(XmppEvent::SubscriptionApproved { jid: jid("d@localhost") }));
    let out = client.handle_command(XmppCommand::DeclineSubscription { jid: jid("d@localhost") }, UUID, t).unwrap();
    assert_eq!(out[1], Effect::Emit(XmppEvent::SubscriptionDeclined { jid: jid("d@localhost") }));
    let cmd = XmppCommand::SendPresence { show: PresenceShow::Away, status: Some("brb".to_string()) };
    let out = client.handle_command(cmd, UUID, t).unwrap();
    assert_eq!(out[1], Effect::Emit(XmppEvent::PresenceSent { show: "away".to_string(), status: Some("brb".to_string()) }));
}

#[test]
fn muc_commands() {
    let mut client = connected_client();
    let t = Timestamp { unix_millis: 7 };
    let room = jid("room@conference.localhost");
    let cmd = XmppCommand::JoinMuc { room_jid: room.clone(), nickname: "nick".to_string(), password: Some("pw".to_string()) };
    let out = client.handle_command(cmd, UUID, t).unwrap();
    match &out[0] {
        Effect::Send(OutboundStanza::Presence { to: Some(to), muc: Some(m), .. }) => {
            assert_eq!(to.to_string(), "room@conference.localhost/nick");
            assert_eq!(m.password.as_deref(), Some("pw"));
        }
        other => panic!("unexpected {:?}", other),
    }
    assert_eq!(out[1], Effect::Emit(XmppEvent::MucJoined { room_jid: room.clone(), nickname: "nick".to_string() }));
    let cmd = XmppCommand::SendMucMessage { room_jid: room.clone(), body: "hello".to_string() };
    let out = client.handle_command(cmd, UUID, t).unwrap();
    match &out[1] {
        Effect::Emit(XmppEvent::MucMessageReceived { nickname, body, timestamp, .. }) => {
            assert_eq!(nickname, "me");
            assert_eq!(body, "hello");
            assert_eq!(*timestamp, Some(t));
        }
        other => panic!("unexpected {:?}", other),
    }
    let out = client.handle_command(XmppCommand::LeaveMuc { room_jid: room.clone() }, UUID, t).unwrap();
    assert_eq!(out[1], Effect::Emit(XmppEvent::MucLeft { room_jid: room }));
}

#[test]
fn process_command_builds_fresh_ids() {
    let mut client = connected_client();
    let out = client.process_command(XmppCommand::GetRoster).unwrap();
    match &out[0] {
        Effect::Send(OutboundStanza::RosterGet { id, .. }) => {
            assert!(id.starts_with("iq_"));
            assert_eq!(id.len(), 39);
        }
        other => panic!("unexpected {:?}", other),
    }
}

fn roster_entry(j: &str, sub: Subscription) -> RosterItem {
    RosterItem {
        jid: jid(j),
        name: None,
        subscription: sub,
        groups: vec![],
        approved: false,
        ask: None,
    }
}

#[test]
fn roster_results_and_commands_update_the_state() {
    let mut client = connected_client();
    let t = Timestamp { unix_millis: 4 };
    let iq = InboundIq {
        from: None,
        to: None,
        roster: Some(vec![roster_entry("a@localhost", Subscription::Both), roster_entry("b@localhost", Subscription::To)]),
    };
    let out = client.handle_stanza(InboundStanza::Iq(iq), t);
    assert_eq!(out.len(), 3);
    let names: Vec<String> = client.get_state().roster.iter().map(|i| i.jid.to_string()).collect();
    assert_eq!(names, vec!["a@localhost", "b@localhost"]);

    let push = InboundIq {
        from: None,
        to: None,
        roster: Some(vec![roster_entry("a@localhost", Subscription::Remove), roster_entry("b@localhost", Subscription::Both)]),
    };
    client.handle_stanza(InboundStanza::Iq(push), t);
    assert_eq!(client.get_state().roster.len(), 1);
    assert_eq!(client.get_state().roster[0].subscription, Subscription::Both);

    let cmd = XmppCommand::AddRosterItem { jid: jid("c@localhost"), name: Some("C".to_string()), groups: vec![] };
    client.handle_command(cmd, UUID, t).unwrap();
    assert_eq!(client.get_state().roster.len(), 2);
    assert_eq!(client.get_state().roster[1].subscription, Subscription::Neither);
    assert_eq!(client.get_state().roster[1].name.as_deref(), Some("C"));

    client.handle_command(XmppCommand::RemoveRosterItem { jid: jid("b@localhost") }, UUID, t).unwrap();
    let names: Vec<String> = client.get_state().roster.iter().map(|i| i.jid.to_string()).collect();
    assert_eq!(names, vec!["c@localhost"]);
}

#[test]
fn failed_initial_presence_ends_the_attempt() {
    assert!(matches!(
        initial_presence(),
        OutboundStanza::Presence { presence_type: PresenceType::Available, from: None, to: None, show: None, status: None, muc: None }
    ));
    let mut client = XmppClient::new(test_config());
    client.handle_command(XmppCommand::Connect, UUID, Timestamp { unix_millis: 1 }).unwrap();
    let out = client.on_transport_opened(Err("write failed".to_string()), Timestamp { unix_millis: 2 });
    assert_eq!(out, vec![Effect::Emit(XmppEvent::ConnectionError { error: "write failed".to_string() })]);
    let s = client.get_state();
    assert_eq!(s.connection_status, ConnectionStatus::Disconnected);
    assert!(!s.authenticated);
    assert_eq!(s.connected_at, None);
}

#[test]
fn failures_are_broadcast() {
    let out = report_failure(&XmppError::NotConnected, false);
    assert_eq!(out, vec![Effect::Emit(XmppEvent::Error { error: "Not connected".to_string(), stanza: None })]);
    let out = report_failure(&XmppError::InvalidJid("Invalid JID: x".to_string()), true);
    assert_eq!(out, vec![Effect::Emit(XmppEvent::ConnectionError { error: "Invalid JID: Invalid JID: x".to_string() })]);
}
