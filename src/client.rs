//! The client core: connection state machine and outgoing command processing.
//!
//! The core owns no transport. `handle_command` and the `on_transport_*`
//! notifications move the state machine and return the effects (stanzas to
//! write, store calls, events, opening or closing the transport) that the
//! caller carries out in order.
use vstd::prelude::*;

use crate::dispatch::{dispatch_stanza, is_emit, lemma_count_prefix, lemma_count_single, stanza_effects};
use crate::error::{XmppError, error_text};
use crate::events::{ChatState, RosterItem, RosterItemView, Subscription, Timestamp, XmppEvent};
use crate::jid::{Jid, JidError, JidView, clone_option_string, jid_parse_of, create_message_jid, jid_text, option_view, parts_view};
use crate::roster::{apply_roster_item, apply_roster_items, roster_apply, roster_apply_all, roster_view};
use crate::protocol::{
    count_effects, Effect, InboundStanza, MessageType, MucJoin, OutboundStanza, PresenceShow, PresenceType,
    StoreCall, TransportRequest, show_text,
};

verus! {

/// The standard client-to-server port.
pub const DEFAULT_PORT: u16 = 5222;

/// The resource this client binds by default.
pub const DEFAULT_RESOURCE: &'static str = "xmpp-client";

/// Connection parameters of one account.
#[derive(Debug)]
pub struct XmppClientConfig {
    pub jid: String,
    pub password: String,
    pub resource: String,
    pub server_host: String,
    pub server_port: u16,
    pub use_tls: bool,
    pub accept_invalid_certs: bool,
    pub auto_reconnect: bool,
    pub max_reconnect_attempts: u32,
    /// Seconds to wait between reconnection attempts.
    pub reconnect_delay_secs: u64,
}

impl Default for XmppClientConfig {
    fn default() -> (r: Self)
        ensures
            r.jid@ == Seq::<char>::empty(),
            r.password@ == Seq::<char>::empty(),
            r.resource@ == "xmpp-client"@,
            r.server_host@ == "localhost"@,
            r.server_port == 5222,
            r.use_tls,
            !r.accept_invalid_certs,
            r.auto_reconnect,
            r.max_reconnect_attempts == 5,
            r.reconnect_delay_secs == 10,
    {
        XmppClientConfig {
            jid: String::new(),
            password: String::new(),
            resource: String::from_str(DEFAULT_RESOURCE),
            server_host: String::from_str("localhost"),
            server_port: DEFAULT_PORT,
            use_tls: true,
            accept_invalid_certs: false,
            auto_reconnect: true,
            max_reconnect_attempts: 5,
            reconnect_delay_secs: 10,
        }
    }
}

#[derive(Debug, PartialEq, Eq)]
pub enum ConnectionStatus {
    Disconnected,
    Connecting,
    Connected,
    Reconnecting,
    Error(String),
}

/// The observable state of the client.
#[derive(Debug)]
pub struct XmppClientState {
    pub connection_status: ConnectionStatus,
    pub authenticated: bool,
    pub roster: Vec<RosterItem>,
    pub connected_at: Option<Timestamp>,
}

impl Default for XmppClientState {
    fn default() -> (r: Self)
        ensures
            r.connection_status is Disconnected,
            !r.authenticated,
            r.roster@.len() == 0,
            r.connected_at is None,
    {
        XmppClientState {
            connection_status: ConnectionStatus::Disconnected,
            authenticated: false,
            roster: Vec::new(),
            connected_at: None,
        }
    }
}

#[derive(Clone, Copy, Debug, PartialEq, Eq, Structural)]
pub enum ChatStateCommand {
    Active,
    Inactive,
    Gone,
    Composing,
    Paused,
}

pub open spec fn chat_state_of(c: ChatStateCommand) -> ChatState {
    match c {
        ChatStateCommand::Active => ChatState::Active,
        ChatStateCommand::Inactive => ChatState::Inactive,
        ChatStateCommand::Gone => ChatState::Gone,
        ChatStateCommand::Composing => ChatState::Composing,
        ChatStateCommand::Paused => ChatState::Paused,
    }
}

pub open spec fn chat_state_option(c: Option<ChatStateCommand>) -> Option<ChatState> {
    match c {
        Some(c) => Some(chat_state_of(c)),
        None => None,
    }
}

fn to_chat_state(c: Option<ChatStateCommand>) -> (r: Option<ChatState>)
    ensures
        r == chat_state_option(c),
{
    match c {
        Some(ChatStateCommand::Active) => Some(ChatState::Active),
        Some(ChatStateCommand::Inactive) => Some(ChatState::Inactive),
        Some(ChatStateCommand::Gone) => Some(ChatState::Gone),
        Some(ChatStateCommand::Composing) => Some(ChatState::Composing),
        Some(ChatStateCommand::Paused) => Some(ChatState::Paused),
        None => None,
    }
}

/// A request of a caller to the client.
#[derive(Debug)]
pub enum XmppCommand {
    Connect,
    Disconnect,
    SendMessage { to: Jid, body: String, chat_state: Option<ChatStateCommand> },
    SendPresence { show: PresenceShow, status: Option<String> },
    GetRoster,
    AddRosterItem { jid: Jid, name: Option<String>, groups: Vec<String> },
    RemoveRosterItem { jid: Jid },
    ApproveSubscription { jid: Jid },
    DeclineSubscription { jid: Jid },
    JoinMuc { room_jid: Jid, nickname: String, password: Option<String> },
    LeaveMuc { room_jid: Jid },
    SendMucMessage { room_jid: Jid, body: String },
    SendFile { to: Jid, file_path: String },
}

/// The client core of one account session.
#[derive(Debug)]
pub struct XmppClient {
    pub config: XmppClientConfig,
    pub state: XmppClientState,
    /// The full JID of the session, from the start of a connection attempt
    /// until disconnection.
    pub session_jid: Option<Jid>,
}

/// The full JID text of the configured account: `jid/resource`.
pub open spec fn account_jid_text(config: XmppClientConfig) -> Seq<char> {
    crate::jid::full_text(config.jid@, Some(config.resource@))
}

pub open spec fn message_id_text(uuid: Seq<char>) -> Seq<char> {
    "msg_"@ + uuid
}

pub open spec fn iq_id_text(uuid: Seq<char>) -> Seq<char> {
    "iq_"@ + uuid
}

/// A message stanza id built from a UUID.
pub fn message_id_from(uuid: &str) -> (r: String)
    ensures
        r@ == message_id_text(uuid@),
{
    String::from_str("msg_").concat(uuid)
}

/// An info-query stanza id built from a UUID.
pub fn iq_id_from(uuid: &str) -> (r: String)
    ensures
        r@ == iq_id_text(uuid@),
{
    String::from_str("iq_").concat(uuid)
}

impl XmppClient {
    /// The invariant of the client: authentication and a connection time
    /// only while connected, and a session JID while connecting or
    /// connected, which is the account's JID with the configured resource.
    pub open spec fn wf(&self) -> bool {
        &&& (self.state.authenticated ==> self.state.connection_status is Connected)
        &&& (self.state.connected_at is Some ==> self.state.connection_status is Connected)
        &&& (self.state.connection_status is Connected || self.state.connection_status is Connecting
            ==> self.session_jid is Some)
        &&& (self.session_jid matches Some(j) ==> crate::jid::jid_parse_of(account_jid_text(self.config)) == Ok::<JidView, JidError>(j@))
    }

    pub open spec fn is_connected(&self) -> bool {
        self.state.connection_status is Connected
    }

    /// A client for `config`, disconnected and unauthenticated.
    pub fn new(config: XmppClientConfig) -> (r: XmppClient)
        ensures
            r.wf(),
            r.config == config,
            r.state.connection_status is Disconnected,
            !r.state.authenticated,
            r.state.roster@.len() == 0,
            r.state.connected_at is None,
            r.session_jid is None,
    {
        XmppClient { config, state: XmppClientState::default(), session_jid: None }
    }

    pub fn get_state(&self) -> (r: &XmppClientState)
        ensures
            r == &self.state,
    {
        &self.state
    }

    pub fn connected(&self) -> (r: bool)
        ensures
            r == self.is_connected(),
    {
        match self.state.connection_status {
            ConnectionStatus::Connected => true,
            _ => false,
        }
    }
}


/// The effects and result of a command that needs an open transport, for
/// the session JID `b`.
pub open spec fn session_command_outcome(
    b: Jid,
    cmd: XmppCommand,
    uuid: Seq<char>,
    now: Timestamp,
    r: Result<Vec<Effect>, XmppError>,
) -> bool {
    match cmd {
        XmppCommand::SendMessage { to, body, chat_state } => r matches Ok(out) && out@.len() == 3
            && (out@[0] matches Effect::Send(OutboundStanza::Message { from, to: t, id, body: bd, message_type, chat_state: cs })
                && from == b && t == to && id@ == message_id_text(uuid) && bd == body
                && message_type == MessageType::Chat && cs == chat_state_option(chat_state))
            && (out@[1] matches Effect::Store(StoreCall::SaveMessage { from, to: t, body: bd, message_type, stanza_id })
                && from == b && t == to && bd == body && message_type@ == "chat"@ && stanza_id@ == message_id_text(uuid))
            && (out@[2] matches Effect::Emit(XmppEvent::MessageSent { to: t, body: bd, stanza_id })
                && t == to && bd == body && stanza_id@ == message_id_text(uuid)),
        XmppCommand::SendPresence { show, status } => r matches Ok(out) && out@.len() == 2
            && (out@[0] matches Effect::Send(OutboundStanza::Presence { presence_type, from, to, show: sh, status: st, muc })
                && presence_type == PresenceType::Available && from is None && to is None && sh == Some(show)
                && st == status && muc is None)
            && (out@[1] matches Effect::Emit(XmppEvent::PresenceSent { show: sh, status: st })
                && sh@ == show_text(show) && st == status),
        XmppCommand::GetRoster => r matches Ok(out) && out@.len() == 1
            && (out@[0] matches Effect::Send(OutboundStanza::RosterGet { id, from })
                && id@ == iq_id_text(uuid) && from == b),
        XmppCommand::AddRosterItem { jid, name, groups } => r matches Ok(out) && out@.len() == 2
            && (out@[0] matches Effect::Send(OutboundStanza::RosterSet { id, from, jid: j, name: n, groups: g, remove })
                && id@ == iq_id_text(uuid) && from == b && j == jid && n == name && g@ == groups@ && !remove)
            && (out@[1] matches Effect::Store(StoreCall::AddRosterItem { user, contact, name: n, groups: g })
                && user@ == parts_view(b@.node, b@.domain, None) && contact == jid && n == name && g@ == groups@),
        XmppCommand::RemoveRosterItem { jid } => r matches Ok(out) && out@.len() == 1
            && (out@[0] matches Effect::Send(OutboundStanza::RosterSet { id, from, jid: j, name, groups, remove })
                && id@ == iq_id_text(uuid) && from == b && j == jid && name is None && groups@.len() == 0 && remove),
        XmppCommand::ApproveSubscription { jid } => r matches Ok(out) && out@.len() == 2
            && (out@[0] matches Effect::Send(OutboundStanza::Presence { presence_type, from, to, show, status, muc })
                && presence_type == PresenceType::Subscribed && from == Some(b) && to == Some(jid)
                && show is None && status is None && muc is None)
            && (out@[1] matches Effect::Emit(XmppEvent::SubscriptionApproved { jid: j }) && j == jid),
        XmppCommand::DeclineSubscription { jid } => r matches Ok(out) && out@.len() == 2
            && (out@[0] matches Effect::Send(OutboundStanza::Presence { presence_type, from, to, show, status, muc })
                && presence_type == PresenceType::Unsubscribed && from == Some(b) && to == Some(jid)
                && show is None && status is None && muc is None)
            && (out@[1] matches Effect::Emit(XmppEvent::SubscriptionDeclined { jid: j }) && j == jid),
        XmppCommand::JoinMuc { room_jid, nickname, password } => {
            match crate::jid::jid_parse_of(crate::jid::full_text(jid_text(room_jid@), Some(nickname@))) {
                Err(e) => r matches Err(XmppError::InvalidJid(m))
                    && m@ == "Invalid JID: "@ + crate::jid::jid_error_text(e),
                Ok(v) => r matches Ok(out) && out@.len() == 2
                    && (out@[0] matches Effect::Send(OutboundStanza::Presence { presence_type, from, to, show, status, muc })
                        && presence_type == PresenceType::Available && from == Some(b)
                        && (to matches Some(f) && f@ == v) && show is None && status is None
                        && muc == Some(MucJoin { password }))
                    && (out@[1] matches Effect::Emit(XmppEvent::MucJoined { room_jid: rj, nickname: nk })
                        && rj == room_jid && nk == nickname),
            }
        },
        XmppCommand::LeaveMuc { room_jid } => r matches Ok(out) && out@.len() == 2
            && (out@[0] matches Effect::Send(OutboundStanza::Presence { presence_type, from, to, show, status, muc })
                && presence_type == PresenceType::Unavailable && from == Some(b) && to == Some(room_jid)
                && show is None && status is None && muc is None)
            && (out@[1] matches Effect::Emit(XmppEvent::MucLeft { room_jid: rj }) && rj == room_jid),
        XmppCommand::SendMucMessage { room_jid, body } => r matches Ok(out) && out@.len() == 2
            && (out@[0] matches Effect::Send(OutboundStanza::Message { from, to, id, body: bd, message_type, chat_state })
                && from == b && to == room_jid && id@ == message_id_text(uuid) && bd == body
                && message_type == MessageType::Groupchat && chat_state is None)
            && (out@[1] matches Effect::Emit(XmppEvent::MucMessageReceived { room_jid: rj, from, nickname, body: bd, timestamp })
                && rj == room_jid && from == b && nickname@ == "me"@ && bd == body && timestamp == Some(now)),
        _ => true,
    }
}

/// The state after a disconnection: disconnected, unauthenticated, no
/// connection time and no session; configuration and roster kept.
pub open spec fn reset_state(c0: XmppClient, c1: XmppClient) -> bool {
    &&& c1.config == c0.config
    &&& c1.state.connection_status is Disconnected
    &&& !c1.state.authenticated
    &&& c1.state.connected_at is None
    &&& c1.state.roster == c0.state.roster
    &&& c1.session_jid is None
}

pub open spec fn connect_outcome(c0: XmppClient, c1: XmppClient, r: Result<Vec<Effect>, XmppError>) -> bool {
    if c0.state.connection_status is Connected || c0.state.connection_status is Connecting {
        c1 == c0 && (r matches Ok(out) && out@.len() == 0)
    } else {
        match crate::jid::jid_parse_of(account_jid_text(c0.config)) {
            Ok(v) => {
                &&& c1.config == c0.config
                &&& c1.state.connection_status is Connecting
                &&& !c1.state.authenticated
                &&& c1.state.connected_at is None
                &&& c1.state.roster == c0.state.roster
                &&& c1.session_jid matches Some(j) && j@ == v
                &&& r matches Ok(out) && out@.len() == 2
                    && (out@[0] matches Effect::Emit(XmppEvent::Connecting))
                    && (out@[1] matches Effect::OpenTransport(req) && req.jid@ == v
                        && req.password == c0.config.password && req.host == c0.config.server_host
                        && req.port == c0.config.server_port && req.use_tls == c0.config.use_tls
                        && req.accept_invalid_certs == c0.config.accept_invalid_certs)
            },
            Err(e) => c1 == c0 && (r matches Err(XmppError::InvalidJid(m)) && m@ == "Invalid JID: "@ + crate::jid::jid_error_text(e)),
        }
    }
}

pub open spec fn disconnect_outcome(c0: XmppClient, c1: XmppClient, r: Result<Vec<Effect>, XmppError>) -> bool {
    &&& reset_state(c0, c1)
    &&& r matches Ok(out) && if c0.is_connected() {
        out@.len() == 3
            && (out@[0] matches Effect::Send(OutboundStanza::Presence { presence_type, from, to, show, status, muc })
                && presence_type == PresenceType::Unavailable && from is None && to is None
                && show is None && status is None && muc is None)
            && out@[1] is CloseTransport
            && (out@[2] matches Effect::Emit(XmppEvent::Disconnected { reason })
                && reason@ == "User requested disconnect"@)
    } else {
        out@.len() == 1
            && (out@[0] matches Effect::Emit(XmppEvent::Disconnected { reason })
                && reason@ == "User requested disconnect"@)
    }
}

/// The roster change a local roster command makes: an added contact has no
/// subscription yet; a removed contact leaves the roster.
pub open spec fn local_roster_item(cmd: XmppCommand) -> Option<RosterItemView> {
    match cmd {
        XmppCommand::AddRosterItem { jid, name, groups } => Some(RosterItemView {
            jid: jid@,
            name: option_view(name),
            subscription: Subscription::Neither,
            groups: groups@.map_values(|g: String| g@),
            approved: false,
            ask: None,
        }),
        XmppCommand::RemoveRosterItem { jid } => Some(RosterItemView {
            jid: jid@,
            name: None,
            subscription: Subscription::Remove,
            groups: Seq::empty(),
            approved: false,
            ask: None,
        }),
        _ => None,
    }
}

/// Two clients that differ at most in their roster.
pub open spec fn same_but_roster(c0: XmppClient, c1: XmppClient) -> bool {
    &&& c1.config == c0.config
    &&& c1.session_jid == c0.session_jid
    &&& c1.state.connection_status == c0.state.connection_status
    &&& c1.state.authenticated == c0.state.authenticated
    &&& c1.state.connected_at == c0.state.connected_at
}

/// What a command does to the client and what it returns, given the UUID
/// that its stanza id is built from and the time it is handled.
pub open spec fn command_outcome(
    c0: XmppClient,
    cmd: XmppCommand,
    uuid: Seq<char>,
    now: Timestamp,
    c1: XmppClient,
    r: Result<Vec<Effect>, XmppError>,
) -> bool {
    match cmd {
        XmppCommand::Connect => connect_outcome(c0, c1, r),
        XmppCommand::Disconnect => disconnect_outcome(c0, c1, r),
        XmppCommand::SendFile { .. } => c1 == c0 && (r matches Ok(out) && out@.len() == 1
            && (out@[0] matches Effect::Emit(XmppEvent::FileTransferError { transfer_id, error })
                && transfer_id@ == message_id_text(uuid) && error@ == "File transfer not yet implemented"@)),
        _ => if !c0.is_connected() {
            c1 == c0 && r matches Err(XmppError::NotConnected)
        } else {
            &&& session_command_outcome(c0.session_jid->0, cmd, uuid, now, r)
            &&& match local_roster_item(cmd) {
                None => c1 == c0,
                Some(item) => same_but_roster(c0, c1)
                    && roster_view(c1.state.roster@) == roster_apply(roster_view(c0.state.roster@), item),
            }
        },
    }
}


fn presence_stanza(presence_type: PresenceType, from: Option<Jid>, to: Option<Jid>) -> (r: Effect)
    ensures
        r matches Effect::Send(OutboundStanza::Presence { presence_type: t, from: f, to: o, show, status, muc })
            && t == presence_type && f == from && o == to && show is None && status is None && muc is None,
{
    Effect::Send(OutboundStanza::Presence { presence_type, from, to, show: None, status: None, muc: None })
}

impl XmppClient {
    fn reset(&mut self)
        ensures
            reset_state(*old(self), *final(self)),
            final(self).wf(),
    {
        self.state.connection_status = ConnectionStatus::Disconnected;
        self.state.authenticated = false;
        self.state.connected_at = None;
        self.session_jid = None;
    }

    /// Starts a connection attempt, unless one is running or done.
    pub fn connect(&mut self) -> (r: Result<Vec<Effect>, XmppError>)
        requires
            old(self).wf(),
        ensures
            final(self).wf(),
            connect_outcome(*old(self), *final(self), r),
    {
        let mut out: Vec<Effect> = Vec::new();
        match self.state.connection_status {
            ConnectionStatus::Connected | ConnectionStatus::Connecting => {
                return Ok(out);
            },
            _ => {},
        }
        match create_message_jid(self.config.jid.as_str(), Some(self.config.resource.as_str())) {
            Ok(j) => {
                self.state.connection_status = ConnectionStatus::Connecting;
                self.state.authenticated = false;
                self.state.connected_at = None;
                self.session_jid = Some(j.clone());
                out.push(Effect::Emit(XmppEvent::Connecting));
                out.push(Effect::OpenTransport(TransportRequest {
                    jid: j,
                    password: self.config.password.clone(),
                    host: self.config.server_host.clone(),
                    port: self.config.server_port,
                    use_tls: self.config.use_tls,
                    accept_invalid_certs: self.config.accept_invalid_certs,
                }));
                Ok(out)
            },
            Err(e) => Err(e),
        }
    }

    /// Ends the session, announcing unavailability where connected.
    pub fn disconnect(&mut self) -> (r: Result<Vec<Effect>, XmppError>)
        requires
            old(self).wf(),
        ensures
            final(self).wf(),
            disconnect_outcome(*old(self), *final(self), r),
    {
        let mut out: Vec<Effect> = Vec::new();
        if self.connected() {
            out.push(presence_stanza(PresenceType::Unavailable, None, None));
            out.push(Effect::CloseTransport);
        }
        self.reset();
        out.push(Effect::Emit(XmppEvent::Disconnected { reason: String::from_str("User requested disconnect") }));
        Ok(out)
    }

    fn session_command(b: Jid, cmd: XmppCommand, uuid: &str, now: Timestamp) -> (r: Result<Vec<Effect>, XmppError>)
        ensures
            session_command_outcome(b, cmd, uuid@, now, r),
    {
        let mut out: Vec<Effect> = Vec::new();
        match cmd {
            XmppCommand::SendMessage { to, body, chat_state } => {
                let id = message_id_from(uuid);
                out.push(Effect::Send(OutboundStanza::Message {
                    from: b.clone(),
                    to: to.clone(),
                    id: id.clone(),
                    body: body.clone(),
                    message_type: MessageType::Chat,
                    chat_state: to_chat_state(chat_state),
                }));
                out.push(Effect::Store(StoreCall::SaveMessage {
                    from: b,
                    to: to.clone(),
                    body: body.clone(),
                    message_type: String::from_str("chat"),
                    stanza_id: id.clone(),
                }));
                out.push(Effect::Emit(XmppEvent::MessageSent { to, body, stanza_id: id }));
            },
            XmppCommand::SendPresence { show, status } => {
                out.push(Effect::Send(OutboundStanza::Presence {
                    presence_type: PresenceType::Available,
                    from: None,
                    to: None,
                    show: Some(show),
                    status: crate::jid::clone_option_string(&status),
                    muc: None,
                }));
                out.push(Effect::Emit(XmppEvent::PresenceSent { show: String::from_str(show.as_str()), status }));
            },
            XmppCommand::GetRoster => {
                out.push(Effect::Send(OutboundStanza::RosterGet { id: iq_id_from(uuid), from: b }));
            },
            XmppCommand::AddRosterItem { jid, name, groups } => {
                out.push(Effect::Send(OutboundStanza::RosterSet {
                    id: iq_id_from(uuid),
                    from: b.clone(),
                    jid: jid.clone(),
                    name: crate::jid::clone_option_string(&name),
                    groups: crate::events::clone_strings(&groups),
                    remove: false,
                }));
                out.push(Effect::Store(StoreCall::AddRosterItem { user: b.to_bare(), contact: jid, name, groups }));
            },
            XmppCommand::RemoveRosterItem { jid } => {
                out.push(Effect::Send(OutboundStanza::RosterSet {
                    id: iq_id_from(uuid),
                    from: b,
                    jid,
                    name: None,
                    groups: Vec::new(),
                    remove: true,
                }));
            },
            XmppCommand::ApproveSubscription { jid } => {
                out.push(presence_stanza(PresenceType::Subscribed, Some(b), Some(jid.clone())));
                out.push(Effect::Emit(XmppEvent::SubscriptionApproved { jid }));
            },
            XmppCommand::DeclineSubscription { jid } => {
                out.push(presence_stanza(PresenceType::Unsubscribed, Some(b), Some(jid.clone())));
                out.push(Effect::Emit(XmppEvent::SubscriptionDeclined { jid }));
            },
            XmppCommand::JoinMuc { room_jid, nickname, password } => {
                let room_text = room_jid.to_string();
                let full = create_message_jid(room_text.as_str(), Some(nickname.as_str()))?;
                out.push(Effect::Send(OutboundStanza::Presence {
                    presence_type: PresenceType::Available,
                    from: Some(b),
                    to: Some(full),
                    show: None,
                    status: None,
                    muc: Some(MucJoin { password }),
                }));
                out.push(Effect::Emit(XmppEvent::MucJoined { room_jid, nickname }));
            },
            XmppCommand::LeaveMuc { room_jid } => {
                out.push(presence_stanza(PresenceType::Unavailable, Some(b), Some(room_jid.clone())));
                out.push(Effect::Emit(XmppEvent::MucLeft { room_jid }));
            },
            XmppCommand::SendMucMessage { room_jid, body } => {
                out.push(Effect::Send(OutboundStanza::Message {
                    from: b.clone(),
                    to: room_jid.clone(),
                    id: message_id_from(uuid),
                    body: body.clone(),
                    message_type: MessageType::Groupchat,
                    chat_state: None,
                }));
                out.push(Effect::Emit(XmppEvent::MucMessageReceived {
                    room_jid,
                    from: b,
                    nickname: String::from_str("me"),
                    body,
                    timestamp: Some(now),
                }));
            },
            _ => {},
        }
        Ok(out)
    }

    /// Handles one command; `uuid` is the fresh UUID that a stanza id is
    /// built from and `now` the time of handling.
    pub fn handle_command(&mut self, cmd: XmppCommand, uuid: &str, now: Timestamp) -> (r: Result<Vec<Effect>, XmppError>)
        requires
            old(self).wf(),
        ensures
            final(self).wf(),
            command_outcome(*old(self), cmd, uuid@, now, *final(self), r),
    {
        match cmd {
            XmppCommand::Connect => self.connect(),
            XmppCommand::Disconnect => self.disconnect(),
            XmppCommand::SendFile { .. } => {
                let mut out: Vec<Effect> = Vec::new();
                out.push(Effect::Emit(XmppEvent::FileTransferError {
                    transfer_id: message_id_from(uuid),
                    error: String::from_str("File transfer not yet implemented"),
                }));
                Ok(out)
            },
            _ => {
                if !self.connected() {
                    return Err(XmppError::NotConnected);
                }
                let b = match &self.session_jid {
                    Some(b) => b.clone(),
                    None => {
                        return Err(XmppError::NotConnected);
                    },
                };
                let local = match &cmd {
                    XmppCommand::AddRosterItem { jid, name, groups } => Some(RosterItem {
                        jid: jid.clone(),
                        name: clone_option_string(name),
                        subscription: Subscription::Neither,
                        groups: crate::events::clone_strings(groups),
                        approved: false,
                        ask: None,
                    }),
                    XmppCommand::RemoveRosterItem { jid } => Some(RosterItem {
                        jid: jid.clone(),
                        name: None,
                        subscription: Subscription::Remove,
                        groups: Vec::new(),
                        approved: false,
                        ask: None,
                    }),
                    _ => None,
                };
                let r = Self::session_command(b, cmd, uuid, now);
                match local {
                    Some(item) => {
                        proof {
                            assert(item@.groups =~= local_roster_item(cmd)->0.groups);
                        }
                        apply_roster_item(&mut self.state.roster, item);
                    },
                    None => {},
                }
                r
            },
        }
    }
}


/// What the opening of the transport at `now` does to the client and the
/// effects it gives.
pub open spec fn transport_opened_outcome(
    c0: XmppClient,
    write: Result<(), String>,
    now: Timestamp,
    c1: XmppClient,
    out: Seq<Effect>,
) -> bool {
    if c0.state.connection_status is Connecting {
        match write {
            Ok(_) => {
                &&& c1.config == c0.config
                &&& c1.session_jid == c0.session_jid
                &&& c1.state.roster == c0.state.roster
                &&& c1.state.connection_status is Connected
                &&& c1.state.authenticated
                &&& c1.state.connected_at == Some(now)
                &&& out.len() == 2
                &&& (out[0] matches Effect::Emit(XmppEvent::Connected { jid }) && Some(jid) == c0.session_jid)
                &&& (out[1] matches Effect::Emit(XmppEvent::AuthenticationSuccess))
            },
            Err(e) => {
                &&& reset_state(c0, c1)
                &&& out.len() == 1
                &&& (out[0] matches Effect::Emit(XmppEvent::ConnectionError { error }) && error == e)
            },
        }
    } else {
        c1 == c0 && out.len() == 0
    }
}

/// What an inbound stanza does to the client: during a session a roster
/// payload is applied to the roster item by item; nothing else changes.
pub open spec fn stanza_state_outcome(c0: XmppClient, stanza: InboundStanza, c1: XmppClient) -> bool {
    if c0.session_jid is Some && (stanza matches InboundStanza::Iq(iq) && iq.roster is Some) {
        &&& same_but_roster(c0, c1)
        &&& roster_view(c1.state.roster@) == roster_apply_all(
            roster_view(c0.state.roster@),
            roster_view(stanza->Iq_0.roster->0@),
        )
    } else {
        c1 == c0
    }
}

/// What follows a command's effects once the transport has tried to write
/// the stanza that opens them: on success the remaining effects; on failure
/// a connection error carrying the transport's message, with nothing stored
/// or announced. Effects that do not open with a stanza are all kept.
pub open spec fn write_outcome(out: Seq<Effect>, write: Result<(), String>, r: Result<Vec<Effect>, XmppError>) -> bool {
    if out.len() > 0 && out[0] is Send {
        match write {
            Ok(_) => r matches Ok(rest) && rest@ == out.drop_first(),
            Err(e) => r matches Err(XmppError::ConnectionError(m)) && m == e,
        }
    } else {
        r matches Ok(rest) && rest@ == out
    }
}

/// Decides what remains of a command's effects after the transport's
/// attempt `write` to send the stanza they open with.
pub fn finish_command(out: Vec<Effect>, write: Result<(), String>) -> (r: Result<Vec<Effect>, XmppError>)
    ensures
        write_outcome(out@, write, r),
{
    let mut out = out;
    let opens_with_send = out.len() > 0 && match &out[0] {
        Effect::Send(_) => true,
        _ => false,
    };
    if !opens_with_send {
        return Ok(out);
    }
    match write {
        Ok(()) => {
            out.remove(0);
            Ok(out)
        },
        Err(e) => Err(XmppError::ConnectionError(e)),
    }
}

/// The presence announced once the transport is open: available, with no
/// addresses, show or status.
pub fn initial_presence() -> (r: OutboundStanza)
    ensures
        r matches OutboundStanza::Presence { presence_type, from, to, show, status, muc }
            && presence_type == PresenceType::Available && from is None && to is None
            && show is None && status is None && muc is None,
{
    OutboundStanza::Presence { presence_type: PresenceType::Available, from: None, to: None, show: None, status: None, muc: None }
}

/// The event that reports a failed command: a connection error for a
/// connection attempt, otherwise a general error; either carries the
/// error's message.
pub open spec fn failure_event(e: XmppError, connecting: bool, ev: XmppEvent) -> bool {
    if connecting {
        ev matches XmppEvent::ConnectionError { error } && error@ == error_text(e)
    } else {
        ev matches XmppEvent::Error { error, stanza } && error@ == error_text(e) && stanza is None
    }
}

/// The effects that broadcast a failed command: exactly one error event.
pub fn report_failure(e: &XmppError, connecting: bool) -> (out: Vec<Effect>)
    ensures
        out@.len() == 1,
        out@[0] matches Effect::Emit(ev) && failure_event(*e, connecting, ev),
{
    let mut out: Vec<Effect> = Vec::new();
    if connecting {
        out.push(Effect::Emit(XmppEvent::ConnectionError { error: e.to_string() }));
    } else {
        out.push(Effect::Emit(XmppEvent::Error { error: e.to_string(), stanza: None }));
    }
    out
}

/// Relies on `uuid::Uuid::new_v4` and its hyphenated text form, which is 36
/// characters long.
#[verifier::external_body]
fn new_uuid() -> (r: String)
    ensures
        r@.len() == 36,
{
    uuid::Uuid::new_v4().to_string()
}

/// A fresh message stanza id: `msg_` and a random UUID.
pub fn generate_message_id() -> (r: String)
    ensures
        exists|u: Seq<char>| u.len() == 36 && r@ == message_id_text(u),
{
    let u = new_uuid();
    message_id_from(u.as_str())
}

/// A fresh info-query stanza id: `iq_` and a random UUID.
pub fn generate_iq_id() -> (r: String)
    ensures
        exists|u: Seq<char>| u.len() == 36 && r@ == iq_id_text(u),
{
    let u = new_uuid();
    iq_id_from(u.as_str())
}

/// Relies on `chrono::Utc::now`: the current time in milliseconds since the
/// Unix epoch.
#[verifier::external_body]
fn now() -> (r: Timestamp) {
    Timestamp { unix_millis: chrono::Utc::now().timestamp_millis() }
}

impl XmppClient {
    /// The transport opened and authenticated, and `write` is the outcome of
    /// writing the initial presence (`initial_presence`). Where it was
    /// written the client becomes connected and says so; where it failed the
    /// attempt ends disconnected with a connection error. Outside a
    /// connection attempt nothing happens.
    pub fn on_transport_opened(&mut self, write: Result<(), String>, now: Timestamp) -> (out: Vec<Effect>)
        requires
            old(self).wf(),
        ensures
            final(self).wf(),
            transport_opened_outcome(*old(self), write, now, *final(self), out@),
    {
        let mut out: Vec<Effect> = Vec::new();
        match self.state.connection_status {
            ConnectionStatus::Connecting => {},
            _ => {
                return out;
            },
        }
        let jid = match &self.session_jid {
            Some(j) => j.clone(),
            None => {
                return out;
            },
        };
        match write {
            Ok(()) => {
                self.state.connection_status = ConnectionStatus::Connected;
                self.state.authenticated = true;
                self.state.connected_at = Some(now);
                out.push(Effect::Emit(XmppEvent::Connected { jid }));
                out.push(Effect::Emit(XmppEvent::AuthenticationSuccess));
            },
            Err(e) => {
                self.reset();
                out.push(Effect::Emit(XmppEvent::ConnectionError { error: e }));
            },
        }
        out
    }

    /// Opening or authenticating the transport failed: the attempt ends
    /// disconnected and the error is reported. Outside a connection attempt
    /// nothing happens.
    pub fn on_transport_failed(&mut self, error: String) -> (out: Vec<Effect>)
        requires
            old(self).wf(),
        ensures
            final(self).wf(),
            old(self).state.connection_status is Connecting ==> reset_state(*old(self), *final(self))
                && out@.len() == 1
                && (out@[0] matches Effect::Emit(XmppEvent::ConnectionError { error: e }) && e == error),
            !(old(self).state.connection_status is Connecting) ==> *final(self) == *old(self) && out@.len() == 0,
    {
        let mut out: Vec<Effect> = Vec::new();
        match self.state.connection_status {
            ConnectionStatus::Connecting => {},
            _ => {
                return out;
            },
        }
        self.reset();
        out.push(Effect::Emit(XmppEvent::ConnectionError { error }));
        out
    }

    /// The inbound stream reported an error; the stream goes on.
    pub fn on_stream_error(&self, error: &str) -> (out: Vec<Effect>)
        ensures
            out@.len() == 1,
            out@[0] matches Effect::Emit(XmppEvent::Error { error: e, stanza })
                && e@ == "Stream error: "@ + error@ && stanza is None,
    {
        let mut out: Vec<Effect> = Vec::new();
        out.push(Effect::Emit(XmppEvent::Error {
            error: String::from_str("Stream error: ").concat(error),
            stanza: None,
        }));
        out
    }

    /// The inbound stream ended: a connected client becomes disconnected and
    /// says so. Otherwise nothing happens.
    pub fn on_stream_closed(&mut self) -> (out: Vec<Effect>)
        requires
            old(self).wf(),
        ensures
            final(self).wf(),
            old(self).is_connected() ==> reset_state(*old(self), *final(self))
                && out@.len() == 1
                && (out@[0] matches Effect::Emit(XmppEvent::Disconnected { reason }) && reason@ == "Stream closed"@),
            !old(self).is_connected() ==> *final(self) == *old(self) && out@.len() == 0,
    {
        let mut out: Vec<Effect> = Vec::new();
        if !self.connected() {
            return out;
        }
        self.reset();
        out.push(Effect::Emit(XmppEvent::Disconnected { reason: String::from_str("Stream closed") }));
        out
    }

    /// Dispatches one inbound stanza of the session at time `now`; a roster
    /// payload also updates the roster. Without a session nothing arrives,
    /// and nothing happens.
    pub fn handle_stanza(&mut self, stanza: InboundStanza, now: Timestamp) -> (out: Vec<Effect>)
        requires
            old(self).wf(),
        ensures
            final(self).wf(),
            stanza_state_outcome(*old(self), stanza, *final(self)),
            old(self).session_jid matches Some(b) ==> stanza_effects(stanza, b, now, out@),
            old(self).session_jid is None ==> out@.len() == 0,
    {
        let b = match &self.session_jid {
            Some(b) => b.clone(),
            None => {
                return Vec::new();
            },
        };
        match &stanza {
            InboundStanza::Iq(iq) => match &iq.roster {
                Some(items) => {
                    apply_roster_items(&mut self.state.roster, items);
                },
                None => {},
            },
            _ => {},
        }
        dispatch_stanza(stanza, &b, now)
    }

    /// Handles one command with a fresh UUID and the current time.
    pub fn process_command(&mut self, cmd: XmppCommand) -> (r: Result<Vec<Effect>, XmppError>)
        requires
            old(self).wf(),
        ensures
            final(self).wf(),
            exists|uuid: Seq<char>, t: Timestamp| uuid.len() == 36 && command_outcome(*old(self), cmd, uuid, t, *final(self), r),
    {
        let uuid = new_uuid();
        let t = now();
        self.handle_command(cmd, uuid.as_str(), t)
    }

    /// Dispatches one inbound stanza at the current time.
    pub fn process_stanza(&mut self, stanza: InboundStanza) -> (out: Vec<Effect>)
        requires
            old(self).wf(),
        ensures
            final(self).wf(),
            stanza_state_outcome(*old(self), stanza, *final(self)),
            old(self).session_jid matches Some(b) ==> exists|t: Timestamp| stanza_effects(stanza, b, t, out@),
            old(self).session_jid is None ==> out@.len() == 0,
    {
        let t = now();
        self.handle_stanza(stanza, t)
    }

    /// The transport opened and authenticated, at the current time.
    pub fn transport_opened(&mut self, write: Result<(), String>) -> (out: Vec<Effect>)
        requires
            old(self).wf(),
        ensures
            final(self).wf(),
            exists|t: Timestamp| transport_opened_outcome(*old(self), write, t, *final(self), out@),
    {
        let t = now();
        self.on_transport_opened(write, t)
    }
}


pub open spec fn is_store_call(e: Effect) -> bool {
    e is Store
}

pub open spec fn is_message_sent(e: Effect) -> bool {
    e matches Effect::Emit(XmppEvent::MessageSent { .. })
}

/// A connect command followed at once by a disconnect command leaves the
/// client disconnected, unauthenticated and without a connection time,
/// whatever the connect command did and emitted.
pub proof fn lemma_connect_then_disconnect(
    c0: XmppClient,
    c1: XmppClient,
    c2: XmppClient,
    u1: Seq<char>,
    u2: Seq<char>,
    t1: Timestamp,
    t2: Timestamp,
    r1: Result<Vec<Effect>, XmppError>,
    r2: Result<Vec<Effect>, XmppError>,
)
    requires
        command_outcome(c0, XmppCommand::Connect, u1, t1, c1, r1),
        command_outcome(c1, XmppCommand::Disconnect, u2, t2, c2, r2),
    ensures
        c2.state.connection_status is Disconnected,
        !c2.state.authenticated,
        c2.state.connected_at is None,
        c2.session_jid is None,
{
}

/// A message sent while connected gives exactly one sent-message event and
/// exactly one store call, both with the message's recipient and body.
pub proof fn lemma_send_message_counts(
    c0: XmppClient,
    c1: XmppClient,
    to: Jid,
    body: String,
    chat_state: Option<ChatStateCommand>,
    uuid: Seq<char>,
    now: Timestamp,
    r: Result<Vec<Effect>, XmppError>,
)
    requires
        command_outcome(c0, XmppCommand::SendMessage { to, body, chat_state }, uuid, now, c1, r),
        c0.is_connected(),
    ensures
        r is Ok,
        count_effects(r->Ok_0@, |e: Effect| is_message_sent(e)) == 1,
        count_effects(r->Ok_0@, |e: Effect| is_store_call(e)) == 1,
        forall|k: int| 0 <= k < r->Ok_0@.len() && is_message_sent(#[trigger] r->Ok_0@[k]) ==>
            (r->Ok_0@[k] matches Effect::Emit(XmppEvent::MessageSent { to: t, body: b, .. }) && t == to && b == body),
        forall|k: int| 0 <= k < r->Ok_0@.len() && is_store_call(#[trigger] r->Ok_0@[k]) ==>
            (r->Ok_0@[k] matches Effect::Store(StoreCall::SaveMessage { to: t, body: b, .. }) && t == to && b == body),
{
    let out = r->Ok_0@;
    lemma_count_single(out, |e: Effect| is_message_sent(e), 2);
    lemma_count_single(out, |e: Effect| is_store_call(e), 1);
}

/// A file-send command, in any state and with any arguments, gives exactly
/// one event, a file-transfer error saying that file transfer is not
/// implemented, and no store call.
pub proof fn lemma_send_file_reports_unimplemented(
    c0: XmppClient,
    c1: XmppClient,
    to: Jid,
    file_path: String,
    uuid: Seq<char>,
    now: Timestamp,
    r: Result<Vec<Effect>, XmppError>,
)
    requires
        command_outcome(c0, XmppCommand::SendFile { to, file_path }, uuid, now, c1, r),
    ensures
        c1 == c0,
        r is Ok,
        count_effects(r->Ok_0@, |e: Effect| is_emit(e)) == 1,
        count_effects(r->Ok_0@, |e: Effect| is_store_call(e)) == 0,
        r->Ok_0@[0] matches Effect::Emit(XmppEvent::FileTransferError { error, .. })
            && error@ == "File transfer not yet implemented"@,
{
    let out = r->Ok_0@;
    lemma_count_single(out, |e: Effect| is_emit(e), 0);
    lemma_count_prefix(out, |e: Effect| is_store_call(e), 0);
}


/// A message sent while connected comes from the account's full JID, and is
/// stored with that sender.
pub proof fn lemma_sender_is_account(
    c0: XmppClient,
    c1: XmppClient,
    to: Jid,
    body: String,
    chat_state: Option<ChatStateCommand>,
    uuid: Seq<char>,
    now: Timestamp,
    r: Result<Vec<Effect>, XmppError>,
)
    requires
        c0.wf(),
        command_outcome(c0, XmppCommand::SendMessage { to, body, chat_state }, uuid, now, c1, r),
        c0.is_connected(),
    ensures
        r->Ok_0@[0] matches Effect::Send(OutboundStanza::Message { from, .. })
            && jid_parse_of(account_jid_text(c0.config)) == Ok::<JidView, JidError>(from@),
        r->Ok_0@[1] matches Effect::Store(StoreCall::SaveMessage { from, .. })
            && jid_parse_of(account_jid_text(c0.config)) == Ok::<JidView, JidError>(from@),
{
}

/// A contact added while connected is stored under the account's bare JID.
pub proof fn lemma_roster_owner_is_account(
    c0: XmppClient,
    c1: XmppClient,
    jid: Jid,
    name: Option<String>,
    groups: Vec<String>,
    uuid: Seq<char>,
    now: Timestamp,
    r: Result<Vec<Effect>, XmppError>,
)
    requires
        c0.wf(),
        command_outcome(c0, XmppCommand::AddRosterItem { jid, name, groups }, uuid, now, c1, r),
        c0.is_connected(),
    ensures
        r->Ok_0@[1] matches Effect::Store(StoreCall::AddRosterItem { user, .. })
            && jid_parse_of(account_jid_text(c0.config)) matches Ok(v)
            && user@ == parts_view(v.node, v.domain, None),
{
}

/// A message whose stanza the transport failed to write is neither stored
/// nor announced: the command ends in a connection error.
pub proof fn lemma_failed_write_sends_nothing(
    c0: XmppClient,
    c1: XmppClient,
    to: Jid,
    body: String,
    chat_state: Option<ChatStateCommand>,
    uuid: Seq<char>,
    now: Timestamp,
    r: Result<Vec<Effect>, XmppError>,
    e: String,
    f: Result<Vec<Effect>, XmppError>,
)
    requires
        command_outcome(c0, XmppCommand::SendMessage { to, body, chat_state }, uuid, now, c1, r),
        c0.is_connected(),
        write_outcome(r->Ok_0@, Err(e), f),
    ensures
        f matches Err(XmppError::ConnectionError(m)) && m == e,
{
}

} // verus!
