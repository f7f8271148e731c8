//! Stanzas as the core sees them, and the effects the core asks its caller
//! to carry out.
use vstd::prelude::*;

use crate::events::{ChatState, RosterItem, Timestamp, XmppEvent};
use crate::jid::Jid;

verus! {

#[derive(Clone, Copy, Debug, PartialEq, Eq, Structural)]
pub enum MessageType {
    Chat,
    Error,
    Groupchat,
    Headline,
    Normal,
}

pub open spec fn message_type_text(t: MessageType) -> Seq<char> {
    match t {
        MessageType::Chat => "chat"@,
        MessageType::Error => "error"@,
        MessageType::Groupchat => "groupchat"@,
        MessageType::Headline => "headline"@,
        MessageType::Normal => "normal"@,
    }
}

impl MessageType {
    /// The protocol name of this message type.
    pub fn as_str(&self) -> (r: &'static str)
        ensures
            r@ == message_type_text(*self),
    {
        match self {
            MessageType::Chat => "chat",
            MessageType::Error => "error",
            MessageType::Groupchat => "groupchat",
            MessageType::Headline => "headline",
            MessageType::Normal => "normal",
        }
    }
}

#[derive(Clone, Copy, Debug, PartialEq, Eq, Structural)]
pub enum PresenceType {
    Available,
    Unavailable,
    Subscribe,
    Subscribed,
    Unsubscribe,
    Unsubscribed,
    Probe,
    Error,
}

/// The availability sub-state carried by an available presence.
#[derive(Clone, Copy, Debug, PartialEq, Eq, Structural)]
pub enum PresenceShow {
    Away,
    Chat,
    Dnd,
    Xa,
}

pub open spec fn show_text(s: PresenceShow) -> Seq<char> {
    match s {
        PresenceShow::Away => "away"@,
        PresenceShow::Chat => "chat"@,
        PresenceShow::Dnd => "dnd"@,
        PresenceShow::Xa => "xa"@,
    }
}

/// The show value reported for a presence: its protocol name, or `online`
/// where the presence carries none.
pub open spec fn presence_show_text(s: Option<PresenceShow>) -> Seq<char> {
    match s {
        Some(s) => show_text(s),
        None => "online"@,
    }
}

impl PresenceShow {
    /// The protocol name of this show value.
    pub fn as_str(&self) -> (r: &'static str)
        ensures
            r@ == show_text(*self),
    {
        match self {
            PresenceShow::Away => "away",
            PresenceShow::Chat => "chat",
            PresenceShow::Dnd => "dnd",
            PresenceShow::Xa => "xa",
        }
    }
}

/// An inbound message stanza.
#[derive(Debug, PartialEq, Eq)]
pub struct InboundMessage {
    pub from: Option<Jid>,
    pub to: Option<Jid>,
    /// The bodies in document order.
    pub bodies: Vec<String>,
    pub id: Option<String>,
    pub message_type: MessageType,
    /// The chat-state notifications the stanza carries.
    pub chat_states: Vec<ChatState>,
    /// The delayed-delivery stamp, where the stanza carries one.
    pub delay: Option<Timestamp>,
}

/// An inbound presence stanza.
#[derive(Debug, PartialEq, Eq)]
pub struct InboundPresence {
    pub from: Option<Jid>,
    pub presence_type: PresenceType,
    pub show: Option<PresenceShow>,
    pub status: Option<String>,
    pub priority: i8,
}

/// An inbound info-query stanza.
#[derive(Debug, PartialEq, Eq)]
pub struct InboundIq {
    pub from: Option<Jid>,
    pub to: Option<Jid>,
    /// The roster items, where the payload is a roster.
    pub roster: Option<Vec<RosterItem>>,
}

/// An inbound stanza, classified once.
#[derive(Debug, PartialEq, Eq)]
pub enum InboundStanza {
    Message(InboundMessage),
    Presence(InboundPresence),
    Iq(InboundIq),
    Unknown,
}

/// The password element of a multi-user chat join.
#[derive(Clone, Debug, PartialEq, Eq)]
pub struct MucJoin {
    pub password: Option<String>,
}

/// Software version details for a version query result.
#[derive(Clone, Debug, PartialEq, Eq)]
pub struct SoftwareVersion {
    pub name: String,
    pub version: String,
    pub os: String,
}

/// A stanza the core asks to write to the transport.
#[derive(Clone, Debug, PartialEq, Eq)]
pub enum OutboundStanza {
    Message {
        from: Jid,
        to: Jid,
        id: String,
        body: String,
        message_type: MessageType,
        chat_state: Option<ChatState>,
    },
    Presence {
        presence_type: PresenceType,
        from: Option<Jid>,
        to: Option<Jid>,
        show: Option<PresenceShow>,
        status: Option<String>,
        muc: Option<MucJoin>,
    },
    RosterGet { id: String, from: Jid },
    RosterSet {
        id: String,
        from: Jid,
        jid: Jid,
        name: Option<String>,
        groups: Vec<String>,
        remove: bool,
    },
    IqResult { id: String, to: Jid, version: Option<SoftwareVersion> },
}

/// A call into the persistence gateway.
#[derive(Debug, PartialEq, Eq)]
pub enum StoreCall {
    SaveMessage { from: Jid, to: Jid, body: String, message_type: String, stanza_id: String },
    AddRosterItem { user: Jid, contact: Jid, name: Option<String>, groups: Vec<String> },
    UpdatePresence { jid: Jid, show: String, status: Option<String> },
}

/// What the transport needs to open a connection and authenticate.
#[derive(Debug, PartialEq, Eq)]
pub struct TransportRequest {
    pub jid: Jid,
    pub password: String,
    pub host: String,
    pub port: u16,
    pub use_tls: bool,
    pub accept_invalid_certs: bool,
}

/// One thing the caller carries out for the core, in list order.
#[derive(Debug, PartialEq, Eq)]
pub enum Effect {
    Emit(XmppEvent),
    Store(StoreCall),
    Send(OutboundStanza),
    OpenTransport(TransportRequest),
    CloseTransport,
}

/// How many effects of a list satisfy `f`.
pub open spec fn count_effects(s: Seq<Effect>, f: spec_fn(Effect) -> bool) -> nat
    decreases s.len(),
{
    if s.len() == 0 {
        0
    } else {
        count_effects(s.drop_last(), f) + if f(s.last()) { 1nat } else { 0nat }
    }
}

} // verus!
