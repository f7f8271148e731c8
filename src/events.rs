//! The events through which protocol occurrences become visible to the
//! client's users.
use vstd::prelude::*;

use crate::jid::{Jid, JidView, option_view};

verus! {

/// A point in time, in milliseconds since the Unix epoch (UTC).
#[derive(Clone, Copy, Debug, PartialEq, Eq, Structural)]
pub struct Timestamp {
    pub unix_millis: i64,
}

/// A chat-state notification (typing indicators).
#[derive(Clone, Copy, Debug, PartialEq, Eq, Structural)]
pub enum ChatState {
    Active,
    Inactive,
    Gone,
    Composing,
    Paused,
}

/// The subscription state of a roster item.
#[derive(Clone, Copy, Debug, PartialEq, Eq, Structural)]
pub enum Subscription {
    Neither,
    To,
    From,
    Both,
    Remove,
}

pub open spec fn subscription_text(s: Subscription) -> Seq<char> {
    match s {
        Subscription::Neither => "none"@,
        Subscription::To => "to"@,
        Subscription::From => "from"@,
        Subscription::Both => "both"@,
        Subscription::Remove => "remove"@,
    }
}

impl Subscription {
    /// The protocol name of this subscription state.
    pub fn as_str(&self) -> (r: &'static str)
        ensures
            r@ == subscription_text(*self),
    {
        match self {
            Subscription::Neither => "none",
            Subscription::To => "to",
            Subscription::From => "from",
            Subscription::Both => "both",
            Subscription::Remove => "remove",
        }
    }
}

/// A contact on the roster.
#[derive(Debug, PartialEq, Eq)]
pub struct RosterItem {
    pub jid: Jid,
    pub name: Option<String>,
    pub subscription: Subscription,
    pub groups: Vec<String>,
    pub approved: bool,
    pub ask: Option<String>,
}

pub fn clone_strings(v: &Vec<String>) -> (r: Vec<String>)
    ensures
        r@ == v@,
{
    let r = v.clone();
    proof {
        assert forall|i: int| 0 <= i < v.len() implies r@[i] == v@[i] by {
            assert(cloned::<String>(v[i], r[i]));
        }
        assert(r@ =~= v@);
    }
    r
}

/// A roster item as values.
pub struct RosterItemView {
    pub jid: JidView,
    pub name: Option<Seq<char>>,
    pub subscription: Subscription,
    pub groups: Seq<Seq<char>>,
    pub approved: bool,
    pub ask: Option<Seq<char>>,
}

impl View for RosterItem {
    type V = RosterItemView;

    open spec fn view(&self) -> RosterItemView {
        RosterItemView {
            jid: self.jid@,
            name: option_view(self.name),
            subscription: self.subscription,
            groups: self.groups@.map_values(|g: String| g@),
            approved: self.approved,
            ask: option_view(self.ask),
        }
    }
}

/// Two roster items that hold the same values.
pub open spec fn same_roster_item(a: RosterItem, b: RosterItem) -> bool {
    &&& a.jid == b.jid
    &&& a.name == b.name
    &&& a.subscription == b.subscription
    &&& a.groups@ == b.groups@
    &&& a.approved == b.approved
    &&& a.ask == b.ask
}

impl Clone for RosterItem {
    fn clone(&self) -> (r: Self)
        ensures
            same_roster_item(r, *self),
            r@ == self@,
    {
        RosterItem {
            jid: self.jid.clone(),
            name: crate::jid::clone_option_string(&self.name),
            subscription: self.subscription,
            groups: clone_strings(&self.groups),
            approved: self.approved,
            ask: crate::jid::clone_option_string(&self.ask),
        }
    }
}

#[derive(Clone, Debug, PartialEq, Eq)]
pub struct ServiceIdentity {
    pub category: String,
    pub identity_type: String,
    pub name: Option<String>,
    pub lang: Option<String>,
}

#[derive(Clone, Debug, PartialEq, Eq)]
pub struct DiscoItem {
    pub jid: Jid,
    pub name: Option<String>,
    pub node: Option<String>,
}

#[derive(Clone, Copy, Debug, PartialEq, Eq, Structural)]
pub enum CarbonType {
    Received,
    Sent,
}

#[derive(Clone, Debug, PartialEq, Eq)]
pub struct MessageInfo {
    pub from: Jid,
    pub to: Jid,
    pub body: String,
    pub stanza_id: String,
    pub timestamp: Option<Timestamp>,
}

/// Every protocol-visible occurrence.
#[derive(Clone, Debug, PartialEq, Eq)]
pub enum XmppEvent {
    Connected { jid: Jid },
    Disconnected { reason: String },
    Connecting,
    ConnectionError { error: String },
    AuthenticationSuccess,
    AuthenticationError { error: String },
    MessageReceived { from: Jid, to: Jid, body: String, stanza_id: String, timestamp: Option<Timestamp> },
    MessageSent { to: Jid, body: String, stanza_id: String },
    MessageDelivered { stanza_id: String },
    MessageDisplayed { stanza_id: String },
    ChatStateReceived { from: Jid, state: ChatState },
    ChatStateChanged { to: Jid, state: ChatState },
    PresenceReceived { from: Jid, show: String, status: Option<String>, priority: Option<i32> },
    PresenceSent { show: String, status: Option<String> },
    RosterReceived { items: Vec<RosterItem> },
    RosterItemAdded { item: RosterItem },
    RosterItemUpdated { item: RosterItem },
    RosterItemRemoved { jid: Jid },
    SubscriptionRequest { from: Jid },
    SubscriptionApproved { jid: Jid },
    SubscriptionDeclined { jid: Jid },
    MucJoined { room_jid: Jid, nickname: String },
    MucLeft { room_jid: Jid },
    MucMessageReceived { room_jid: Jid, from: Jid, nickname: String, body: String, timestamp: Option<Timestamp> },
    MucSubjectChanged { room_jid: Jid, subject: String, changer: Option<Jid> },
    MucUserJoined { room_jid: Jid, nickname: String, jid: Option<Jid> },
    MucUserLeft { room_jid: Jid, nickname: String },
    FileTransferRequest { from: Jid, filename: String, size: u64, mime_type: Option<String>, description: Option<String> },
    FileTransferStarted { transfer_id: String, filename: String },
    /// Progress of a transfer in thousandths of the whole (0 to 1000).
    FileTransferProgress { transfer_id: String, progress_permille: u32 },
    FileTransferCompleted { transfer_id: String, filename: String },
    FileTransferError { transfer_id: String, error: String },
    Error { error: String, stanza: Option<String> },
    StanzaError { from: Jid, error_type: String, condition: String, text: Option<String> },
    DiscoInfoReceived { from: Jid, identities: Vec<ServiceIdentity>, features: Vec<String> },
    DiscoItemsReceived { from: Jid, items: Vec<DiscoItem> },
    StreamManagementEnabled { resume_id: Option<String> },
    StreamManagementResumed { previously_received: u32 },
    StreamManagementFailed,
    CarbonReceived { carbon_type: CarbonType, message: MessageInfo },
}

} // verus!
