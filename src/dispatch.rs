//! Inbound stanza dispatch: each stanza becomes store calls and events.
use vstd::prelude::*;

use crate::events::{ChatState, RosterItem, Timestamp, XmppEvent};
use crate::jid::Jid;
use crate::protocol::{
    count_effects, Effect, InboundIq, InboundMessage, InboundPresence, InboundStanza, PresenceType, StoreCall,
    message_type_text, presence_show_text,
};

verus! {

/// The chat state a stanza's notifications stand for: the first present in
/// the order composing, active, paused, inactive, gone.
pub open spec fn chat_state_hint(hints: Seq<ChatState>) -> Option<ChatState> {
    if hints.contains(ChatState::Composing) {
        Some(ChatState::Composing)
    } else if hints.contains(ChatState::Active) {
        Some(ChatState::Active)
    } else if hints.contains(ChatState::Paused) {
        Some(ChatState::Paused)
    } else if hints.contains(ChatState::Inactive) {
        Some(ChatState::Inactive)
    } else if hints.contains(ChatState::Gone) {
        Some(ChatState::Gone)
    } else {
        None
    }
}

/// The first body of a message, or the empty text.
pub open spec fn first_body(bodies: Seq<String>) -> Seq<char> {
    if bodies.len() > 0 {
        bodies[0]@
    } else {
        Seq::empty()
    }
}

pub open spec fn text_or_empty(s: Option<String>) -> Seq<char> {
    match s {
        Some(s) => s@,
        None => Seq::empty(),
    }
}

/// The effects of an inbound message: it is stored; a chat-state event
/// follows where it carries a notification; a received-message event
/// follows where its body is not empty, stamped with its delay stamp or
/// else with the time of dispatch.
pub open spec fn message_effects(m: InboundMessage, now: Timestamp, out: Seq<Effect>) -> bool {
    match m.from {
        None => out.len() == 0,
        Some(from) => {
            let to = match m.to {
                Some(t) => t,
                None => from,
            };
            let body = first_body(m.bodies@);
            let hint = chat_state_hint(m.chat_states@);
            let stamp = match m.delay {
                Some(d) => d,
                None => now,
            };
            let n = 1 + (if hint is Some { 1int } else { 0int }) + (if body.len() > 0 { 1int } else { 0int });
            &&& out.len() == n
            &&& out[0] matches Effect::Store(StoreCall::SaveMessage { from: f, to: t, body: b, message_type: k, stanza_id: i })
                && f == from && t == to && b@ == body && k@ == message_type_text(m.message_type)
                && i@ == text_or_empty(m.id)
            &&& (hint matches Some(st) ==> (out[1] matches Effect::Emit(XmppEvent::ChatStateReceived { from: f, state })
                && f == from && state == st))
            &&& (body.len() > 0 ==> (out[n - 1] matches Effect::Emit(XmppEvent::MessageReceived { from: f, to: t, body: b, stanza_id: i, timestamp })
                && f == from && t == to && b@ == body && i@ == text_or_empty(m.id) && timestamp == Some(stamp)))
        },
    }
}

fn has_state(hints: &Vec<ChatState>, s: ChatState) -> (r: bool)
    ensures
        r == hints@.contains(s),
{
    let mut i: usize = 0;
    while i < hints.len()
        invariant
            i <= hints.len(),
            forall|k: int| 0 <= k < i ==> hints@[k] != s,
        decreases hints.len() - i,
    {
        if hints[i] == s {
            return true;
        }
        i = i + 1;
    }
    false
}

fn classify_chat_state(hints: &Vec<ChatState>) -> (r: Option<ChatState>)
    ensures
        r == chat_state_hint(hints@),
{
    if has_state(hints, ChatState::Composing) {
        Some(ChatState::Composing)
    } else if has_state(hints, ChatState::Active) {
        Some(ChatState::Active)
    } else if has_state(hints, ChatState::Paused) {
        Some(ChatState::Paused)
    } else if has_state(hints, ChatState::Inactive) {
        Some(ChatState::Inactive)
    } else if has_state(hints, ChatState::Gone) {
        Some(ChatState::Gone)
    } else {
        None
    }
}

fn text_or_new(s: &Option<String>) -> (r: String)
    ensures
        r@ == text_or_empty(*s),
{
    match s {
        Some(s) => s.clone(),
        None => String::new(),
    }
}

/// Turns an inbound message into its effects.
pub fn handle_message(m: InboundMessage, now: Timestamp) -> (out: Vec<Effect>)
    ensures
        message_effects(m, now, out@),
{
    let mut out: Vec<Effect> = Vec::new();
    let from = match &m.from {
        Some(f) => f.clone(),
        None => {
            return out;
        },
    };
    let to = match &m.to {
        Some(t) => t.clone(),
        None => from.clone(),
    };
    let body = if m.bodies.len() > 0 {
        m.bodies[0].clone()
    } else {
        String::new()
    };
    let stanza_id = text_or_new(&m.id);
    let stamp = match m.delay {
        Some(d) => d,
        None => now,
    };
    out.push(Effect::Store(StoreCall::SaveMessage {
        from: from.clone(),
        to: to.clone(),
        body: body.clone(),
        message_type: String::from_str(m.message_type.as_str()),
        stanza_id: stanza_id.clone(),
    }));
    match classify_chat_state(&m.chat_states) {
        Some(state) => {
            out.push(Effect::Emit(XmppEvent::ChatStateReceived { from: from.clone(), state }));
        },
        None => {},
    }
    if body.unicode_len() > 0 {
        out.push(Effect::Emit(XmppEvent::MessageReceived { from, to, body, stanza_id, timestamp: Some(stamp) }));
    }
    out
}


/// The effects of an inbound presence: the sender's presence is stored,
/// then a subscription request, approval or decline, or for an available or
/// unavailable presence a presence event; other types give no event.
pub open spec fn presence_effects(p: InboundPresence, out: Seq<Effect>) -> bool {
    match p.from {
        None => out.len() == 0,
        Some(from) => {
            let show = presence_show_text(p.show);
            &&& out.len() >= 1
            &&& out[0] matches Effect::Store(StoreCall::UpdatePresence { jid, show: s, status })
                && jid == from && s@ == show && status == p.status
            &&& match p.presence_type {
                PresenceType::Subscribe => out.len() == 2
                    && (out[1] matches Effect::Emit(XmppEvent::SubscriptionRequest { from: f }) && f == from),
                PresenceType::Subscribed => out.len() == 2
                    && (out[1] matches Effect::Emit(XmppEvent::SubscriptionApproved { jid }) && jid == from),
                PresenceType::Unsubscribed => out.len() == 2
                    && (out[1] matches Effect::Emit(XmppEvent::SubscriptionDeclined { jid }) && jid == from),
                PresenceType::Available | PresenceType::Unavailable => out.len() == 2
                    && (out[1] matches Effect::Emit(XmppEvent::PresenceReceived { from: f, show: s, status, priority })
                    && f == from && s@ == show && status == p.status && priority == Some(p.priority as i32)),
                _ => out.len() == 1,
            }
        },
    }
}

/// Turns an inbound presence into its effects.
pub fn handle_presence(p: InboundPresence) -> (out: Vec<Effect>)
    ensures
        presence_effects(p, out@),
{
    let mut out: Vec<Effect> = Vec::new();
    let from = match &p.from {
        Some(f) => f.clone(),
        None => {
            return out;
        },
    };
    let show = match p.show {
        Some(s) => String::from_str(s.as_str()),
        None => String::from_str("online"),
    };
    out.push(Effect::Store(StoreCall::UpdatePresence {
        jid: from.clone(),
        show: show.clone(),
        status: crate::jid::clone_option_string(&p.status),
    }));
    match p.presence_type {
        PresenceType::Subscribe => {
            out.push(Effect::Emit(XmppEvent::SubscriptionRequest { from }));
        },
        PresenceType::Subscribed => {
            out.push(Effect::Emit(XmppEvent::SubscriptionApproved { jid: from }));
        },
        PresenceType::Unsubscribed => {
            out.push(Effect::Emit(XmppEvent::SubscriptionDeclined { jid: from }));
        },
        PresenceType::Available | PresenceType::Unavailable => {
            out.push(Effect::Emit(XmppEvent::PresenceReceived {
                from,
                show,
                status: crate::jid::clone_option_string(&p.status),
                priority: Some(p.priority as i32),
            }));
        },
        _ => {},
    }
    out
}

/// The store call for one roster item received for `user`.
pub open spec fn is_roster_store(e: Effect, user: Jid, item: RosterItem) -> bool {
    e matches Effect::Store(StoreCall::AddRosterItem { user: u, contact, name, groups })
        && u == user && contact == item.jid && name == item.name && groups@ == item.groups@
}

/// The account a roster result belongs to: its sender, else its addressee,
/// else the account the client runs for.
pub open spec fn roster_owner(iq: InboundIq, account: Jid) -> Jid {
    match iq.from {
        Some(f) => f,
        None => match iq.to {
            Some(t) => t,
            None => account,
        },
    }
}

/// The effects of an inbound info-query: for a roster payload, one store
/// call per item in order, then one roster event holding all the items;
/// nothing for any other payload.
pub open spec fn iq_effects(iq: InboundIq, account: Jid, out: Seq<Effect>) -> bool {
    match iq.roster {
        None => out.len() == 0,
        Some(items) => {
            let user = roster_owner(iq, account);
            &&& out.len() == items.len() + 1
            &&& forall|k: int| 0 <= k < items.len() ==> #[trigger] is_roster_store(out[k], user, items@[k])
            &&& out[items.len() as int] matches Effect::Emit(XmppEvent::RosterReceived { items: sent })
                && sent == items
        },
    }
}

/// Turns an inbound info-query into its effects.
pub fn handle_iq(iq: InboundIq, account: &Jid) -> (out: Vec<Effect>)
    ensures
        iq_effects(iq, *account, out@),
{
    let ghost iq0 = iq;
    let mut out: Vec<Effect> = Vec::new();
    let user = match &iq.from {
        Some(f) => f.clone(),
        None => match &iq.to {
            Some(t) => t.clone(),
            None => account.clone(),
        },
    };
    let items = match iq.roster {
        Some(items) => items,
        None => {
            return out;
        },
    };
    let mut i: usize = 0;
    while i < items.len()
        invariant
            i <= items.len(),
            iq0.roster == Some(items),
            user == roster_owner(iq0, *account),
            out@.len() == i,
            forall|k: int| 0 <= k < i ==> #[trigger] is_roster_store(out@[k], user, items@[k]),
        decreases items.len() - i,
    {
        let item = &items[i];
        out.push(Effect::Store(StoreCall::AddRosterItem {
            user: user.clone(),
            contact: item.jid.clone(),
            name: crate::jid::clone_option_string(&item.name),
            groups: crate::events::clone_strings(&item.groups),
        }));
        i = i + 1;
    }
    out.push(Effect::Emit(XmppEvent::RosterReceived { items }));
    out
}

/// The effects of any inbound stanza, dispatched by its kind.
pub open spec fn stanza_effects(s: InboundStanza, account: Jid, now: Timestamp, out: Seq<Effect>) -> bool {
    match s {
        InboundStanza::Message(m) => message_effects(m, now, out),
        InboundStanza::Presence(p) => presence_effects(p, out),
        InboundStanza::Iq(iq) => iq_effects(iq, account, out),
        InboundStanza::Unknown => out.len() == 0,
    }
}

/// Turns any inbound stanza into its effects; `account` is the JID the
/// client runs for and `now` the time of dispatch.
pub fn dispatch_stanza(s: InboundStanza, account: &Jid, now: Timestamp) -> (out: Vec<Effect>)
    ensures
        stanza_effects(s, *account, now, out@),
{
    match s {
        InboundStanza::Message(m) => handle_message(m, now),
        InboundStanza::Presence(p) => handle_presence(p),
        InboundStanza::Iq(iq) => handle_iq(iq, account),
        InboundStanza::Unknown => Vec::new(),
    }
}


pub open spec fn is_emit(e: Effect) -> bool {
    e is Emit
}

pub open spec fn is_message_received(e: Effect) -> bool {
    e matches Effect::Emit(XmppEvent::MessageReceived { .. })
}

pub open spec fn is_presence_received(e: Effect) -> bool {
    e matches Effect::Emit(XmppEvent::PresenceReceived { .. })
}

pub open spec fn is_subscription_request(e: Effect) -> bool {
    e matches Effect::Emit(XmppEvent::SubscriptionRequest { .. })
}

pub open spec fn is_roster_event(e: Effect) -> bool {
    e matches Effect::Emit(XmppEvent::RosterReceived { .. })
}

pub open spec fn is_roster_store_call(e: Effect) -> bool {
    e matches Effect::Store(StoreCall::AddRosterItem { .. })
}

/// Counting where the first `n` effects satisfy `f` and no later one does.
pub proof fn lemma_count_prefix(s: Seq<Effect>, f: spec_fn(Effect) -> bool, n: int)
    requires
        0 <= n <= s.len(),
        forall|k: int| 0 <= k < n ==> f(#[trigger] s[k]),
        forall|k: int| n <= k < s.len() ==> !f(#[trigger] s[k]),
    ensures
        count_effects(s, f) == n,
    decreases s.len(),
{
    if s.len() > 0 {
        let t = s.drop_last();
        if n == s.len() {
            assert(f(s[s.len() - 1]));
            lemma_count_prefix(t, f, n - 1);
        } else {
            assert(!f(s[s.len() - 1]));
            lemma_count_prefix(t, f, n);
        }
    }
}

/// Counting where exactly the effect at `i` satisfies `f`.
pub proof fn lemma_count_single(s: Seq<Effect>, f: spec_fn(Effect) -> bool, i: int)
    requires
        0 <= i < s.len(),
        f(s[i]),
        forall|k: int| 0 <= k < s.len() && k != i ==> !f(#[trigger] s[k]),
    ensures
        count_effects(s, f) == 1,
    decreases s.len(),
{
    let t = s.drop_last();
    if i == s.len() - 1 {
        lemma_count_prefix(t, f, 0);
    } else {
        lemma_count_single(t, f, i);
    }
}

/// An inbound message whose body is empty never gives a received-message
/// event, whatever chat-state notification it carries.
pub proof fn lemma_empty_body_gives_no_message_event(m: InboundMessage, now: Timestamp, out: Seq<Effect>)
    requires
        message_effects(m, now, out),
        first_body(m.bodies@).len() == 0,
    ensures
        count_effects(out, |e: Effect| is_message_received(e)) == 0,
{
    lemma_count_prefix(out, |e: Effect| is_message_received(e), 0);
}

/// A roster result with N items gives exactly N roster store calls and
/// exactly one roster event, which holds exactly those N items.
pub proof fn lemma_roster_result_counts(iq: InboundIq, account: Jid, out: Seq<Effect>)
    requires
        iq_effects(iq, account, out),
        iq.roster is Some,
    ensures
        count_effects(out, |e: Effect| is_roster_store_call(e)) == iq.roster->0.len(),
        count_effects(out, |e: Effect| is_roster_event(e)) == 1,
        out.last() matches Effect::Emit(XmppEvent::RosterReceived { items }) && items@.len() == iq.roster->0@.len(),
{
    let items = iq.roster->0;
    let n = items.len() as int;
    let user = roster_owner(iq, account);
    assert forall|k: int| 0 <= k < n implies is_roster_store_call(#[trigger] out[k]) by {
        assert(is_roster_store(out[k], user, items@[k]));
    }
    assert forall|k: int| 0 <= k < out.len() && k != n implies !is_roster_event(#[trigger] out[k]) by {
        assert(is_roster_store(out[k], user, items@[k]));
    }
    lemma_count_prefix(out, |e: Effect| is_roster_store_call(e), n);
    lemma_count_single(out, |e: Effect| is_roster_event(e), n);
}

/// A presence of type subscribe never gives a presence event: the one event
/// it gives, where it has a sender, is a subscription request.
pub proof fn lemma_subscribe_gives_only_request(p: InboundPresence, out: Seq<Effect>)
    requires
        presence_effects(p, out),
        p.presence_type == PresenceType::Subscribe,
    ensures
        count_effects(out, |e: Effect| is_presence_received(e)) == 0,
        count_effects(out, |e: Effect| is_subscription_request(e)) == if p.from is Some { 1int } else { 0int },
        count_effects(out, |e: Effect| is_emit(e)) == if p.from is Some { 1int } else { 0int },
{
    lemma_count_prefix(out, |e: Effect| is_presence_received(e), 0);
    if p.from is Some {
        lemma_count_single(out, |e: Effect| is_subscription_request(e), 1);
        lemma_count_single(out, |e: Effect| is_emit(e), 1);
    } else {
        lemma_count_prefix(out, |e: Effect| is_subscription_request(e), 0);
        lemma_count_prefix(out, |e: Effect| is_emit(e), 0);
    }
}

} // verus!
