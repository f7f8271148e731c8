//! Handlers for the protocol extensions: service discovery, software
//! version, ping, multi-user chat occupants, message carbons and delayed
//! delivery.
use vstd::prelude::*;

use crate::dispatch::{first_body, text_or_empty};
use crate::events::{CarbonType, DiscoItem, MessageInfo, ServiceIdentity, Timestamp, XmppEvent};
use crate::jid::{Jid, jid_parse_of, parts_view, text_eq};
use crate::protocol::{InboundMessage, OutboundStanza, SoftwareVersion};

verus! {

/// Namespace of delayed delivery.
pub const NS_DELAY: &'static str = "urn:xmpp:delay";

/// The result of a service-discovery information query.
#[derive(Clone, Debug, PartialEq, Eq)]
pub struct DiscoInfo {
    pub identities: Vec<ServiceIdentity>,
    pub features: Vec<String>,
}

/// One occupant item of a multi-user chat presence.
#[derive(Clone, Debug, PartialEq, Eq)]
pub struct MucUserItem {
    pub nick: Option<String>,
    pub role: Option<String>,
    pub affiliation: Option<String>,
    pub jid: Option<Jid>,
}

/// An XML element as far as the handlers read it: its name, namespace and
/// attributes in document order.
#[derive(Clone, Debug, PartialEq, Eq)]
pub struct XmlElement {
    pub name: String,
    pub ns: Option<String>,
    pub attrs: Vec<(String, String)>,
}

/// A delayed-delivery marker.
#[derive(Clone, Debug, PartialEq, Eq)]
pub struct DelayInfo {
    pub stamp: Timestamp,
    pub from: Option<Jid>,
    pub reason: Option<String>,
}

/// What `chrono::DateTime::parse_from_rfc3339` makes of a text, as
/// milliseconds since the Unix epoch.
pub uninterp spec fn rfc3339_millis_of(s: Seq<char>) -> Option<i64>;

/// Relies on `chrono::DateTime::parse_from_rfc3339`, converted to UTC
/// milliseconds since the Unix epoch.
#[verifier::external_body]
fn parse_rfc3339_millis(s: &str) -> (r: Option<i64>)
    ensures
        r == rfc3339_millis_of(s@),
{
    chrono::DateTime::parse_from_rfc3339(s).ok().map(|d| d.with_timezone(&chrono::Utc).timestamp_millis())
}

/// The value of the first attribute called `name`, where there is one.
pub open spec fn attr_value(attrs: Seq<(String, String)>, name: Seq<char>) -> Option<Seq<char>>
    decreases attrs.len(),
{
    if attrs.len() == 0 {
        None
    } else if attrs[0].0@ == name {
        Some(attrs[0].1@)
    } else {
        attr_value(attrs.drop_first(), name)
    }
}

proof fn lemma_attr_value_step(attrs: Seq<(String, String)>, name: Seq<char>, i: int)
    requires
        0 <= i < attrs.len(),
        attrs[i].0@ != name,
    ensures
        attr_value(attrs.subrange(i, attrs.len() as int), name)
            == attr_value(attrs.subrange(i + 1, attrs.len() as int), name),
{
    assert(attrs.subrange(i, attrs.len() as int).drop_first() =~= attrs.subrange(i + 1, attrs.len() as int));
}

impl XmlElement {
    /// The value of the first attribute called `name`.
    pub fn attr(&self, name: &str) -> (r: Option<&str>)
        ensures
            match attr_value(self.attrs@, name@) {
                Some(v) => r matches Some(s) && s@ == v,
                None => r is None,
            },
    {
        let mut i: usize = 0;
        proof {
            assert(self.attrs@.subrange(0, self.attrs@.len() as int) =~= self.attrs@);
        }
        while i < self.attrs.len()
            invariant
                i <= self.attrs@.len(),
                attr_value(self.attrs@.subrange(i as int, self.attrs@.len() as int), name@)
                    == attr_value(self.attrs@, name@),
            decreases self.attrs.len() - i,
        {
            let pair = &self.attrs[i];
            if text_eq(pair.0.as_str(), name) {
                proof {
                    assert(self.attrs@.subrange(i as int, self.attrs@.len() as int)[0] == self.attrs@[i as int]);
                }
                return Some(pair.1.as_str());
            }
            proof {
                lemma_attr_value_step(self.attrs@, name@, i as int);
            }
            i = i + 1;
        }
        None
    }
}

/// The delay marker an element stands for: an element `delay` of the
/// delayed-delivery namespace with a valid RFC 3339 `stamp`; its `from` is
/// kept where it is a valid JID.
pub open spec fn delay_info_of(e: XmlElement, r: Option<DelayInfo>) -> bool {
    if e.name@ == "delay"@ && (e.ns matches Some(ns) && ns@ == NS_DELAY@) {
        match attr_value(e.attrs@, "stamp"@) {
            None => r is None,
            Some(stamp) => match rfc3339_millis_of(stamp) {
                None => r is None,
                Some(ms) => r matches Some(d) && d.stamp == (Timestamp { unix_millis: ms })
                    && match attr_value(e.attrs@, "from"@) {
                        Some(f) => match jid_parse_of(f) {
                            Ok(v) => d.from matches Some(j) && j@ == v,
                            Err(_) => d.from is None,
                        },
                        None => d.from is None,
                    }
                    && match attr_value(e.attrs@, "reason"@) {
                        Some(t) => d.reason matches Some(s) && s@ == t,
                        None => d.reason is None,
                    },
            },
        }
    } else {
        r is None
    }
}

impl DelayInfo {
    /// Reads a delayed-delivery marker.
    pub fn from_element(element: &XmlElement) -> (r: Option<DelayInfo>)
        ensures
            delay_info_of(*element, r),
    {
        if !text_eq(element.name.as_str(), "delay") {
            return None;
        }
        match &element.ns {
            Some(ns) => {
                if !text_eq(ns.as_str(), NS_DELAY) {
                    return None;
                }
            },
            None => {
                return None;
            },
        }
        let stamp = match element.attr("stamp") {
            Some(s) => s,
            None => {
                return None;
            },
        };
        let ms = match parse_rfc3339_millis(stamp) {
            Some(ms) => ms,
            None => {
                return None;
            },
        };
        let from = match element.attr("from") {
            Some(f) => match Jid::new(f) {
                Ok(j) => Some(j),
                Err(_) => None,
            },
            None => None,
        };
        let reason = match element.attr("reason") {
            Some(t) => Some(String::from_str(t)),
            None => None,
        };
        Some(DelayInfo { stamp: Timestamp { unix_millis: ms }, from, reason })
    }
}

/// Handlers for the protocol extensions.
#[derive(Clone, Copy, Debug)]
pub struct StanzaHandler {}

/// The events of a multi-user chat presence from `from`: for each occupant
/// item that names a nickname, in order, the occupant left where the item
/// has neither role nor affiliation, else joined (or changed).
pub open spec fn muc_user_event(from: Jid, item: MucUserItem, e: XmppEvent) -> bool {
    let room = parts_view(from@.node, from@.domain, None);
    if item.role is None && item.affiliation is None {
        e matches XmppEvent::MucUserLeft { room_jid, nickname }
            && room_jid@ == room && Some(nickname) == item.nick
    } else {
        e matches XmppEvent::MucUserJoined { room_jid, nickname, jid }
            && room_jid@ == room && Some(nickname) == item.nick && jid == item.jid
    }
}

/// The items of `items` that name a nickname, as indices in order.
pub open spec fn nick_count(items: Seq<MucUserItem>) -> nat
    decreases items.len(),
{
    if items.len() == 0 {
        0
    } else {
        nick_count(items.drop_last()) + if items.last().nick is Some { 1nat } else { 0nat }
    }
}

/// Whether `events` are the occupant events of `items` from `from`.
pub open spec fn muc_user_events(from: Jid, items: Seq<MucUserItem>, events: Seq<XmppEvent>) -> bool
    decreases items.len(),
{
    if items.len() == 0 {
        events.len() == 0
    } else if items.last().nick is Some {
        events.len() > 0 && muc_user_event(from, items.last(), events.last())
            && muc_user_events(from, items.drop_last(), events.drop_last())
    } else {
        muc_user_events(from, items.drop_last(), events)
    }
}

impl StanzaHandler {
    pub fn new() -> (r: StanzaHandler) {
        StanzaHandler {}
    }

    /// The event for a service-discovery information result from `from`.
    pub fn handle_service_discovery_info(&self, from: Jid, info: DiscoInfo) -> (r: XmppEvent)
        ensures
            r == (XmppEvent::DiscoInfoReceived { from, identities: info.identities, features: info.features }),
    {
        XmppEvent::DiscoInfoReceived { from, identities: info.identities, features: info.features }
    }

    /// The event for a service-discovery items result from `from`.
    pub fn handle_service_discovery_items(&self, from: Jid, items: Vec<DiscoItem>) -> (r: XmppEvent)
        ensures
            r == (XmppEvent::DiscoItemsReceived { from, items }),
    {
        XmppEvent::DiscoItemsReceived { from, items }
    }

    /// The answer to a software-version query `id` from `from`, naming this
    /// client and the operating system `os`.
    pub fn handle_version_request(&self, from: Jid, id: String, os: String) -> (r: OutboundStanza)
        ensures
            r matches OutboundStanza::IqResult { id: i, to, version: Some(v) }
                && i == id && to == from && v.name@ == "XMPP Client"@ && v.version@ == "0.1.0"@ && v.os == os,
    {
        OutboundStanza::IqResult {
            id,
            to: from,
            version: Some(SoftwareVersion {
                name: String::from_str("XMPP Client"),
                version: String::from_str("0.1.0"),
                os,
            }),
        }
    }

    /// The answer to a ping `id` from `from`: an empty result.
    pub fn handle_ping_request(&self, from: Jid, id: String) -> (r: OutboundStanza)
        ensures
            r == (OutboundStanza::IqResult { id, to: from, version: None }),
    {
        OutboundStanza::IqResult { id, to: from, version: None }
    }

    /// The occupant events of a multi-user chat presence; none without a
    /// sender.
    pub fn handle_muc_user_presence(&self, from: Option<Jid>, items: Vec<MucUserItem>) -> (r: Vec<XmppEvent>)
        ensures
            from matches Some(f) ==> muc_user_events(f, items@, r@),
            from is None ==> r@.len() == 0,
    {
        let mut out: Vec<XmppEvent> = Vec::new();
        let from = match from {
            Some(f) => f,
            None => {
                return out;
            },
        };
        let mut i: usize = 0;
        while i < items.len()
            invariant
                i <= items@.len(),
                muc_user_events(from, items@.subrange(0, i as int), out@),
            decreases items.len() - i,
        {
            let item = &items[i];
            proof {
                assert(items@.subrange(0, i + 1).drop_last() =~= items@.subrange(0, i as int));
                assert(items@.subrange(0, i + 1).last() == items@[i as int]);
            }
            match &item.nick {
                Some(nick) => {
                    let room = from.to_bare();
                    let ghost before = out@;
                    if item.role.is_none() && item.affiliation.is_none() {
                        out.push(XmppEvent::MucUserLeft { room_jid: room, nickname: nick.clone() });
                    } else {
                        out.push(XmppEvent::MucUserJoined {
                            room_jid: room,
                            nickname: nick.clone(),
                            jid: match &item.jid {
                                Some(j) => Some(j.clone()),
                                None => None,
                            },
                        });
                    }
                    proof {
                        assert(out@.drop_last() =~= before);
                    }
                },
                None => {},
            }
            i = i + 1;
        }
        proof {
            assert(items@.subrange(0, items@.len() as int) =~= items@);
        }
        out
    }

    /// The event for a carbon copy of a message; none unless the message
    /// has both a sender and a recipient.
    pub fn handle_carbons_message(&self, message: InboundMessage, carbon_type: CarbonType, now: Timestamp) -> (r: Option<XmppEvent>)
        ensures
            (message.from is Some && message.to is Some) ==> (r matches Some(XmppEvent::CarbonReceived { carbon_type: c, message: m })
                && c == carbon_type && Some(m.from) == message.from && Some(m.to) == message.to && m.body@ == first_body(message.bodies@)
                && m.stanza_id@ == text_or_empty(message.id) && m.timestamp == Some(now)),
            (message.from is None || message.to is None) ==> r is None,
    {
        let (from, to) = match (&message.from, &message.to) {
            (Some(f), Some(t)) => (f.clone(), t.clone()),
            _ => {
                return None;
            },
        };
        let body = if message.bodies.len() > 0 {
            message.bodies[0].clone()
        } else {
            String::new()
        };
        let stanza_id = match &message.id {
            Some(s) => s.clone(),
            None => String::new(),
        };
        Some(XmppEvent::CarbonReceived {
            carbon_type,
            message: MessageInfo { from, to, body, stanza_id, timestamp: Some(now) },
        })
    }

    /// The received-message event for a delayed message, stamped with its
    /// delay stamp; none unless the message has both a sender and a
    /// recipient.
    pub fn handle_delayed_message(&self, message: InboundMessage, delay_info: &DelayInfo) -> (r: Option<XmppEvent>)
        ensures
            (message.from is Some && message.to is Some) ==> (r matches Some(XmppEvent::MessageReceived { from, to, body, stanza_id, timestamp })
                && Some(from) == message.from && Some(to) == message.to && body@ == first_body(message.bodies@)
                && stanza_id@ == text_or_empty(message.id) && timestamp == Some(delay_info.stamp)),
            (message.from is None || message.to is None) ==> r is None,
    {
        let (from, to) = match (&message.from, &message.to) {
            (Some(f), Some(t)) => (f.clone(), t.clone()),
            _ => {
                return None;
            },
        };
        let body = if message.bodies.len() > 0 {
            message.bodies[0].clone()
        } else {
            String::new()
        };
        let stanza_id = match &message.id {
            Some(s) => s.clone(),
            None => String::new(),
        };
        Some(XmppEvent::MessageReceived { from, to, body, stanza_id, timestamp: Some(delay_info.stamp) })
    }
}

} // verus!
