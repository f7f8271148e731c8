//! Jabber identifiers: `node@domain/resource`, node and resource optional.
//!
//! Parsing a JID, that is splitting it into its parts and validating and
//! normalising each (nodeprep, nameprep with IDNA, resourceprep, and the
//! length limits), is done by the `jid` crate.
use vstd::prelude::*;

use xmpp_parsers::jid::Error as JidParseError;

use crate::error::XmppError;

verus! {

/// Why a string is not a JID.
#[derive(Clone, Copy, Debug, PartialEq, Eq, Structural)]
pub enum JidError {
    NodeEmpty,
    ResourceEmpty,
    NodeTooLong,
    ResourceTooLong,
    NodePrep,
    NamePrep,
    ResourcePrep,
    TooManyAts,
    Idna,
    ResourceMissingInFullJid,
    ResourceInBareJid,
}

/// The parts of a JID as sequences of characters.
pub struct JidView {
    pub node: Option<Seq<char>>,
    pub domain: Seq<char>,
    pub resource: Option<Seq<char>>,
}

pub open spec fn parts_view(
    node: Option<Seq<char>>,
    domain: Seq<char>,
    resource: Option<Seq<char>>,
) -> JidView {
    JidView { node, domain, resource }
}

/// What `jid::Jid::new` makes of a text: the normalised parts, or why the
/// text is not a JID.
pub uninterp spec fn jid_parse_of(s: Seq<char>) -> Result<JidView, JidError>;

pub open spec fn option_view(o: Option<String>) -> Option<Seq<char>> {
    match o {
        Some(s) => Some(s@),
        None => None,
    }
}

/// A parsed JID. The parts hold their prepared (normalised) form.
#[derive(Debug, PartialEq, Eq)]
pub struct Jid {
    pub node: Option<String>,
    pub domain: String,
    pub resource: Option<String>,
}

impl View for Jid {
    type V = JidView;

    open spec fn view(&self) -> JidView {
        JidView { node: option_view(self.node), domain: self.domain@, resource: option_view(self.resource) }
    }
}

pub fn clone_option_string(o: &Option<String>) -> (r: Option<String>)
    ensures
        r == *o,
{
    match o {
        Some(s) => Some(s.clone()),
        None => None,
    }
}

impl Clone for Jid {
    fn clone(&self) -> (r: Self)
        ensures
            r == *self,
    {
        Jid {
            node: clone_option_string(&self.node),
            domain: self.domain.clone(),
            resource: clone_option_string(&self.resource),
        }
    }
}

/// The text of a JID: `node@domain/resource`, without the absent parts.
pub open spec fn jid_text(j: JidView) -> Seq<char> {
    let with_node = match j.node {
        Some(n) => n + seq!['@'] + j.domain,
        None => j.domain,
    };
    match j.resource {
        Some(r) => with_node + seq!['/'] + r,
        None => with_node,
    }
}

/// The bare text `node@domain` of a JID, with an empty node where it has none.
pub open spec fn bare_text(j: JidView) -> Seq<char> {
    let n = match j.node {
        Some(n) => n,
        None => Seq::<char>::empty(),
    };
    n + seq!['@'] + j.domain
}

pub open spec fn jid_result_view(r: Result<Jid, JidError>) -> Result<JidView, JidError> {
    match r {
        Ok(j) => Ok(j@),
        Err(e) => Err(e),
    }
}

/// Relies on `jid::Jid::new`: splits `node@domain/resource`, prepares each
/// part, and reports the first error met.
#[verifier::external_body]
fn parse_jid(s: &str) -> (r: Result<Jid, JidError>)
    ensures
        jid_result_view(r) == jid_parse_of(s@),
{
    let e = match xmpp_parsers::jid::Jid::new(s) {
        Ok(j) => return Ok(Jid { node: j.node().map(|n| n.as_str().to_string()),
            domain: j.domain().as_str().to_string(), resource: j.resource().map(|r| r.as_str().to_string()) }),
        Err(e) => e,
    };
    Err(match e {
        JidParseError::NodeEmpty => JidError::NodeEmpty, JidParseError::ResourceEmpty => JidError::ResourceEmpty,
        JidParseError::NodeTooLong => JidError::NodeTooLong, JidParseError::ResourceTooLong => JidError::ResourceTooLong,
        JidParseError::NodePrep => JidError::NodePrep, JidParseError::NamePrep => JidError::NamePrep,
        JidParseError::ResourcePrep => JidError::ResourcePrep, JidParseError::TooManyAts => JidError::TooManyAts,
        JidParseError::Idna => JidError::Idna, JidParseError::ResourceMissingInFullJid => JidError::ResourceMissingInFullJid,
        JidParseError::ResourceInBareJid => JidError::ResourceInBareJid,
    })
}

impl Jid {
    /// Parses and normalises a JID.
    pub fn new(s: &str) -> (r: Result<Jid, JidError>)
        ensures
            jid_result_view(r) == jid_parse_of(s@),
    {
        parse_jid(s)
    }

    pub fn node(&self) -> (r: Option<&str>)
        ensures
            (r matches Some(n) ==> self.node matches Some(m) && n@ == m@),
            r is None <==> self.node is None,
    {
        match &self.node {
            Some(n) => Some(n.as_str()),
            None => None,
        }
    }

    pub fn domain(&self) -> (r: &str)
        ensures
            r@ == self.domain@,
    {
        self.domain.as_str()
    }

    pub fn resource(&self) -> (r: Option<&str>)
        ensures
            (r matches Some(n) ==> self.resource matches Some(m) && n@ == m@),
            r is None <==> self.resource is None,
    {
        match &self.resource {
            Some(n) => Some(n.as_str()),
            None => None,
        }
    }

    /// The text `node@domain/resource` of this JID.
    pub fn to_string(&self) -> (r: String)
        ensures
            r@ == jid_text(self@),
    {
        proof {
            reveal_strlit("@");
            reveal_strlit("/");
            assert("@"@ =~= seq!['@']);
            assert("/"@ =~= seq!['/']);
        }
        let mut out = match &self.node {
            Some(n) => n.clone().concat("@").concat(self.domain.as_str()),
            None => self.domain.clone(),
        };
        match &self.resource {
            Some(r) => {
                out = out.concat("/").concat(r.as_str());
            },
            None => {},
        }
        out
    }

    /// This JID without its resource.
    pub fn to_bare(&self) -> (r: Jid)
        ensures
            r@ == parts_view(self@.node, self@.domain, None),
    {
        Jid { node: clone_option_string(&self.node), domain: self.domain.clone(), resource: None }
    }
}

/// Whether two texts are equal.
pub fn text_eq(a: &str, b: &str) -> (r: bool)
    ensures
        r == (a@ == b@),
{
    let n = a.unicode_len();
    if n != b.unicode_len() {
        return false;
    }
    let mut i: usize = 0;
    while i < n
        invariant
            i <= n,
            n == a@.len(),
            n == b@.len(),
            forall|k: int| 0 <= k < i ==> a@[k] == b@[k],
        decreases n - i,
    {
        if a.get_char(i) != b.get_char(i) {
            return false;
        }
        i = i + 1;
    }
    assert(a@ =~= b@);
    true
}

fn option_text_eq(a: &Option<String>, b: &Option<String>) -> (r: bool)
    ensures
        r == (option_view(*a) == option_view(*b)),
{
    match (a, b) {
        (Some(x), Some(y)) => text_eq(x.as_str(), y.as_str()),
        (None, None) => true,
        _ => false,
    }
}

/// Whether two JIDs have the same parts.
pub fn jid_eq(a: &Jid, b: &Jid) -> (r: bool)
    ensures
        r == (a@ == b@),
{
    option_text_eq(&a.node, &b.node) && text_eq(a.domain.as_str(), b.domain.as_str())
        && option_text_eq(&a.resource, &b.resource)
}

impl core::str::FromStr for Jid {
    type Err = JidError;

    fn from_str(s: &str) -> Result<Jid, JidError> {
        Jid::new(s)
    }
}


/// The message of a JID error.
pub open spec fn jid_error_text(e: JidError) -> Seq<char> {
    match e {
        JidError::NodeEmpty => "nodepart empty despite the presence of a @"@,
        JidError::ResourceEmpty => "resource empty despite the presence of a /"@,
        JidError::NodeTooLong => "localpart longer than 1023 bytes"@,
        JidError::ResourceTooLong => "resource longer than 1023 bytes"@,
        JidError::NodePrep => "localpart doesn’t pass nodeprep validation"@,
        JidError::NamePrep => "domain doesn’t pass nameprep validation"@,
        JidError::ResourcePrep => "resource doesn’t pass resourceprep validation"@,
        JidError::TooManyAts => "second @ found before parsing the resource"@,
        JidError::Idna => "domain doesn’t pass idna validation"@,
        JidError::ResourceMissingInFullJid => "no resource found in this full JID"@,
        JidError::ResourceInBareJid => "resource found while parsing a bare JID"@,
    }
}

impl JidError {
    /// The message of this error.
    pub fn to_string(&self) -> (r: String)
        ensures
            r@ == jid_error_text(*self),
    {
        let s = match self {
            JidError::NodeEmpty => "nodepart empty despite the presence of a @",
            JidError::ResourceEmpty => "resource empty despite the presence of a /",
            JidError::NodeTooLong => "localpart longer than 1023 bytes",
            JidError::ResourceTooLong => "resource longer than 1023 bytes",
            JidError::NodePrep => "localpart doesn’t pass nodeprep validation",
            JidError::NamePrep => "domain doesn’t pass nameprep validation",
            JidError::ResourcePrep => "resource doesn’t pass resourceprep validation",
            JidError::TooManyAts => "second @ found before parsing the resource",
            JidError::Idna => "domain doesn’t pass idna validation",
            JidError::ResourceMissingInFullJid => "no resource found in this full JID",
            JidError::ResourceInBareJid => "resource found while parsing a bare JID",
        };
        String::from_str(s)
    }
}

/// The text `jid/resource`, or `jid` alone.
pub open spec fn full_text(jid: Seq<char>, resource: Option<Seq<char>>) -> Seq<char> {
    match resource {
        Some(r) => jid + seq!['/'] + r,
        None => jid,
    }
}

/// What `create_message_jid` returns for a JID text and an optional resource.
pub open spec fn create_message_jid_result(r: Result<Jid, XmppError>, jid: Seq<char>, resource: Option<Seq<char>>) -> bool {
    match jid_parse_of(full_text(jid, resource)) {
        Ok(v) => r matches Ok(j) && j@ == v,
        Err(e) => r matches Err(XmppError::InvalidJid(m)) && m@ == "Invalid JID: "@ + jid_error_text(e),
    }
}

/// Builds the JID `jid/resource` (or `jid` alone) and parses it.
pub fn create_message_jid(jid: &str, resource: Option<&str>) -> (r: Result<Jid, XmppError>)
    ensures
        create_message_jid_result(r, jid@, match resource { Some(s) => Some(s@), None => None }),
{
    proof {
        reveal_strlit("/");
        assert("/"@ =~= seq!['/']);
    }
    let full = match resource {
        Some(res) => String::from_str(jid).concat("/").concat(res),
        None => String::from_str(jid),
    };
    match Jid::new(full.as_str()) {
        Ok(j) => Ok(j),
        Err(e) => Err(XmppError::InvalidJid(String::from_str("Invalid JID: ").concat(e.to_string().as_str()))),
    }
}

/// The bare text `node@domain` of a JID.
pub fn extract_bare_jid(jid: &Jid) -> (r: String)
    ensures
        r@ == bare_text(jid@),
{
    proof {
        reveal_strlit("@");
        assert("@"@ =~= seq!['@']);
    }
    let node = match &jid.node {
        Some(n) => n.clone(),
        None => String::new(),
    };
    node.concat("@").concat(jid.domain.as_str())
}

} // verus!
