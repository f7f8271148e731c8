use xmpp_client::jid::{create_message_jid, extract_bare_jid, Jid, JidError};
use xmpp_client::error::XmppError;

#[test]
fn test_jid_parsing() {
    let jid_str = "user@example.com/resource";
    let jid: Jid = jid_str.parse().unwrap();

    assert_eq!(jid.node(), Some("user"));
    assert_eq!(jid.domain(), "example.com");
    assert_eq!(jid.resource(), Some("resource"));

    let bare_jid_str = "user@example.com";
    let bare_jid: Jid = bare_jid_str.parse().unwrap();

    assert_eq!(bare_jid.node(), Some("user"));
    assert_eq!(bare_jid.domain(), "example.com");
    assert_eq!(bare_jid.resource(), None);
}

#[test]
fn jid_parts_are_normalised() {
    let jid = Jid::new("User@Example.COM/Home").unwrap();
    assert_eq!(jid.node(), Some("user"));
    assert_eq!(jid.domain(), "example.com");
    assert_eq!(jid.resource(), Some("Home"));
    assert_eq!(jid.to_string(), "user@example.com/Home");
}

#[test]
fn jid_domain_and_resource_forms() {
    let d = Jid::new("example.com").unwrap();
    assert_eq!(d.node(), None);
    assert_eq!(d.domain(), "example.com");
    assert_eq!(d.resource(), None);

    let dr = Jid::new("example.com/a@b/c").unwrap();
    assert_eq!(dr.node(), None);
    assert_eq!(dr.domain(), "example.com");
    assert_eq!(dr.resource(), Some("a@b/c"));

    let full = Jid::new("u@example.com/r/x@y").unwrap();
    assert_eq!(full.resource(), Some("r/x@y"));
}

#[test]
fn jid_errors() {
    assert_eq!(Jid::new("a@b@c"), Err(JidError::TooManyAts));
    assert_eq!(Jid::new("@example.com"), Err(JidError::NodeEmpty));
    assert_eq!(Jid::new("user@example.com/"), Err(JidError::ResourceEmpty));
}

#[test]
fn full_jid_round_trip() {
    let jid = create_message_jid("user@localhost", Some("xmpp-client")).unwrap();
    assert_eq!(jid.node(), Some("user"));
    assert_eq!(jid.domain(), "localhost");
    assert_eq!(jid.resource(), Some("xmpp-client"));
    assert_eq!(jid.to_string(), "user@localhost/xmpp-client");
    assert_eq!(extract_bare_jid(&jid), "user@localhost");
    assert_eq!(jid.to_bare().to_string(), "user@localhost");

    let bare = create_message_jid("user@localhost", None).unwrap();
    assert_eq!(bare.resource(), None);
}

#[test]
fn create_message_jid_reports_invalid_jid() {
    match create_message_jid("a@b@c", Some("r")) {
        Err(XmppError::InvalidJid(m)) => {
            assert_eq!(m, "Invalid JID: second @ found before parsing the resource");
        }
        other => panic!("unexpected {:?}", other),
    }
    let e = create_message_jid("a@b@c", None).unwrap_err();
    assert_eq!(e.to_string(), "Invalid JID: Invalid JID: second @ found before parsing the resource");
}

#[test]
fn bare_jid_without_node() {
    let d = Jid::new("example.com/res").unwrap();
    assert_eq!(extract_bare_jid(&d), "@example.com");
}

#[test]
fn resource_is_prepared() {
    let jid = Jid::new("a@example.com/x\u{00AD}y\u{FB00}").unwrap();
    assert_eq!(jid.resource(), Some("xyff"));
}

#[test]
fn jid_error_messages() {
    assert_eq!(JidError::NodePrep.to_string(), "localpart doesn\u{2019}t pass nodeprep validation");
    assert_eq!(JidError::Idna.to_string(), "domain doesn\u{2019}t pass idna validation");
    assert_eq!(JidError::TooManyAts.to_string(), "second @ found before parsing the resource");
}
