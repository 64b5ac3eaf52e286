use provider_db::data::built_in_registry;
use provider_db::model::{Oauth2Authorizer, Protocol, Socket, Status, UsernamePattern};

#[test]
fn registry_has_all_entries() {
    let reg = built_in_registry();
    assert_eq!(reg.len(), 318);
    assert_eq!(reg.entries().len(), 318);
}

#[test]
fn registry_keeps_registration_order() {
    let reg = built_in_registry();
    let entries = reg.entries();
    assert_eq!(entries[0].domain, "163.com");
    assert_eq!(entries[0].provider.id, "163");
    assert_eq!(entries[317].domain, "zoho.com");
    assert_eq!(entries[317].provider.id, "zoho");
}

#[test]
fn lookup_gmail_profile() {
    let reg = built_in_registry();
    let p = reg.lookup("gmail.com").expect("gmail.com must be a key");
    assert_eq!(p.id, "gmail");
    assert!(matches!(p.status, Status::Preparation));
    assert!(matches!(p.oauth2_authorizer, Some(Oauth2Authorizer::Gmail)));
    assert_eq!(p.server.len(), 2);
    let imap = &p.server[0];
    assert!(matches!(imap.protocol, Protocol::Imap));
    assert!(matches!(imap.socket, Socket::Ssl));
    assert_eq!(imap.hostname, "imap.gmail.com");
    assert_eq!(imap.port, 993);
    assert!(matches!(imap.username_pattern, UsernamePattern::Email));
    let smtp = &p.server[1];
    assert!(matches!(smtp.protocol, Protocol::Smtp));
    assert!(matches!(smtp.socket, Socket::Ssl));
    assert_eq!(smtp.hostname, "smtp.gmail.com");
    assert_eq!(smtp.port, 465);
    assert!(matches!(smtp.username_pattern, UsernamePattern::Email));
}

#[test]
fn lookup_example_aliases_resolve_to_same_broken_provider() {
    let reg = built_in_registry();
    let com = reg.lookup("example.com").expect("example.com must be a key");
    let org = reg.lookup("example.org").expect("example.org must be a key");
    let net = reg.lookup("example.net").expect("example.net must be a key");
    for p in [com, org, net] {
        assert_eq!(p.id, "example.com");
        assert!(matches!(p.status, Status::Broken));
        assert!(!p.before_login_hint.is_empty());
        assert_eq!(p.server.len(), 2);
        assert_eq!(p.server[0].port, 1337);
        assert_eq!(p.server[1].port, 1337);
    }
}

#[test]
fn lookup_misses_unknown_domain() {
    let reg = built_in_registry();
    assert!(reg.lookup("not-a-registered-domain.invalid").is_none());
    assert!(reg.lookup("").is_none());
}

#[test]
fn lookup_is_exact_match_only() {
    let reg = built_in_registry();
    // A wildcard entry is a literal key: it matches itself, not a
    // domain under it.
    assert!(reg.lookup("*.hermes.radio").is_some());
    assert!(reg.lookup("station.hermes.radio").is_none());
    // Lookup is case-sensitive.
    assert!(reg.lookup("GMAIL.COM").is_none());
}

#[test]
fn lookup_comcast_has_no_servers() {
    let reg = built_in_registry();
    let p = reg.lookup("comcast.net").expect("comcast.net must be a key");
    assert!(p.server.is_empty());
    let p2 = reg.lookup("xfinity.com").expect("xfinity.com must be a key");
    assert_eq!(p2.id, p.id);
}
