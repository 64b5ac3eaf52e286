use provider_db::data::built_in_registry;
use provider_db::model::{Protocol, Provider, ProviderOptions, Server, Socket, Status,
    UsernamePattern};
use provider_db::transform::{modify, transform};

fn server(protocol: Protocol, hostname: &str, port: u16) -> Server {
    Server {
        protocol,
        socket: Socket::Ssl,
        hostname: hostname.to_string(),
        port,
        username_pattern: UsernamePattern::Email,
    }
}

fn provider_with_servers(servers: Vec<Server>) -> Provider {
    Provider {
        id: "test".to_string(),
        status: Status::Okay,
        before_login_hint: String::new(),
        after_login_hint: String::new(),
        overview_page: String::new(),
        server: servers,
        config_defaults: None,
        oauth2_authorizer: None,
        opt: ProviderOptions::new(),
    }
}

#[test]
fn modify_renders_port_and_empty_authentication() {
    let s = server(Protocol::Imap, "imap.example", 993);
    let m = modify(&s);
    assert!(matches!(m.server_type, Protocol::Imap));
    assert_eq!(m.hostname, "imap.example");
    assert_eq!(m.port, "993");
    assert!(matches!(m.socketType, Socket::Ssl));
    assert_eq!(m.authentication, "");
}

#[test]
fn modify_renders_extreme_ports() {
    assert_eq!(modify(&server(Protocol::Smtp, "h", 0)).port, "0");
    assert_eq!(modify(&server(Protocol::Smtp, "h", 65535)).port, "65535");
    assert_eq!(modify(&server(Protocol::Smtp, "h", 25)).port, "25");
}

#[test]
fn transform_partitions_by_protocol_keeping_source_order() {
    let p = provider_with_servers(vec![
        server(Protocol::Imap, "imap-one", 993),
        server(Protocol::Smtp, "smtp-one", 465),
        server(Protocol::Imap, "imap-two", 143),
    ]);
    let rec = transform("test.example", &p);
    assert_eq!(rec.domain, "test.example");
    let incoming = &rec.DeltaChat.incomingServers;
    let outgoing = &rec.DeltaChat.outgoingServers;
    assert_eq!(incoming.len() + outgoing.len(), p.server.len());
    assert_eq!(incoming.len(), 2);
    assert_eq!(incoming[0].hostname, "imap-one");
    assert_eq!(incoming[1].hostname, "imap-two");
    assert_eq!(outgoing.len(), 1);
    assert_eq!(outgoing[0].hostname, "smtp-one");
}

#[test]
fn transform_empty_server_list_yields_two_empty_lists() {
    let p = provider_with_servers(Vec::new());
    let rec = transform("empty.example", &p);
    assert!(rec.DeltaChat.incomingServers.is_empty());
    assert!(rec.DeltaChat.outgoingServers.is_empty());
}

#[test]
fn transform_gmail_scenario() {
    let reg = built_in_registry();
    let p = reg.lookup("gmail.com").expect("gmail.com must be a key");
    let rec = transform("gmail.com", p);
    assert_eq!(rec.domain, "gmail.com");
    assert_eq!(rec.DeltaChat.incomingServers.len(), 1);
    let inc = &rec.DeltaChat.incomingServers[0];
    assert!(matches!(inc.server_type, Protocol::Imap));
    assert_eq!(inc.hostname, "imap.gmail.com");
    assert_eq!(inc.port, "993");
    assert!(matches!(inc.socketType, Socket::Ssl));
    assert_eq!(inc.authentication, "");
    assert_eq!(rec.DeltaChat.outgoingServers.len(), 1);
    let out = &rec.DeltaChat.outgoingServers[0];
    assert!(matches!(out.server_type, Protocol::Smtp));
    assert_eq!(out.hostname, "smtp.gmail.com");
    assert_eq!(out.port, "465");
    assert!(matches!(out.socketType, Socket::Ssl));
    assert_eq!(out.authentication, "");
}

#[test]
fn aliased_domains_transform_identically_except_domain() {
    let reg = built_in_registry();
    let de = reg.lookup("posteo.de").expect("posteo.de must be a key");
    let it = reg.lookup("posteo.it").expect("posteo.it must be a key");
    let rec_de = transform("posteo.de", de);
    let rec_it = transform("posteo.it", it);
    assert_eq!(rec_de.domain, "posteo.de");
    assert_eq!(rec_it.domain, "posteo.it");
    let a = &rec_de.DeltaChat;
    let b = &rec_it.DeltaChat;
    assert_eq!(a.incomingServers.len(), b.incomingServers.len());
    assert_eq!(a.outgoingServers.len(), b.outgoingServers.len());
    for (x, y) in a.incomingServers.iter().zip(b.incomingServers.iter()) {
        assert_eq!(x.hostname, y.hostname);
        assert_eq!(x.port, y.port);
        assert_eq!(x.authentication, y.authentication);
    }
    for (x, y) in a.outgoingServers.iter().zip(b.outgoingServers.iter()) {
        assert_eq!(x.hostname, y.hostname);
        assert_eq!(x.port, y.port);
        assert_eq!(x.authentication, y.authentication);
    }
}

#[test]
fn wire_codes_match_the_wire_contract() {
    assert_eq!(Protocol::Smtp.code(), 1);
    assert_eq!(Protocol::Imap.code(), 2);
    assert_eq!(Socket::Automatic.code(), 0);
    assert_eq!(Socket::Ssl.code(), 1);
    assert_eq!(Socket::Starttls.code(), 2);
    assert_eq!(Socket::Plain.code(), 3);
    assert_eq!(Status::Okay.code(), 1);
    assert_eq!(Status::Preparation.code(), 2);
    assert_eq!(Status::Broken.code(), 3);
    assert_eq!(UsernamePattern::Email.code(), 1);
    assert_eq!(UsernamePattern::Emaillocalpart.code(), 2);
}
