use provider_db::data::built_in_registry;
use provider_db::json::record_json;
use provider_db::export::{export, export_lines};
use provider_db::model::{Protocol, Provider, ProviderOptions, Server, Socket, Status,
    UsernamePattern};
use provider_db::registry::{Registry, RegistryEntry};
use provider_db::transform::transform;

#[test]
fn export_emits_one_line_per_entry() {
    let reg = built_in_registry();
    let out = export(&reg);
    let line_count = out.matches('\n').count();
    assert_eq!(line_count, 318);
    assert_eq!(out.lines().count(), 318);
    assert!(out.ends_with('\n'));
    let lines = export_lines(&reg);
    assert_eq!(lines.len(), 318);
}

#[test]
fn export_twice_is_byte_identical() {
    let reg = built_in_registry();
    let first = export(&reg);
    let second = export(&reg);
    assert_eq!(first, second);
}

#[test]
fn every_line_is_valid_json_with_the_expected_shape() {
    let reg = built_in_registry();
    let out = export(&reg);
    let mut count = 0;
    for line in out.lines() {
        let v: serde_json::Value = serde_json::from_str(line).expect("line must parse as JSON");
        let obj = v.as_object().expect("line must be a JSON object");
        assert_eq!(obj.len(), 2);
        assert!(obj["domain"].is_string());
        let dc = obj["DeltaChat"].as_object().expect("DeltaChat must be an object");
        assert_eq!(dc.len(), 2);
        for key in ["incomingServers", "outgoingServers"] {
            for item in dc[key].as_array().expect("server lists must be arrays") {
                let m = item.as_object().expect("descriptor must be an object");
                assert_eq!(m.len(), 5);
                assert!(m["type"].is_u64());
                assert!(m["hostname"].is_string());
                assert!(m["port"].is_string());
                assert!(m["socketType"].is_u64());
                assert_eq!(m["authentication"].as_str(), Some(""));
            }
        }
        count += 1;
    }
    assert_eq!(count, 318);
}

#[test]
fn gmail_line_carries_the_wire_values() {
    let reg = built_in_registry();
    let p = reg.lookup("gmail.com").expect("gmail.com must be a key");
    let rec = transform("gmail.com", p);
    let line = record_json(&rec);
    let v: serde_json::Value = serde_json::from_str(&line).expect("must parse");
    assert_eq!(v["domain"].as_str(), Some("gmail.com"));
    let inc = &v["DeltaChat"]["incomingServers"];
    assert_eq!(inc.as_array().unwrap().len(), 1);
    assert_eq!(inc[0]["type"].as_u64(), Some(2));
    assert_eq!(inc[0]["hostname"].as_str(), Some("imap.gmail.com"));
    assert_eq!(inc[0]["port"].as_str(), Some("993"));
    assert_eq!(inc[0]["socketType"].as_u64(), Some(1));
    assert_eq!(inc[0]["authentication"].as_str(), Some(""));
    let out = &v["DeltaChat"]["outgoingServers"];
    assert_eq!(out.as_array().unwrap().len(), 1);
    assert_eq!(out[0]["type"].as_u64(), Some(1));
    assert_eq!(out[0]["hostname"].as_str(), Some("smtp.gmail.com"));
    assert_eq!(out[0]["port"].as_str(), Some("465"));
    assert_eq!(out[0]["socketType"].as_u64(), Some(1));
}

#[test]
fn comcast_line_has_two_empty_lists() {
    let reg = built_in_registry();
    let p = reg.lookup("comcast.net").expect("comcast.net must be a key");
    let rec = transform("comcast.net", p);
    let line = record_json(&rec);
    assert!(line.contains("\"incomingServers\":[],\"outgoingServers\":[]"));
    let v: serde_json::Value = serde_json::from_str(&line).expect("must parse");
    assert_eq!(v["DeltaChat"]["incomingServers"].as_array().unwrap().len(), 0);
    assert_eq!(v["DeltaChat"]["outgoingServers"].as_array().unwrap().len(), 0);
}

#[test]
fn example_alias_lines_differ_only_in_domain() {
    let reg = built_in_registry();
    let out = export(&reg);
    let mut found = Vec::new();
    for line in out.lines() {
        let v: serde_json::Value = serde_json::from_str(line).expect("must parse");
        let d = v["domain"].as_str().unwrap().to_string();
        if d == "example.com" || d == "example.org" || d == "example.net" {
            assert_eq!(
                v["DeltaChat"]["incomingServers"][0]["port"].as_str(),
                Some("1337")
            );
            assert_eq!(
                v["DeltaChat"]["outgoingServers"][0]["port"].as_str(),
                Some("1337")
            );
            found.push((d, v["DeltaChat"].clone()));
        }
    }
    assert_eq!(found.len(), 3);
    assert_eq!(found[0].1, found[1].1);
    assert_eq!(found[1].1, found[2].1);
}

#[test]
fn special_characters_are_escaped_and_round_trip() {
    let provider = Provider {
        id: "odd".to_string(),
        status: Status::Okay,
        before_login_hint: String::new(),
        after_login_hint: String::new(),
        overview_page: String::new(),
        server: vec![Server {
            protocol: Protocol::Imap,
            socket: Socket::Plain,
            hostname: "host\"with\\odd\nchars\tand\u{1}ctrl".to_string(),
            port: 143,
            username_pattern: UsernamePattern::Email,
        }],
        config_defaults: None,
        oauth2_authorizer: None,
        opt: ProviderOptions::new(),
    };
    let entries = vec![RegistryEntry {
        domain: "dom\"ain\n.example".to_string(),
        provider,
    }];
    let reg = Registry::new(entries);
    let out = export(&reg);
    // Still exactly one line: the newline in the data was escaped.
    assert_eq!(out.lines().count(), 1);
    let v: serde_json::Value = serde_json::from_str(out.lines().next().unwrap()).expect("parse");
    assert_eq!(v["domain"].as_str(), Some("dom\"ain\n.example"));
    assert_eq!(
        v["DeltaChat"]["incomingServers"][0]["hostname"].as_str(),
        Some("host\"with\\odd\nchars\tand\u{1}ctrl")
    );
}

#[test]
fn export_lines_match_the_concatenated_export() {
    let reg = built_in_registry();
    let out = export(&reg);
    let lines = export_lines(&reg);
    let joined: String = lines.iter().map(|l| format!("{}\n", l)).collect();
    assert_eq!(out, joined);
}
