use provider_db::config::Config;
use provider_db::data::built_in_registry;
use provider_db::model::{Oauth2Authorizer, ProviderOptions};

#[test]
fn provider_options_defaults() {
    let opt = ProviderOptions::new();
    assert!(opt.strict_tls);
    assert!(opt.max_smtp_rcpt_to.is_none());
    assert!(!opt.delete_to_trash);
}

#[test]
fn config_keys_with_documented_defaults() {
    assert_eq!(Config::BccSelf.default_value(), Some("1"));
    assert_eq!(Config::E2eeEnabled.default_value(), Some("1"));
    assert_eq!(Config::SentboxWatch.default_value(), Some("0"));
    assert_eq!(Config::ShowEmails.default_value(), Some("2"));
    assert_eq!(Config::ScanAllFoldersDebounceSecs.default_value(), Some("60"));
    assert_eq!(Config::GossipPeriod.default_value(), Some("172800"));
}

#[test]
fn config_keys_without_defaults() {
    assert_eq!(Config::Addr.default_value(), None);
    assert_eq!(Config::MailServer.default_value(), None);
    assert_eq!(Config::DeleteToTrash.default_value(), None);
    assert_eq!(Config::SysVersion.default_value(), None);
}

#[test]
fn oauth2_wire_codes() {
    assert_eq!(Oauth2Authorizer::Yandex.code(), 1);
    assert_eq!(Oauth2Authorizer::Gmail.code(), 2);
}

#[test]
fn provider_invariants_hold_over_the_data_set() {
    let reg = built_in_registry();
    for entry in reg.entries() {
        let p = &entry.provider;
        assert!(!p.id.is_empty());
        assert!(!entry.domain.is_empty());
        for s in &p.server {
            assert!(!s.hostname.is_empty());
            assert!(s.port >= 1);
        }
        // A broken provider offering OAuth 2 would be a contradiction.
        if p.oauth2_authorizer.is_some() {
            assert!(!matches!(p.status, provider_db::model::Status::Broken));
        }
    }
}

#[test]
fn yandex_uses_oauth2() {
    let reg = built_in_registry();
    let p = reg.lookup("yandex.ru").expect("yandex.ru must be a key");
    assert!(matches!(p.oauth2_authorizer, Some(Oauth2Authorizer::Yandex)));
}
