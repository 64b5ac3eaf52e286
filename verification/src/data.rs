//! The built-in provider data set: the registry of known providers,
//! constructed once at startup in a fixed registration order.

use vstd::prelude::*;
use vstd::string::StringExecFns;
use crate::config::Config;
use crate::model::{ConfigDefault, Oauth2Authorizer, Protocol, Provider, ProviderOptions,
    Server, Socket, Status, UsernamePattern};
use crate::registry::{Registry, RegistryEntry};

verus! {

/// The 163 provider record.
fn p_163() -> Provider {
    let mut server: Vec<Server> = Vec::new();
    server.push(Server {
        protocol: Protocol::Imap,
        socket: Socket::Ssl,
        hostname: String::from_str("imap.163.com"),
        port: 993,
        username_pattern: UsernamePattern::Email,
    });
    server.push(Server {
        protocol: Protocol::Smtp,
        socket: Socket::Ssl,
        hostname: String::from_str("smtp.163.com"),
        port: 465,
        username_pattern: UsernamePattern::Email,
    });
    Provider {
        id: String::from_str("163"),
        status: Status::Okay,
        before_login_hint: String::from_str(""),
        after_login_hint: String::from_str(""),
        overview_page: String::from_str("https://providers.delta.chat/163"),
        server,
        config_defaults: None,
        oauth2_authorizer: None,
        opt: ProviderOptions::new(),
    }
}

/// The aktivix.org provider record.
fn p_aktivix_org() -> Provider {
    let mut server: Vec<Server> = Vec::new();
    server.push(Server {
        protocol: Protocol::Imap,
        socket: Socket::Starttls,
        hostname: String::from_str("newyear.aktivix.org"),
        port: 143,
        username_pattern: UsernamePattern::Email,
    });
    server.push(Server {
        protocol: Protocol::Smtp,
        socket: Socket::Starttls,
        hostname: String::from_str("newyear.aktivix.org"),
        port: 587,
        username_pattern: UsernamePattern::Email,
    });
    Provider {
        id: String::from_str("aktivix.org"),
        status: Status::Okay,
        before_login_hint: String::from_str(""),
        after_login_hint: String::from_str(""),
        overview_page: String::from_str("https://providers.delta.chat/aktivix-org"),
        server,
        config_defaults: None,
        oauth2_authorizer: None,
        opt: ProviderOptions::new(),
    }
}

/// The aol provider record.
fn p_aol() -> Provider {
    let mut server: Vec<Server> = Vec::new();
    server.push(Server {
        protocol: Protocol::Imap,
        socket: Socket::Ssl,
        hostname: String::from_str("imap.aol.com"),
        port: 993,
        username_pattern: UsernamePattern::Email,
    });
    server.push(Server {
        protocol: Protocol::Smtp,
        socket: Socket::Ssl,
        hostname: String::from_str("smtp.aol.com"),
        port: 465,
        username_pattern: UsernamePattern::Email,
    });
    Provider {
        id: String::from_str("aol"),
        status: Status::Preparation,
        before_login_hint: String::from_str("To log in to AOL with Delta Chat, you need to set up an app password in the AOL web interface."),
        after_login_hint: String::from_str(""),
        overview_page: String::from_str("https://providers.delta.chat/aol"),
        server,
        config_defaults: None,
        oauth2_authorizer: None,
        opt: ProviderOptions::new(),
    }
}

/// The arcor.de provider record.
fn p_arcor_de() -> Provider {
    let mut server: Vec<Server> = Vec::new();
    server.push(Server {
        protocol: Protocol::Imap,
        socket: Socket::Ssl,
        hostname: String::from_str("imap.arcor.de"),
        port: 993,
        username_pattern: UsernamePattern::Email,
    });
    server.push(Server {
        protocol: Protocol::Smtp,
        socket: Socket::Ssl,
        hostname: String::from_str("mail.arcor.de"),
        port: 465,
        username_pattern: UsernamePattern::Email,
    });
    Provider {
        id: String::from_str("arcor.de"),
        status: Status::Okay,
        before_login_hint: String::from_str(""),
        after_login_hint: String::from_str(""),
        overview_page: String::from_str("https://providers.delta.chat/arcor-de"),
        server,
        config_defaults: None,
        oauth2_authorizer: None,
        opt: ProviderOptions::new(),
    }
}

/// The autistici.org provider record.
fn p_autistici_org() -> Provider {
    let mut server: Vec<Server> = Vec::new();
    server.push(Server {
        protocol: Protocol::Imap,
        socket: Socket::Ssl,
        hostname: String::from_str("mail.autistici.org"),
        port: 993,
        username_pattern: UsernamePattern::Email,
    });
    server.push(Server {
        protocol: Protocol::Smtp,
        socket: Socket::Ssl,
        hostname: String::from_str("smtp.autistici.org"),
        port: 465,
        username_pattern: UsernamePattern::Email,
    });
    Provider {
        id: String::from_str("autistici.org"),
        status: Status::Okay,
        before_login_hint: String::from_str(""),
        after_login_hint: String::from_str(""),
        overview_page: String::from_str("https://providers.delta.chat/autistici-org"),
        server,
        config_defaults: None,
        oauth2_authorizer: None,
        opt: ProviderOptions::new(),
    }
}

/// The blindzeln.org provider record.
fn p_blindzeln_org() -> Provider {
    let mut server: Vec<Server> = Vec::new();
    server.push(Server {
        protocol: Protocol::Imap,
        socket: Socket::Ssl,
        hostname: String::from_str("webbox222.server-home.org"),
        port: 993,
        username_pattern: UsernamePattern::Email,
    });
    server.push(Server {
        protocol: Protocol::Smtp,
        socket: Socket::Ssl,
        hostname: String::from_str("webbox222.server-home.org"),
        port: 465,
        username_pattern: UsernamePattern::Email,
    });
    Provider {
        id: String::from_str("blindzeln.org"),
        status: Status::Okay,
        before_login_hint: String::from_str(""),
        after_login_hint: String::from_str(""),
        overview_page: String::from_str("https://providers.delta.chat/blindzeln-org"),
        server,
        config_defaults: None,
        oauth2_authorizer: None,
        opt: ProviderOptions::new(),
    }
}

/// The bluewin.ch provider record.
fn p_bluewin_ch() -> Provider {
    let mut server: Vec<Server> = Vec::new();
    server.push(Server {
        protocol: Protocol::Imap,
        socket: Socket::Ssl,
        hostname: String::from_str("imaps.bluewin.ch"),
        port: 993,
        username_pattern: UsernamePattern::Email,
    });
    server.push(Server {
        protocol: Protocol::Smtp,
        socket: Socket::Ssl,
        hostname: String::from_str("smtpauths.bluewin.ch"),
        port: 465,
        username_pattern: UsernamePattern::Email,
    });
    Provider {
        id: String::from_str("bluewin.ch"),
        status: Status::Okay,
        before_login_hint: String::from_str(""),
        after_login_hint: String::from_str(""),
        overview_page: String::from_str("https://providers.delta.chat/bluewin-ch"),
        server,
        config_defaults: None,
        oauth2_authorizer: None,
        opt: ProviderOptions::new(),
    }
}

/// The buzon.uy provider record.
fn p_buzon_uy() -> Provider {
    let mut server: Vec<Server> = Vec::new();
    server.push(Server {
        protocol: Protocol::Imap,
        socket: Socket::Starttls,
        hostname: String::from_str("mail.buzon.uy"),
        port: 143,
        username_pattern: UsernamePattern::Email,
    });
    server.push(Server {
        protocol: Protocol::Smtp,
        socket: Socket::Starttls,
        hostname: String::from_str("mail.buzon.uy"),
        port: 587,
        username_pattern: UsernamePattern::Email,
    });
    Provider {
        id: String::from_str("buzon.uy"),
        status: Status::Okay,
        before_login_hint: String::from_str(""),
        after_login_hint: String::from_str(""),
        overview_page: String::from_str("https://providers.delta.chat/buzon-uy"),
        server,
        config_defaults: None,
        oauth2_authorizer: None,
        opt: ProviderOptions::new(),
    }
}

/// The c1.testrun.org provider record.
fn p_c1_testrun_org() -> Provider {
    let mut server: Vec<Server> = Vec::new();
    server.push(Server {
        protocol: Protocol::Imap,
        socket: Socket::Ssl,
        hostname: String::from_str("c1.testrun.org"),
        port: 993,
        username_pattern: UsernamePattern::Email,
    });
    server.push(Server {
        protocol: Protocol::Smtp,
        socket: Socket::Ssl,
        hostname: String::from_str("c1.testrun.org"),
        port: 465,
        username_pattern: UsernamePattern::Email,
    });
    let mut defaults: Vec<ConfigDefault> = Vec::new();
    defaults.push(ConfigDefault { key: Config::MvboxMove, value: String::from_str("0") });
    Provider {
        id: String::from_str("c1.testrun.org"),
        status: Status::Okay,
        before_login_hint: String::from_str(""),
        after_login_hint: String::from_str(""),
        overview_page: String::from_str("https://providers.delta.chat/c1-testrun-org"),
        server,
        config_defaults: Some(defaults),
        oauth2_authorizer: None,
        opt: ProviderOptions::new(),
    }
}

/// The c2.testrun.org provider record.
fn p_c2_testrun_org() -> Provider {
    let mut server: Vec<Server> = Vec::new();
    server.push(Server {
        protocol: Protocol::Imap,
        socket: Socket::Ssl,
        hostname: String::from_str("c2.testrun.org"),
        port: 993,
        username_pattern: UsernamePattern::Email,
    });
    server.push(Server {
        protocol: Protocol::Smtp,
        socket: Socket::Ssl,
        hostname: String::from_str("c2.testrun.org"),
        port: 465,
        username_pattern: UsernamePattern::Email,
    });
    let mut defaults: Vec<ConfigDefault> = Vec::new();
    defaults.push(ConfigDefault { key: Config::MvboxMove, value: String::from_str("0") });
    Provider {
        id: String::from_str("c2.testrun.org"),
        status: Status::Okay,
        before_login_hint: String::from_str(""),
        after_login_hint: String::from_str(""),
        overview_page: String::from_str("https://providers.delta.chat/c2-testrun-org"),
        server,
        config_defaults: Some(defaults),
        oauth2_authorizer: None,
        opt: ProviderOptions::new(),
    }
}

/// The c3.testrun.org provider record.
fn p_c3_testrun_org() -> Provider {
    let mut server: Vec<Server> = Vec::new();
    server.push(Server {
        protocol: Protocol::Imap,
        socket: Socket::Ssl,
        hostname: String::from_str("c3.testrun.org"),
        port: 993,
        username_pattern: UsernamePattern::Email,
    });
    server.push(Server {
        protocol: Protocol::Smtp,
        socket: Socket::Ssl,
        hostname: String::from_str("c3.testrun.org"),
        port: 465,
        username_pattern: UsernamePattern::Email,
    });
    let mut defaults: Vec<ConfigDefault> = Vec::new();
    defaults.push(ConfigDefault { key: Config::MvboxMove, value: String::from_str("0") });
    Provider {
        id: String::from_str("c3.testrun.org"),
        status: Status::Okay,
        before_login_hint: String::from_str(""),
        after_login_hint: String::from_str(""),
        overview_page: String::from_str("https://providers.delta.chat/c3-testrun-org"),
        server,
        config_defaults: Some(defaults),
        oauth2_authorizer: None,
        opt: ProviderOptions::new(),
    }
}

/// The chello.at provider record.
fn p_chello_at() -> Provider {
    let mut server: Vec<Server> = Vec::new();
    server.push(Server {
        protocol: Protocol::Imap,
        socket: Socket::Ssl,
        hostname: String::from_str("mail.mymagenta.at"),
        port: 993,
        username_pattern: UsernamePattern::Email,
    });
    server.push(Server {
        protocol: Protocol::Smtp,
        socket: Socket::Ssl,
        hostname: String::from_str("mail.mymagenta.at"),
        port: 465,
        username_pattern: UsernamePattern::Email,
    });
    Provider {
        id: String::from_str("chello.at"),
        status: Status::Okay,
        before_login_hint: String::from_str(""),
        after_login_hint: String::from_str(""),
        overview_page: String::from_str("https://providers.delta.chat/chello-at"),
        server,
        config_defaults: None,
        oauth2_authorizer: None,
        opt: ProviderOptions::new(),
    }
}

/// The comcast provider record.
fn p_comcast() -> Provider {
    let mut server: Vec<Server> = Vec::new();
    Provider {
        id: String::from_str("comcast"),
        status: Status::Okay,
        before_login_hint: String::from_str(""),
        after_login_hint: String::from_str(""),
        overview_page: String::from_str("https://providers.delta.chat/comcast"),
        server,
        config_defaults: None,
        oauth2_authorizer: None,
        opt: ProviderOptions::new(),
    }
}

/// The dismail.de provider record.
fn p_dismail_de() -> Provider {
    let mut server: Vec<Server> = Vec::new();
    Provider {
        id: String::from_str("dismail.de"),
        status: Status::Okay,
        before_login_hint: String::from_str(""),
        after_login_hint: String::from_str(""),
        overview_page: String::from_str("https://providers.delta.chat/dismail-de"),
        server,
        config_defaults: None,
        oauth2_authorizer: None,
        opt: ProviderOptions::new(),
    }
}

/// The disroot provider record.
fn p_disroot() -> Provider {
    let mut server: Vec<Server> = Vec::new();
    server.push(Server {
        protocol: Protocol::Imap,
        socket: Socket::Ssl,
        hostname: String::from_str("disroot.org"),
        port: 993,
        username_pattern: UsernamePattern::Email,
    });
    server.push(Server {
        protocol: Protocol::Smtp,
        socket: Socket::Starttls,
        hostname: String::from_str("disroot.org"),
        port: 587,
        username_pattern: UsernamePattern::Email,
    });
    Provider {
        id: String::from_str("disroot"),
        status: Status::Okay,
        before_login_hint: String::from_str(""),
        after_login_hint: String::from_str(""),
        overview_page: String::from_str("https://providers.delta.chat/disroot"),
        server,
        config_defaults: None,
        oauth2_authorizer: None,
        opt: ProviderOptions::new(),
    }
}

/// The e.email provider record.
fn p_e_email() -> Provider {
    let mut server: Vec<Server> = Vec::new();
    server.push(Server {
        protocol: Protocol::Imap,
        socket: Socket::Ssl,
        hostname: String::from_str("mail.ecloud.global"),
        port: 993,
        username_pattern: UsernamePattern::Email,
    });
    server.push(Server {
        protocol: Protocol::Smtp,
        socket: Socket::Starttls,
        hostname: String::from_str("mail.ecloud.global"),
        port: 587,
        username_pattern: UsernamePattern::Email,
    });
    Provider {
        id: String::from_str("e.email"),
        status: Status::Okay,
        before_login_hint: String::from_str(""),
        after_login_hint: String::from_str(""),
        overview_page: String::from_str("https://providers.delta.chat/e-email"),
        server,
        config_defaults: None,
        oauth2_authorizer: None,
        opt: ProviderOptions::new(),
    }
}

/// The espiv.net provider record.
fn p_espiv_net() -> Provider {
    let mut server: Vec<Server> = Vec::new();
    Provider {
        id: String::from_str("espiv.net"),
        status: Status::Okay,
        before_login_hint: String::from_str(""),
        after_login_hint: String::from_str(""),
        overview_page: String::from_str("https://providers.delta.chat/espiv-net"),
        server,
        config_defaults: None,
        oauth2_authorizer: None,
        opt: ProviderOptions::new(),
    }
}

/// The example.com provider record.
fn p_example_com() -> Provider {
    let mut server: Vec<Server> = Vec::new();
    server.push(Server {
        protocol: Protocol::Imap,
        socket: Socket::Ssl,
        hostname: String::from_str("imap.example.com"),
        port: 1337,
        username_pattern: UsernamePattern::Email,
    });
    server.push(Server {
        protocol: Protocol::Smtp,
        socket: Socket::Starttls,
        hostname: String::from_str("smtp.example.com"),
        port: 1337,
        username_pattern: UsernamePattern::Email,
    });
    Provider {
        id: String::from_str("example.com"),
        status: Status::Broken,
        before_login_hint: String::from_str("Hush this provider doesn't exist!"),
        after_login_hint: String::from_str("This provider doesn't really exist, so you can't use it :/ If you need an email provider for Delta Chat, take a look at providers.delta.chat!"),
        overview_page: String::from_str("https://providers.delta.chat/example-com"),
        server,
        config_defaults: None,
        oauth2_authorizer: None,
        opt: ProviderOptions::new(),
    }
}

/// The fastmail provider record.
fn p_fastmail() -> Provider {
    let mut server: Vec<Server> = Vec::new();
    server.push(Server {
        protocol: Protocol::Imap,
        socket: Socket::Ssl,
        hostname: String::from_str("imap.fastmail.com"),
        port: 993,
        username_pattern: UsernamePattern::Email,
    });
    server.push(Server {
        protocol: Protocol::Smtp,
        socket: Socket::Ssl,
        hostname: String::from_str("smtp.fastmail.com"),
        port: 465,
        username_pattern: UsernamePattern::Email,
    });
    Provider {
        id: String::from_str("fastmail"),
        status: Status::Preparation,
        before_login_hint: String::from_str("You must create an app-specific password for Delta Chat before you can log in."),
        after_login_hint: String::from_str(""),
        overview_page: String::from_str("https://providers.delta.chat/fastmail"),
        server,
        config_defaults: None,
        oauth2_authorizer: None,
        opt: ProviderOptions::new(),
    }
}

/// The firemail.de provider record.
fn p_firemail_de() -> Provider {
    let mut server: Vec<Server> = Vec::new();
    Provider {
        id: String::from_str("firemail.de"),
        status: Status::Preparation,
        before_login_hint: String::from_str("Firemail erlaubt nur bei bezahlten Accounts den vollen Zugriff auf das E-Mail-Protokoll. Wenn Sie nicht für Firemail bezahlen, verwenden Sie bitte einen anderen E-Mail-Anbieter."),
        after_login_hint: String::from_str("Leider schränkt Firemail die maximale Gruppengröße ein. Je nach Bezahlmodell sind nur 5 bis 30 Gruppenmitglieder erlaubt."),
        overview_page: String::from_str("https://providers.delta.chat/firemail-de"),
        server,
        config_defaults: None,
        oauth2_authorizer: None,
        opt: ProviderOptions::new(),
    }
}

/// The five.chat provider record.
fn p_five_chat() -> Provider {
    let mut server: Vec<Server> = Vec::new();
    let mut defaults: Vec<ConfigDefault> = Vec::new();
    defaults.push(ConfigDefault { key: Config::BccSelf, value: String::from_str("1") });
    defaults.push(ConfigDefault { key: Config::SentboxWatch, value: String::from_str("0") });
    defaults.push(ConfigDefault { key: Config::MvboxMove, value: String::from_str("0") });
    Provider {
        id: String::from_str("five.chat"),
        status: Status::Okay,
        before_login_hint: String::from_str(""),
        after_login_hint: String::from_str(""),
        overview_page: String::from_str("https://providers.delta.chat/five-chat"),
        server,
        config_defaults: Some(defaults),
        oauth2_authorizer: None,
        opt: ProviderOptions::new(),
    }
}

/// The freenet.de provider record.
fn p_freenet_de() -> Provider {
    let mut server: Vec<Server> = Vec::new();
    server.push(Server {
        protocol: Protocol::Imap,
        socket: Socket::Ssl,
        hostname: String::from_str("mx.freenet.de"),
        port: 993,
        username_pattern: UsernamePattern::Email,
    });
    server.push(Server {
        protocol: Protocol::Smtp,
        socket: Socket::Starttls,
        hostname: String::from_str("mx.freenet.de"),
        port: 587,
        username_pattern: UsernamePattern::Email,
    });
    Provider {
        id: String::from_str("freenet.de"),
        status: Status::Preparation,
        before_login_hint: String::from_str("Um deine freenet.de E-Mail-Adresse mit Delta Chat zu benutzen, musst du erst auf der freenet.de-Webseite \"POP3/IMAP/SMTP\" aktivieren."),
        after_login_hint: String::from_str(""),
        overview_page: String::from_str("https://providers.delta.chat/freenet-de"),
        server,
        config_defaults: None,
        oauth2_authorizer: None,
        opt: ProviderOptions::new(),
    }
}

/// The gmail provider record.
fn p_gmail() -> Provider {
    let mut server: Vec<Server> = Vec::new();
    server.push(Server {
        protocol: Protocol::Imap,
        socket: Socket::Ssl,
        hostname: String::from_str("imap.gmail.com"),
        port: 993,
        username_pattern: UsernamePattern::Email,
    });
    server.push(Server {
        protocol: Protocol::Smtp,
        socket: Socket::Ssl,
        hostname: String::from_str("smtp.gmail.com"),
        port: 465,
        username_pattern: UsernamePattern::Email,
    });
    let mut opt = ProviderOptions::new();
    opt.delete_to_trash = true;
    Provider {
        id: String::from_str("gmail"),
        status: Status::Preparation,
        before_login_hint: String::from_str("For Gmail accounts, you need to create an app-password if you have \"2-Step Verification\" enabled. If this setting is not available, you need to enable \"less secure apps\"."),
        after_login_hint: String::from_str(""),
        overview_page: String::from_str("https://providers.delta.chat/gmail"),
        server,
        config_defaults: None,
        oauth2_authorizer: Some(Oauth2Authorizer::Gmail),
        opt,
    }
}

/// The gmx.net provider record.
fn p_gmx_net() -> Provider {
    let mut server: Vec<Server> = Vec::new();
    server.push(Server {
        protocol: Protocol::Imap,
        socket: Socket::Ssl,
        hostname: String::from_str("imap.gmx.net"),
        port: 993,
        username_pattern: UsernamePattern::Email,
    });
    server.push(Server {
        protocol: Protocol::Smtp,
        socket: Socket::Ssl,
        hostname: String::from_str("mail.gmx.net"),
        port: 465,
        username_pattern: UsernamePattern::Email,
    });
    server.push(Server {
        protocol: Protocol::Smtp,
        socket: Socket::Starttls,
        hostname: String::from_str("mail.gmx.net"),
        port: 587,
        username_pattern: UsernamePattern::Email,
    });
    Provider {
        id: String::from_str("gmx.net"),
        status: Status::Preparation,
        before_login_hint: String::from_str("You must allow IMAP access to your account before you can login."),
        after_login_hint: String::from_str(""),
        overview_page: String::from_str("https://providers.delta.chat/gmx-net"),
        server,
        config_defaults: None,
        oauth2_authorizer: None,
        opt: ProviderOptions::new(),
    }
}

/// The hermes.radio provider record.
fn p_hermes_radio() -> Provider {
    let mut server: Vec<Server> = Vec::new();
    let mut defaults: Vec<ConfigDefault> = Vec::new();
    defaults.push(ConfigDefault { key: Config::MdnsEnabled, value: String::from_str("0") });
    defaults.push(ConfigDefault { key: Config::E2eeEnabled, value: String::from_str("0") });
    defaults.push(ConfigDefault { key: Config::ShowEmails, value: String::from_str("2") });
    let mut opt = ProviderOptions::new();
    opt.strict_tls = false;
    Provider {
        id: String::from_str("hermes.radio"),
        status: Status::Okay,
        before_login_hint: String::from_str(""),
        after_login_hint: String::from_str(""),
        overview_page: String::from_str("https://providers.delta.chat/hermes-radio"),
        server,
        config_defaults: Some(defaults),
        oauth2_authorizer: None,
        opt,
    }
}

/// The hey.com provider record.
fn p_hey_com() -> Provider {
    let mut server: Vec<Server> = Vec::new();
    Provider {
        id: String::from_str("hey.com"),
        status: Status::Broken,
        before_login_hint: String::from_str("hey.com does not offer the standard IMAP e-mail protocol, so you cannot log in with Delta Chat to hey.com."),
        after_login_hint: String::from_str(""),
        overview_page: String::from_str("https://providers.delta.chat/hey-com"),
        server,
        config_defaults: None,
        oauth2_authorizer: None,
        opt: ProviderOptions::new(),
    }
}

/// The i.ua provider record.
fn p_i_ua() -> Provider {
    let mut server: Vec<Server> = Vec::new();
    Provider {
        id: String::from_str("i.ua"),
        status: Status::Broken,
        before_login_hint: String::from_str("Протокол IMAP не предоставляется и не планируется."),
        after_login_hint: String::from_str(""),
        overview_page: String::from_str("https://providers.delta.chat/i-ua"),
        server,
        config_defaults: None,
        oauth2_authorizer: None,
        opt: ProviderOptions::new(),
    }
}

/// The i3.net provider record.
fn p_i3_net() -> Provider {
    let mut server: Vec<Server> = Vec::new();
    Provider {
        id: String::from_str("i3.net"),
        status: Status::Okay,
        before_login_hint: String::from_str(""),
        after_login_hint: String::from_str(""),
        overview_page: String::from_str("https://providers.delta.chat/i3-net"),
        server,
        config_defaults: None,
        oauth2_authorizer: None,
        opt: ProviderOptions::new(),
    }
}

/// The icloud provider record.
fn p_icloud() -> Provider {
    let mut server: Vec<Server> = Vec::new();
    server.push(Server {
        protocol: Protocol::Imap,
        socket: Socket::Ssl,
        hostname: String::from_str("imap.mail.me.com"),
        port: 993,
        username_pattern: UsernamePattern::Emaillocalpart,
    });
    server.push(Server {
        protocol: Protocol::Smtp,
        socket: Socket::Starttls,
        hostname: String::from_str("smtp.mail.me.com"),
        port: 587,
        username_pattern: UsernamePattern::Email,
    });
    Provider {
        id: String::from_str("icloud"),
        status: Status::Preparation,
        before_login_hint: String::from_str("You must create an app-specific password for Delta Chat before login."),
        after_login_hint: String::from_str(""),
        overview_page: String::from_str("https://providers.delta.chat/icloud"),
        server,
        config_defaults: None,
        oauth2_authorizer: None,
        opt: ProviderOptions::new(),
    }
}

/// The infomaniak.com provider record.
fn p_infomaniak_com() -> Provider {
    let mut server: Vec<Server> = Vec::new();
    server.push(Server {
        protocol: Protocol::Imap,
        socket: Socket::Ssl,
        hostname: String::from_str("mail.infomaniak.com"),
        port: 993,
        username_pattern: UsernamePattern::Email,
    });
    server.push(Server {
        protocol: Protocol::Smtp,
        socket: Socket::Ssl,
        hostname: String::from_str("mail.infomaniak.com"),
        port: 465,
        username_pattern: UsernamePattern::Email,
    });
    let mut opt = ProviderOptions::new();
    opt.max_smtp_rcpt_to = Some(10);
    Provider {
        id: String::from_str("infomaniak.com"),
        status: Status::Okay,
        before_login_hint: String::from_str(""),
        after_login_hint: String::from_str(""),
        overview_page: String::from_str("https://providers.delta.chat/infomaniak-com"),
        server,
        config_defaults: None,
        oauth2_authorizer: None,
        opt,
    }
}

/// The kolst.com provider record.
fn p_kolst_com() -> Provider {
    let mut server: Vec<Server> = Vec::new();
    Provider {
        id: String::from_str("kolst.com"),
        status: Status::Okay,
        before_login_hint: String::from_str(""),
        after_login_hint: String::from_str(""),
        overview_page: String::from_str("https://providers.delta.chat/kolst-com"),
        server,
        config_defaults: None,
        oauth2_authorizer: None,
        opt: ProviderOptions::new(),
    }
}

/// The kontent.com provider record.
fn p_kontent_com() -> Provider {
    let mut server: Vec<Server> = Vec::new();
    Provider {
        id: String::from_str("kontent.com"),
        status: Status::Okay,
        before_login_hint: String::from_str(""),
        after_login_hint: String::from_str(""),
        overview_page: String::from_str("https://providers.delta.chat/kontent-com"),
        server,
        config_defaults: None,
        oauth2_authorizer: None,
        opt: ProviderOptions::new(),
    }
}

/// The mail.de provider record.
fn p_mail_de() -> Provider {
    let mut server: Vec<Server> = Vec::new();
    server.push(Server {
        protocol: Protocol::Imap,
        socket: Socket::Ssl,
        hostname: String::from_str("imap.mail.de"),
        port: 993,
        username_pattern: UsernamePattern::Email,
    });
    server.push(Server {
        protocol: Protocol::Smtp,
        socket: Socket::Ssl,
        hostname: String::from_str("smtp.mail.de"),
        port: 465,
        username_pattern: UsernamePattern::Email,
    });
    Provider {
        id: String::from_str("mail.de"),
        status: Status::Okay,
        before_login_hint: String::from_str(""),
        after_login_hint: String::from_str(""),
        overview_page: String::from_str("https://providers.delta.chat/mail-de"),
        server,
        config_defaults: None,
        oauth2_authorizer: None,
        opt: ProviderOptions::new(),
    }
}

/// The mail.ru provider record.
fn p_mail_ru() -> Provider {
    let mut server: Vec<Server> = Vec::new();
    server.push(Server {
        protocol: Protocol::Imap,
        socket: Socket::Ssl,
        hostname: String::from_str("imap.mail.ru"),
        port: 993,
        username_pattern: UsernamePattern::Email,
    });
    server.push(Server {
        protocol: Protocol::Smtp,
        socket: Socket::Ssl,
        hostname: String::from_str("smtp.mail.ru"),
        port: 465,
        username_pattern: UsernamePattern::Email,
    });
    Provider {
        id: String::from_str("mail.ru"),
        status: Status::Preparation,
        before_login_hint: String::from_str("Вам необходимо сгенерировать \"пароль для внешнего приложения\" в веб-интерфейсе mail.ru, чтобы mail.ru работал с Delta Chat."),
        after_login_hint: String::from_str(""),
        overview_page: String::from_str("https://providers.delta.chat/mail-ru"),
        server,
        config_defaults: None,
        oauth2_authorizer: None,
        opt: ProviderOptions::new(),
    }
}

/// The mail2tor provider record.
fn p_mail2tor() -> Provider {
    let mut server: Vec<Server> = Vec::new();
    server.push(Server {
        protocol: Protocol::Imap,
        socket: Socket::Plain,
        hostname: String::from_str("g77kjrad6bafzzyldqvffq6kxlsgphcygptxhnn4xlnktfgaqshilmyd.onion"),
        port: 143,
        username_pattern: UsernamePattern::Email,
    });
    server.push(Server {
        protocol: Protocol::Smtp,
        socket: Socket::Plain,
        hostname: String::from_str("xc7tgk2c5onxni2wsy76jslfsitxjbbptejnqhw6gy2ft7khpevhc7ad.onion"),
        port: 25,
        username_pattern: UsernamePattern::Email,
    });
    Provider {
        id: String::from_str("mail2tor"),
        status: Status::Preparation,
        before_login_hint: String::from_str("Tor is needed to connect to the email servers."),
        after_login_hint: String::from_str(""),
        overview_page: String::from_str("https://providers.delta.chat/mail2tor"),
        server,
        config_defaults: None,
        oauth2_authorizer: None,
        opt: ProviderOptions::new(),
    }
}

/// The mailbox.org provider record.
fn p_mailbox_org() -> Provider {
    let mut server: Vec<Server> = Vec::new();
    server.push(Server {
        protocol: Protocol::Imap,
        socket: Socket::Ssl,
        hostname: String::from_str("imap.mailbox.org"),
        port: 993,
        username_pattern: UsernamePattern::Email,
    });
    server.push(Server {
        protocol: Protocol::Smtp,
        socket: Socket::Ssl,
        hostname: String::from_str("smtp.mailbox.org"),
        port: 465,
        username_pattern: UsernamePattern::Email,
    });
    Provider {
        id: String::from_str("mailbox.org"),
        status: Status::Okay,
        before_login_hint: String::from_str(""),
        after_login_hint: String::from_str(""),
        overview_page: String::from_str("https://providers.delta.chat/mailbox-org"),
        server,
        config_defaults: None,
        oauth2_authorizer: None,
        opt: ProviderOptions::new(),
    }
}

/// The mailo.com provider record.
fn p_mailo_com() -> Provider {
    let mut server: Vec<Server> = Vec::new();
    server.push(Server {
        protocol: Protocol::Imap,
        socket: Socket::Ssl,
        hostname: String::from_str("imap.mailo.com"),
        port: 993,
        username_pattern: UsernamePattern::Email,
    });
    server.push(Server {
        protocol: Protocol::Smtp,
        socket: Socket::Ssl,
        hostname: String::from_str("smtp.mailo.com"),
        port: 465,
        username_pattern: UsernamePattern::Email,
    });
    Provider {
        id: String::from_str("mailo.com"),
        status: Status::Okay,
        before_login_hint: String::from_str(""),
        after_login_hint: String::from_str(""),
        overview_page: String::from_str("https://providers.delta.chat/mailo-com"),
        server,
        config_defaults: None,
        oauth2_authorizer: None,
        opt: ProviderOptions::new(),
    }
}

/// The nauta.cu provider record.
fn p_nauta_cu() -> Provider {
    let mut server: Vec<Server> = Vec::new();
    server.push(Server {
        protocol: Protocol::Imap,
        socket: Socket::Starttls,
        hostname: String::from_str("imap.nauta.cu"),
        port: 143,
        username_pattern: UsernamePattern::Email,
    });
    server.push(Server {
        protocol: Protocol::Smtp,
        socket: Socket::Starttls,
        hostname: String::from_str("smtp.nauta.cu"),
        port: 25,
        username_pattern: UsernamePattern::Email,
    });
    let mut defaults: Vec<ConfigDefault> = Vec::new();
    defaults.push(ConfigDefault { key: Config::DeleteServerAfter, value: String::from_str("1") });
    defaults.push(ConfigDefault { key: Config::BccSelf, value: String::from_str("0") });
    defaults.push(ConfigDefault { key: Config::SentboxWatch, value: String::from_str("0") });
    defaults.push(ConfigDefault { key: Config::MvboxMove, value: String::from_str("0") });
    defaults.push(ConfigDefault { key: Config::MediaQuality, value: String::from_str("1") });
    defaults.push(ConfigDefault { key: Config::FetchExistingMsgs, value: String::from_str("0") });
    let mut opt = ProviderOptions::new();
    opt.max_smtp_rcpt_to = Some(20);
    opt.strict_tls = false;
    Provider {
        id: String::from_str("nauta.cu"),
        status: Status::Okay,
        before_login_hint: String::from_str(""),
        after_login_hint: String::from_str(""),
        overview_page: String::from_str("https://providers.delta.chat/nauta-cu"),
        server,
        config_defaults: Some(defaults),
        oauth2_authorizer: None,
        opt,
    }
}

/// The naver provider record.
fn p_naver() -> Provider {
    let mut server: Vec<Server> = Vec::new();
    server.push(Server {
        protocol: Protocol::Imap,
        socket: Socket::Ssl,
        hostname: String::from_str("imap.naver.com"),
        port: 993,
        username_pattern: UsernamePattern::Emaillocalpart,
    });
    server.push(Server {
        protocol: Protocol::Smtp,
        socket: Socket::Starttls,
        hostname: String::from_str("smtp.naver.com"),
        port: 587,
        username_pattern: UsernamePattern::Email,
    });
    Provider {
        id: String::from_str("naver"),
        status: Status::Preparation,
        before_login_hint: String::from_str("Manually enabling IMAP/SMTP is required."),
        after_login_hint: String::from_str(""),
        overview_page: String::from_str("https://providers.delta.chat/naver"),
        server,
        config_defaults: None,
        oauth2_authorizer: None,
        opt: ProviderOptions::new(),
    }
}

/// The nine.testrun.org provider record.
fn p_nine_testrun_org() -> Provider {
    let mut server: Vec<Server> = Vec::new();
    server.push(Server {
        protocol: Protocol::Imap,
        socket: Socket::Ssl,
        hostname: String::from_str("nine.testrun.org"),
        port: 993,
        username_pattern: UsernamePattern::Email,
    });
    server.push(Server {
        protocol: Protocol::Smtp,
        socket: Socket::Ssl,
        hostname: String::from_str("nine.testrun.org"),
        port: 465,
        username_pattern: UsernamePattern::Email,
    });
    let mut defaults: Vec<ConfigDefault> = Vec::new();
    defaults.push(ConfigDefault { key: Config::MvboxMove, value: String::from_str("0") });
    Provider {
        id: String::from_str("nine.testrun.org"),
        status: Status::Okay,
        before_login_hint: String::from_str(""),
        after_login_hint: String::from_str(""),
        overview_page: String::from_str("https://providers.delta.chat/nine-testrun-org"),
        server,
        config_defaults: Some(defaults),
        oauth2_authorizer: None,
        opt: ProviderOptions::new(),
    }
}

/// The nubo.coop provider record.
fn p_nubo_coop() -> Provider {
    let mut server: Vec<Server> = Vec::new();
    server.push(Server {
        protocol: Protocol::Imap,
        socket: Socket::Ssl,
        hostname: String::from_str("mail.nubo.coop"),
        port: 993,
        username_pattern: UsernamePattern::Email,
    });
    server.push(Server {
        protocol: Protocol::Smtp,
        socket: Socket::Ssl,
        hostname: String::from_str("mail.nubo.coop"),
        port: 465,
        username_pattern: UsernamePattern::Email,
    });
    Provider {
        id: String::from_str("nubo.coop"),
        status: Status::Okay,
        before_login_hint: String::from_str(""),
        after_login_hint: String::from_str(""),
        overview_page: String::from_str("https://providers.delta.chat/nubo-coop"),
        server,
        config_defaults: None,
        oauth2_authorizer: None,
        opt: ProviderOptions::new(),
    }
}

/// The outlook.com provider record.
fn p_outlook_com() -> Provider {
    let mut server: Vec<Server> = Vec::new();
    server.push(Server {
        protocol: Protocol::Imap,
        socket: Socket::Ssl,
        hostname: String::from_str("outlook.office365.com"),
        port: 993,
        username_pattern: UsernamePattern::Email,
    });
    server.push(Server {
        protocol: Protocol::Smtp,
        socket: Socket::Starttls,
        hostname: String::from_str("smtp.office365.com"),
        port: 587,
        username_pattern: UsernamePattern::Email,
    });
    Provider {
        id: String::from_str("outlook.com"),
        status: Status::Okay,
        before_login_hint: String::from_str(""),
        after_login_hint: String::from_str(""),
        overview_page: String::from_str("https://providers.delta.chat/outlook-com"),
        server,
        config_defaults: None,
        oauth2_authorizer: None,
        opt: ProviderOptions::new(),
    }
}

/// The ouvaton.coop provider record.
fn p_ouvaton_coop() -> Provider {
    let mut server: Vec<Server> = Vec::new();
    server.push(Server {
        protocol: Protocol::Imap,
        socket: Socket::Ssl,
        hostname: String::from_str("imap.ouvaton.coop"),
        port: 993,
        username_pattern: UsernamePattern::Email,
    });
    server.push(Server {
        protocol: Protocol::Smtp,
        socket: Socket::Ssl,
        hostname: String::from_str("smtp.ouvaton.coop"),
        port: 465,
        username_pattern: UsernamePattern::Email,
    });
    Provider {
        id: String::from_str("ouvaton.coop"),
        status: Status::Okay,
        before_login_hint: String::from_str(""),
        after_login_hint: String::from_str(""),
        overview_page: String::from_str("https://providers.delta.chat/ouvaton-coop"),
        server,
        config_defaults: None,
        oauth2_authorizer: None,
        opt: ProviderOptions::new(),
    }
}

/// The posteo provider record.
fn p_posteo() -> Provider {
    let mut server: Vec<Server> = Vec::new();
    server.push(Server {
        protocol: Protocol::Imap,
        socket: Socket::Ssl,
        hostname: String::from_str("posteo.de"),
        port: 993,
        username_pattern: UsernamePattern::Email,
    });
    server.push(Server {
        protocol: Protocol::Imap,
        socket: Socket::Starttls,
        hostname: String::from_str("posteo.de"),
        port: 143,
        username_pattern: UsernamePattern::Email,
    });
    server.push(Server {
        protocol: Protocol::Smtp,
        socket: Socket::Ssl,
        hostname: String::from_str("posteo.de"),
        port: 465,
        username_pattern: UsernamePattern::Email,
    });
    server.push(Server {
        protocol: Protocol::Smtp,
        socket: Socket::Starttls,
        hostname: String::from_str("posteo.de"),
        port: 587,
        username_pattern: UsernamePattern::Email,
    });
    Provider {
        id: String::from_str("posteo"),
        status: Status::Okay,
        before_login_hint: String::from_str(""),
        after_login_hint: String::from_str(""),
        overview_page: String::from_str("https://providers.delta.chat/posteo"),
        server,
        config_defaults: None,
        oauth2_authorizer: None,
        opt: ProviderOptions::new(),
    }
}

/// The protonmail provider record.
fn p_protonmail() -> Provider {
    let mut server: Vec<Server> = Vec::new();
    Provider {
        id: String::from_str("protonmail"),
        status: Status::Broken,
        before_login_hint: String::from_str("Protonmail does not offer the standard IMAP e-mail protocol, so you cannot log in with Delta Chat to Protonmail."),
        after_login_hint: String::from_str("To use Delta Chat with Protonmail, the IMAP bridge must be running in the background. If you have connectivity issues, double check whether it works as expected."),
        overview_page: String::from_str("https://providers.delta.chat/protonmail"),
        server,
        config_defaults: None,
        oauth2_authorizer: None,
        opt: ProviderOptions::new(),
    }
}

/// The qq provider record.
fn p_qq() -> Provider {
    let mut server: Vec<Server> = Vec::new();
    server.push(Server {
        protocol: Protocol::Imap,
        socket: Socket::Ssl,
        hostname: String::from_str("imap.qq.com"),
        port: 993,
        username_pattern: UsernamePattern::Emaillocalpart,
    });
    server.push(Server {
        protocol: Protocol::Smtp,
        socket: Socket::Ssl,
        hostname: String::from_str("smtp.qq.com"),
        port: 465,
        username_pattern: UsernamePattern::Email,
    });
    Provider {
        id: String::from_str("qq"),
        status: Status::Preparation,
        before_login_hint: String::from_str("Manually enabling IMAP/SMTP and creating an app-specific password for Delta Chat are required."),
        after_login_hint: String::from_str(""),
        overview_page: String::from_str("https://providers.delta.chat/qq"),
        server,
        config_defaults: None,
        oauth2_authorizer: None,
        opt: ProviderOptions::new(),
    }
}

/// The riseup.net provider record.
fn p_riseup_net() -> Provider {
    let mut server: Vec<Server> = Vec::new();
    server.push(Server {
        protocol: Protocol::Imap,
        socket: Socket::Ssl,
        hostname: String::from_str("mail.riseup.net"),
        port: 993,
        username_pattern: UsernamePattern::Email,
    });
    server.push(Server {
        protocol: Protocol::Smtp,
        socket: Socket::Ssl,
        hostname: String::from_str("mail.riseup.net"),
        port: 465,
        username_pattern: UsernamePattern::Email,
    });
    Provider {
        id: String::from_str("riseup.net"),
        status: Status::Okay,
        before_login_hint: String::from_str(""),
        after_login_hint: String::from_str(""),
        overview_page: String::from_str("https://providers.delta.chat/riseup-net"),
        server,
        config_defaults: None,
        oauth2_authorizer: None,
        opt: ProviderOptions::new(),
    }
}

/// The rogers.com provider record.
fn p_rogers_com() -> Provider {
    let mut server: Vec<Server> = Vec::new();
    Provider {
        id: String::from_str("rogers.com"),
        status: Status::Okay,
        before_login_hint: String::from_str(""),
        after_login_hint: String::from_str(""),
        overview_page: String::from_str("https://providers.delta.chat/rogers-com"),
        server,
        config_defaults: None,
        oauth2_authorizer: None,
        opt: ProviderOptions::new(),
    }
}

/// The sonic provider record.
fn p_sonic() -> Provider {
    let mut server: Vec<Server> = Vec::new();
    Provider {
        id: String::from_str("sonic"),
        status: Status::Okay,
        before_login_hint: String::from_str(""),
        after_login_hint: String::from_str(""),
        overview_page: String::from_str("https://providers.delta.chat/sonic"),
        server,
        config_defaults: None,
        oauth2_authorizer: None,
        opt: ProviderOptions::new(),
    }
}

/// The systemausfall.org provider record.
fn p_systemausfall_org() -> Provider {
    let mut server: Vec<Server> = Vec::new();
    server.push(Server {
        protocol: Protocol::Imap,
        socket: Socket::Ssl,
        hostname: String::from_str("mail.systemausfall.org"),
        port: 993,
        username_pattern: UsernamePattern::Email,
    });
    server.push(Server {
        protocol: Protocol::Smtp,
        socket: Socket::Ssl,
        hostname: String::from_str("mail.systemausfall.org"),
        port: 465,
        username_pattern: UsernamePattern::Email,
    });
    Provider {
        id: String::from_str("systemausfall.org"),
        status: Status::Okay,
        before_login_hint: String::from_str(""),
        after_login_hint: String::from_str(""),
        overview_page: String::from_str("https://providers.delta.chat/systemausfall-org"),
        server,
        config_defaults: None,
        oauth2_authorizer: None,
        opt: ProviderOptions::new(),
    }
}

/// The systemli.org provider record.
fn p_systemli_org() -> Provider {
    let mut server: Vec<Server> = Vec::new();
    server.push(Server {
        protocol: Protocol::Imap,
        socket: Socket::Ssl,
        hostname: String::from_str("mail.systemli.org"),
        port: 993,
        username_pattern: UsernamePattern::Email,
    });
    server.push(Server {
        protocol: Protocol::Smtp,
        socket: Socket::Ssl,
        hostname: String::from_str("mail.systemli.org"),
        port: 465,
        username_pattern: UsernamePattern::Email,
    });
    Provider {
        id: String::from_str("systemli.org"),
        status: Status::Okay,
        before_login_hint: String::from_str(""),
        after_login_hint: String::from_str(""),
        overview_page: String::from_str("https://providers.delta.chat/systemli-org"),
        server,
        config_defaults: None,
        oauth2_authorizer: None,
        opt: ProviderOptions::new(),
    }
}

/// The t-online provider record.
fn p_t_online() -> Provider {
    let mut server: Vec<Server> = Vec::new();
    server.push(Server {
        protocol: Protocol::Imap,
        socket: Socket::Ssl,
        hostname: String::from_str("secureimap.t-online.de"),
        port: 993,
        username_pattern: UsernamePattern::Email,
    });
    server.push(Server {
        protocol: Protocol::Smtp,
        socket: Socket::Ssl,
        hostname: String::from_str("securesmtp.t-online.de"),
        port: 465,
        username_pattern: UsernamePattern::Email,
    });
    Provider {
        id: String::from_str("t-online"),
        status: Status::Preparation,
        before_login_hint: String::from_str("To use Delta Chat with a T-Online email address, you need to create an app password in the web interface."),
        after_login_hint: String::from_str(""),
        overview_page: String::from_str("https://providers.delta.chat/t-online"),
        server,
        config_defaults: None,
        oauth2_authorizer: None,
        opt: ProviderOptions::new(),
    }
}

/// The testrun provider record.
fn p_testrun() -> Provider {
    let mut server: Vec<Server> = Vec::new();
    server.push(Server {
        protocol: Protocol::Imap,
        socket: Socket::Ssl,
        hostname: String::from_str("testrun.org"),
        port: 993,
        username_pattern: UsernamePattern::Email,
    });
    server.push(Server {
        protocol: Protocol::Imap,
        socket: Socket::Starttls,
        hostname: String::from_str("testrun.org"),
        port: 143,
        username_pattern: UsernamePattern::Email,
    });
    server.push(Server {
        protocol: Protocol::Smtp,
        socket: Socket::Starttls,
        hostname: String::from_str("testrun.org"),
        port: 587,
        username_pattern: UsernamePattern::Email,
    });
    let mut defaults: Vec<ConfigDefault> = Vec::new();
    defaults.push(ConfigDefault { key: Config::BccSelf, value: String::from_str("1") });
    defaults.push(ConfigDefault { key: Config::SentboxWatch, value: String::from_str("0") });
    defaults.push(ConfigDefault { key: Config::MvboxMove, value: String::from_str("0") });
    Provider {
        id: String::from_str("testrun"),
        status: Status::Okay,
        before_login_hint: String::from_str(""),
        after_login_hint: String::from_str(""),
        overview_page: String::from_str("https://providers.delta.chat/testrun"),
        server,
        config_defaults: Some(defaults),
        oauth2_authorizer: None,
        opt: ProviderOptions::new(),
    }
}

/// The tiscali.it provider record.
fn p_tiscali_it() -> Provider {
    let mut server: Vec<Server> = Vec::new();
    server.push(Server {
        protocol: Protocol::Imap,
        socket: Socket::Ssl,
        hostname: String::from_str("imap.tiscali.it"),
        port: 993,
        username_pattern: UsernamePattern::Email,
    });
    server.push(Server {
        protocol: Protocol::Smtp,
        socket: Socket::Ssl,
        hostname: String::from_str("smtp.tiscali.it"),
        port: 465,
        username_pattern: UsernamePattern::Email,
    });
    Provider {
        id: String::from_str("tiscali.it"),
        status: Status::Okay,
        before_login_hint: String::from_str(""),
        after_login_hint: String::from_str(""),
        overview_page: String::from_str("https://providers.delta.chat/tiscali-it"),
        server,
        config_defaults: None,
        oauth2_authorizer: None,
        opt: ProviderOptions::new(),
    }
}

/// The tutanota provider record.
fn p_tutanota() -> Provider {
    let mut server: Vec<Server> = Vec::new();
    Provider {
        id: String::from_str("tutanota"),
        status: Status::Broken,
        before_login_hint: String::from_str("Tutanota does not offer the standard IMAP e-mail protocol, so you cannot log in with Delta Chat to Tutanota."),
        after_login_hint: String::from_str(""),
        overview_page: String::from_str("https://providers.delta.chat/tutanota"),
        server,
        config_defaults: None,
        oauth2_authorizer: None,
        opt: ProviderOptions::new(),
    }
}

/// The ukr.net provider record.
fn p_ukr_net() -> Provider {
    let mut server: Vec<Server> = Vec::new();
    Provider {
        id: String::from_str("ukr.net"),
        status: Status::Okay,
        before_login_hint: String::from_str(""),
        after_login_hint: String::from_str(""),
        overview_page: String::from_str("https://providers.delta.chat/ukr-net"),
        server,
        config_defaults: None,
        oauth2_authorizer: None,
        opt: ProviderOptions::new(),
    }
}

/// The undernet.uy provider record.
fn p_undernet_uy() -> Provider {
    let mut server: Vec<Server> = Vec::new();
    server.push(Server {
        protocol: Protocol::Imap,
        socket: Socket::Starttls,
        hostname: String::from_str("undernet.uy"),
        port: 143,
        username_pattern: UsernamePattern::Email,
    });
    server.push(Server {
        protocol: Protocol::Smtp,
        socket: Socket::Starttls,
        hostname: String::from_str("undernet.uy"),
        port: 587,
        username_pattern: UsernamePattern::Email,
    });
    Provider {
        id: String::from_str("undernet.uy"),
        status: Status::Okay,
        before_login_hint: String::from_str(""),
        after_login_hint: String::from_str(""),
        overview_page: String::from_str("https://providers.delta.chat/undernet-uy"),
        server,
        config_defaults: None,
        oauth2_authorizer: None,
        opt: ProviderOptions::new(),
    }
}

/// The vfemail provider record.
fn p_vfemail() -> Provider {
    let mut server: Vec<Server> = Vec::new();
    Provider {
        id: String::from_str("vfemail"),
        status: Status::Okay,
        before_login_hint: String::from_str(""),
        after_login_hint: String::from_str(""),
        overview_page: String::from_str("https://providers.delta.chat/vfemail"),
        server,
        config_defaults: None,
        oauth2_authorizer: None,
        opt: ProviderOptions::new(),
    }
}

/// The vivaldi provider record.
fn p_vivaldi() -> Provider {
    let mut server: Vec<Server> = Vec::new();
    server.push(Server {
        protocol: Protocol::Imap,
        socket: Socket::Starttls,
        hostname: String::from_str("imap.vivaldi.net"),
        port: 143,
        username_pattern: UsernamePattern::Email,
    });
    server.push(Server {
        protocol: Protocol::Smtp,
        socket: Socket::Starttls,
        hostname: String::from_str("smtp.vivaldi.net"),
        port: 587,
        username_pattern: UsernamePattern::Email,
    });
    Provider {
        id: String::from_str("vivaldi"),
        status: Status::Okay,
        before_login_hint: String::from_str(""),
        after_login_hint: String::from_str(""),
        overview_page: String::from_str("https://providers.delta.chat/vivaldi"),
        server,
        config_defaults: None,
        oauth2_authorizer: None,
        opt: ProviderOptions::new(),
    }
}

/// The vodafone.de provider record.
fn p_vodafone_de() -> Provider {
    let mut server: Vec<Server> = Vec::new();
    server.push(Server {
        protocol: Protocol::Imap,
        socket: Socket::Ssl,
        hostname: String::from_str("imap.vodafonemail.de"),
        port: 993,
        username_pattern: UsernamePattern::Email,
    });
    server.push(Server {
        protocol: Protocol::Smtp,
        socket: Socket::Starttls,
        hostname: String::from_str("smtp.vodafonemail.de"),
        port: 587,
        username_pattern: UsernamePattern::Email,
    });
    Provider {
        id: String::from_str("vodafone.de"),
        status: Status::Okay,
        before_login_hint: String::from_str(""),
        after_login_hint: String::from_str(""),
        overview_page: String::from_str("https://providers.delta.chat/vodafone-de"),
        server,
        config_defaults: None,
        oauth2_authorizer: None,
        opt: ProviderOptions::new(),
    }
}

/// The web.de provider record.
fn p_web_de() -> Provider {
    let mut server: Vec<Server> = Vec::new();
    server.push(Server {
        protocol: Protocol::Imap,
        socket: Socket::Ssl,
        hostname: String::from_str("imap.web.de"),
        port: 993,
        username_pattern: UsernamePattern::Emaillocalpart,
    });
    server.push(Server {
        protocol: Protocol::Imap,
        socket: Socket::Starttls,
        hostname: String::from_str("imap.web.de"),
        port: 143,
        username_pattern: UsernamePattern::Emaillocalpart,
    });
    server.push(Server {
        protocol: Protocol::Smtp,
        socket: Socket::Starttls,
        hostname: String::from_str("smtp.web.de"),
        port: 587,
        username_pattern: UsernamePattern::Emaillocalpart,
    });
    Provider {
        id: String::from_str("web.de"),
        status: Status::Preparation,
        before_login_hint: String::from_str("You must allow IMAP access to your account before you can login."),
        after_login_hint: String::from_str("Note: if you have your web.de spam settings too strict, you won't receive contact requests from new people. If you want to receive contact requests, you should disable the \"3-Wege-Spamschutz\" in the web.de settings.  Read how: https://hilfe.web.de/email/spam-und-viren/spamschutz-einstellungen.html"),
        overview_page: String::from_str("https://providers.delta.chat/web-de"),
        server,
        config_defaults: None,
        oauth2_authorizer: None,
        opt: ProviderOptions::new(),
    }
}

/// The yahoo provider record.
fn p_yahoo() -> Provider {
    let mut server: Vec<Server> = Vec::new();
    server.push(Server {
        protocol: Protocol::Imap,
        socket: Socket::Ssl,
        hostname: String::from_str("imap.mail.yahoo.com"),
        port: 993,
        username_pattern: UsernamePattern::Email,
    });
    server.push(Server {
        protocol: Protocol::Smtp,
        socket: Socket::Ssl,
        hostname: String::from_str("smtp.mail.yahoo.com"),
        port: 465,
        username_pattern: UsernamePattern::Email,
    });
    Provider {
        id: String::from_str("yahoo"),
        status: Status::Preparation,
        before_login_hint: String::from_str("To use Delta Chat with your Yahoo email address you have to create an \"App-Password\" in the account security screen."),
        after_login_hint: String::from_str(""),
        overview_page: String::from_str("https://providers.delta.chat/yahoo"),
        server,
        config_defaults: None,
        oauth2_authorizer: None,
        opt: ProviderOptions::new(),
    }
}

/// The yandex.ru provider record.
fn p_yandex_ru() -> Provider {
    let mut server: Vec<Server> = Vec::new();
    server.push(Server {
        protocol: Protocol::Imap,
        socket: Socket::Ssl,
        hostname: String::from_str("imap.yandex.com"),
        port: 993,
        username_pattern: UsernamePattern::Email,
    });
    server.push(Server {
        protocol: Protocol::Smtp,
        socket: Socket::Ssl,
        hostname: String::from_str("smtp.yandex.com"),
        port: 465,
        username_pattern: UsernamePattern::Email,
    });
    Provider {
        id: String::from_str("yandex.ru"),
        status: Status::Preparation,
        before_login_hint: String::from_str("For Yandex accounts, you have to set IMAP protocol option turned on."),
        after_login_hint: String::from_str(""),
        overview_page: String::from_str("https://providers.delta.chat/yandex-ru"),
        server,
        config_defaults: None,
        oauth2_authorizer: Some(Oauth2Authorizer::Yandex),
        opt: ProviderOptions::new(),
    }
}

/// The yggmail provider record.
fn p_yggmail() -> Provider {
    let mut server: Vec<Server> = Vec::new();
    server.push(Server {
        protocol: Protocol::Imap,
        socket: Socket::Plain,
        hostname: String::from_str("localhost"),
        port: 1143,
        username_pattern: UsernamePattern::Email,
    });
    server.push(Server {
        protocol: Protocol::Smtp,
        socket: Socket::Plain,
        hostname: String::from_str("localhost"),
        port: 1025,
        username_pattern: UsernamePattern::Email,
    });
    let mut defaults: Vec<ConfigDefault> = Vec::new();
    defaults.push(ConfigDefault { key: Config::MvboxMove, value: String::from_str("0") });
    Provider {
        id: String::from_str("yggmail"),
        status: Status::Preparation,
        before_login_hint: String::from_str("An Yggmail companion app needs to be installed on your device to access the Yggmail network."),
        after_login_hint: String::from_str("Make sure, the Yggmail companion app runs whenever you want to use this account. Note, that you usually cannot write from @yggmail addresses to normal e-mail-addresses (as @gmx.net). However, you can create another account in the normal e-mail-network for this purpose."),
        overview_page: String::from_str("https://providers.delta.chat/yggmail"),
        server,
        config_defaults: Some(defaults),
        oauth2_authorizer: None,
        opt: ProviderOptions::new(),
    }
}

/// The ziggo.nl provider record.
fn p_ziggo_nl() -> Provider {
    let mut server: Vec<Server> = Vec::new();
    server.push(Server {
        protocol: Protocol::Imap,
        socket: Socket::Ssl,
        hostname: String::from_str("imap.ziggo.nl"),
        port: 993,
        username_pattern: UsernamePattern::Email,
    });
    server.push(Server {
        protocol: Protocol::Smtp,
        socket: Socket::Starttls,
        hostname: String::from_str("smtp.ziggo.nl"),
        port: 587,
        username_pattern: UsernamePattern::Email,
    });
    Provider {
        id: String::from_str("ziggo.nl"),
        status: Status::Okay,
        before_login_hint: String::from_str(""),
        after_login_hint: String::from_str(""),
        overview_page: String::from_str("https://providers.delta.chat/ziggo-nl"),
        server,
        config_defaults: None,
        oauth2_authorizer: None,
        opt: ProviderOptions::new(),
    }
}

/// The zoho provider record.
fn p_zoho() -> Provider {
    let mut server: Vec<Server> = Vec::new();
    server.push(Server {
        protocol: Protocol::Imap,
        socket: Socket::Ssl,
        hostname: String::from_str("imap.zoho.eu"),
        port: 993,
        username_pattern: UsernamePattern::Email,
    });
    server.push(Server {
        protocol: Protocol::Smtp,
        socket: Socket::Ssl,
        hostname: String::from_str("smtp.zoho.eu"),
        port: 465,
        username_pattern: UsernamePattern::Email,
    });
    Provider {
        id: String::from_str("zoho"),
        status: Status::Preparation,
        before_login_hint: String::from_str("To use Zoho Mail, you have to turn on IMAP in the Zoho Mail backend."),
        after_login_hint: String::from_str(""),
        overview_page: String::from_str("https://providers.delta.chat/zoho"),
        server,
        config_defaults: None,
        oauth2_authorizer: None,
        opt: ProviderOptions::new(),
    }
}

/// Appends one registry entry for `domain` mapping to a copy of `p`.
fn add_entry(v: &mut Vec<RegistryEntry>, domain: &str, p: &Provider)
    ensures
        final(v)@.len() == old(v)@.len() + 1,
{
    v.push(RegistryEntry { domain: String::from_str(domain), provider: p.clone() });
}

/// Registers the domain keys of the 163 provider.
fn reg_163(v: &mut Vec<RegistryEntry>)
    ensures
        final(v)@.len() == old(v)@.len() + 1,
{
    let p = p_163();
    add_entry(v, "163.com", &p);
}

/// Registers the domain keys of the aktivix.org provider.
fn reg_aktivix_org(v: &mut Vec<RegistryEntry>)
    ensures
        final(v)@.len() == old(v)@.len() + 1,
{
    let p = p_aktivix_org();
    add_entry(v, "aktivix.org", &p);
}

/// Registers the domain keys of the aol provider.
fn reg_aol(v: &mut Vec<RegistryEntry>)
    ensures
        final(v)@.len() == old(v)@.len() + 1,
{
    let p = p_aol();
    add_entry(v, "aol.com", &p);
}

/// Registers the domain keys of the arcor.de provider.
fn reg_arcor_de(v: &mut Vec<RegistryEntry>)
    ensures
        final(v)@.len() == old(v)@.len() + 1,
{
    let p = p_arcor_de();
    add_entry(v, "arcor.de", &p);
}

/// Registers the domain keys of the autistici.org provider.
fn reg_autistici_org(v: &mut Vec<RegistryEntry>)
    ensures
        final(v)@.len() == old(v)@.len() + 1,
{
    let p = p_autistici_org();
    add_entry(v, "autistici.org", &p);
}

/// Registers the domain keys of the blindzeln.org provider.
fn reg_blindzeln_org(v: &mut Vec<RegistryEntry>)
    ensures
        final(v)@.len() == old(v)@.len() + 2,
{
    let p = p_blindzeln_org();
    add_entry(v, "delta.blinzeln.de", &p);
    add_entry(v, "delta.blindzeln.org", &p);
}

/// Registers the domain keys of the bluewin.ch provider.
fn reg_bluewin_ch(v: &mut Vec<RegistryEntry>)
    ensures
        final(v)@.len() == old(v)@.len() + 1,
{
    let p = p_bluewin_ch();
    add_entry(v, "bluewin.ch", &p);
}

/// Registers the domain keys of the buzon.uy provider.
fn reg_buzon_uy(v: &mut Vec<RegistryEntry>)
    ensures
        final(v)@.len() == old(v)@.len() + 1,
{
    let p = p_buzon_uy();
    add_entry(v, "buzon.uy", &p);
}

/// Registers the domain keys of the c1.testrun.org provider.
fn reg_c1_testrun_org(v: &mut Vec<RegistryEntry>)
    ensures
        final(v)@.len() == old(v)@.len() + 1,
{
    let p = p_c1_testrun_org();
    add_entry(v, "c1.testrun.org", &p);
}

/// Registers the domain keys of the c2.testrun.org provider.
fn reg_c2_testrun_org(v: &mut Vec<RegistryEntry>)
    ensures
        final(v)@.len() == old(v)@.len() + 1,
{
    let p = p_c2_testrun_org();
    add_entry(v, "c2.testrun.org", &p);
}

/// Registers the domain keys of the c3.testrun.org provider.
fn reg_c3_testrun_org(v: &mut Vec<RegistryEntry>)
    ensures
        final(v)@.len() == old(v)@.len() + 1,
{
    let p = p_c3_testrun_org();
    add_entry(v, "c3.testrun.org", &p);
}

/// Registers the domain keys of the chello.at provider.
fn reg_chello_at(v: &mut Vec<RegistryEntry>)
    ensures
        final(v)@.len() == old(v)@.len() + 1,
{
    let p = p_chello_at();
    add_entry(v, "chello.at", &p);
}

/// Registers the domain keys of the comcast provider.
fn reg_comcast(v: &mut Vec<RegistryEntry>)
    ensures
        final(v)@.len() == old(v)@.len() + 2,
{
    let p = p_comcast();
    add_entry(v, "xfinity.com", &p);
    add_entry(v, "comcast.net", &p);
}

/// Registers the domain keys of the dismail.de provider.
fn reg_dismail_de(v: &mut Vec<RegistryEntry>)
    ensures
        final(v)@.len() == old(v)@.len() + 1,
{
    let p = p_dismail_de();
    add_entry(v, "dismail.de", &p);
}

/// Registers the domain keys of the disroot provider.
fn reg_disroot(v: &mut Vec<RegistryEntry>)
    ensures
        final(v)@.len() == old(v)@.len() + 1,
{
    let p = p_disroot();
    add_entry(v, "disroot.org", &p);
}

/// Registers the domain keys of the e.email provider.
fn reg_e_email(v: &mut Vec<RegistryEntry>)
    ensures
        final(v)@.len() == old(v)@.len() + 1,
{
    let p = p_e_email();
    add_entry(v, "e.email", &p);
}

/// Registers the domain keys of the espiv.net provider.
fn reg_espiv_net(v: &mut Vec<RegistryEntry>)
    ensures
        final(v)@.len() == old(v)@.len() + 1,
{
    let p = p_espiv_net();
    add_entry(v, "espiv.net", &p);
}

/// Registers the domain keys of the example.com provider.
fn reg_example_com(v: &mut Vec<RegistryEntry>)
    ensures
        final(v)@.len() == old(v)@.len() + 3,
{
    let p = p_example_com();
    add_entry(v, "example.com", &p);
    add_entry(v, "example.org", &p);
    add_entry(v, "example.net", &p);
}

/// Registers the domain keys of the fastmail provider.
fn reg_fastmail(v: &mut Vec<RegistryEntry>)
    ensures
        final(v)@.len() == old(v)@.len() + 117,
{
    let p = p_fastmail();
    add_entry(v, "123mail.org", &p);
    add_entry(v, "150mail.com", &p);
    add_entry(v, "150ml.com", &p);
    add_entry(v, "16mail.com", &p);
    add_entry(v, "2-mail.com", &p);
    add_entry(v, "4email.net", &p);
    add_entry(v, "50mail.com", &p);
    add_entry(v, "airpost.net", &p);
    add_entry(v, "allmail.net", &p);
    add_entry(v, "bestmail.us", &p);
    add_entry(v, "cluemail.com", &p);
    add_entry(v, "elitemail.org", &p);
    add_entry(v, "emailcorner.net", &p);
    add_entry(v, "emailengine.net", &p);
    add_entry(v, "emailengine.org", &p);
    add_entry(v, "emailgroups.net", &p);
    add_entry(v, "emailplus.org", &p);
    add_entry(v, "emailuser.net", &p);
    add_entry(v, "eml.cc", &p);
    add_entry(v, "f-m.fm", &p);
    add_entry(v, "fast-email.com", &p);
    add_entry(v, "fast-mail.org", &p);
    add_entry(v, "fastem.com", &p);
    add_entry(v, "fastemail.us", &p);
    add_entry(v, "fastemailer.com", &p);
    add_entry(v, "fastest.cc", &p);
    add_entry(v, "fastimap.com", &p);
    add_entry(v, "fastmail.cn", &p);
    add_entry(v, "fastmail.co.uk", &p);
    add_entry(v, "fastmail.com", &p);
    add_entry(v, "fastmail.com.au", &p);
    add_entry(v, "fastmail.de", &p);
    add_entry(v, "fastmail.es", &p);
    add_entry(v, "fastmail.fm", &p);
    add_entry(v, "fastmail.fr", &p);
    add_entry(v, "fastmail.im", &p);
    add_entry(v, "fastmail.in", &p);
    add_entry(v, "fastmail.jp", &p);
    add_entry(v, "fastmail.mx", &p);
    add_entry(v, "fastmail.net", &p);
    add_entry(v, "fastmail.nl", &p);
    add_entry(v, "fastmail.org", &p);
    add_entry(v, "fastmail.se", &p);
    add_entry(v, "fastmail.to", &p);
    add_entry(v, "fastmail.tw", &p);
    add_entry(v, "fastmail.uk", &p);
    add_entry(v, "fastmail.us", &p);
    add_entry(v, "fastmailbox.net", &p);
    add_entry(v, "fastmessaging.com", &p);
    add_entry(v, "fea.st", &p);
    add_entry(v, "fmail.co.uk", &p);
    add_entry(v, "fmailbox.com", &p);
    add_entry(v, "fmgirl.com", &p);
    add_entry(v, "fmguy.com", &p);
    add_entry(v, "ftml.net", &p);
    add_entry(v, "h-mail.us", &p);
    add_entry(v, "hailmail.net", &p);
    add_entry(v, "imap-mail.com", &p);
    add_entry(v, "imap.cc", &p);
    add_entry(v, "imapmail.org", &p);
    add_entry(v, "inoutbox.com", &p);
    add_entry(v, "internet-e-mail.com", &p);
    add_entry(v, "internet-mail.org", &p);
    add_entry(v, "internetemails.net", &p);
    add_entry(v, "internetmailing.net", &p);
    add_entry(v, "jetemail.net", &p);
    add_entry(v, "justemail.net", &p);
    add_entry(v, "letterboxes.org", &p);
    add_entry(v, "mail-central.com", &p);
    add_entry(v, "mail-page.com", &p);
    add_entry(v, "mailandftp.com", &p);
    add_entry(v, "mailas.com", &p);
    add_entry(v, "mailbolt.com", &p);
    add_entry(v, "mailc.net", &p);
    add_entry(v, "mailcan.com", &p);
    add_entry(v, "mailforce.net", &p);
    add_entry(v, "mailftp.com", &p);
    add_entry(v, "mailhaven.com", &p);
    add_entry(v, "mailingaddress.org", &p);
    add_entry(v, "mailite.com", &p);
    add_entry(v, "mailmight.com", &p);
    add_entry(v, "mailnew.com", &p);
    add_entry(v, "mailsent.net", &p);
    add_entry(v, "mailservice.ms", &p);
    add_entry(v, "mailup.net", &p);
    add_entry(v, "mailworks.org", &p);
    add_entry(v, "ml1.net", &p);
    add_entry(v, "mm.st", &p);
    add_entry(v, "myfastmail.com", &p);
    add_entry(v, "mymacmail.com", &p);
    add_entry(v, "nospammail.net", &p);
    add_entry(v, "ownmail.net", &p);
    add_entry(v, "petml.com", &p);
    add_entry(v, "postinbox.com", &p);
    add_entry(v, "postpro.net", &p);
    add_entry(v, "proinbox.com", &p);
    add_entry(v, "promessage.com", &p);
    add_entry(v, "realemail.net", &p);
    add_entry(v, "reallyfast.biz", &p);
    add_entry(v, "reallyfast.info", &p);
    add_entry(v, "rushpost.com", &p);
    add_entry(v, "sent.as", &p);
    add_entry(v, "sent.at", &p);
    add_entry(v, "sent.com", &p);
    add_entry(v, "speedpost.net", &p);
    add_entry(v, "speedymail.org", &p);
    add_entry(v, "ssl-mail.com", &p);
    add_entry(v, "swift-mail.com", &p);
    add_entry(v, "the-fastest.net", &p);
    add_entry(v, "the-quickest.com", &p);
    add_entry(v, "theinternetemail.com", &p);
    add_entry(v, "veryfast.biz", &p);
    add_entry(v, "veryspeedy.net", &p);
    add_entry(v, "warpmail.net", &p);
    add_entry(v, "xsmail.com", &p);
    add_entry(v, "yepmail.net", &p);
    add_entry(v, "your-mail.com", &p);
}

/// Registers the domain keys of the firemail.de provider.
fn reg_firemail_de(v: &mut Vec<RegistryEntry>)
    ensures
        final(v)@.len() == old(v)@.len() + 2,
{
    let p = p_firemail_de();
    add_entry(v, "firemail.at", &p);
    add_entry(v, "firemail.de", &p);
}

/// Registers the domain keys of the five.chat provider.
fn reg_five_chat(v: &mut Vec<RegistryEntry>)
    ensures
        final(v)@.len() == old(v)@.len() + 1,
{
    let p = p_five_chat();
    add_entry(v, "five.chat", &p);
}

/// Registers the domain keys of the freenet.de provider.
fn reg_freenet_de(v: &mut Vec<RegistryEntry>)
    ensures
        final(v)@.len() == old(v)@.len() + 1,
{
    let p = p_freenet_de();
    add_entry(v, "freenet.de", &p);
}

/// Registers the domain keys of the gmail provider.
fn reg_gmail(v: &mut Vec<RegistryEntry>)
    ensures
        final(v)@.len() == old(v)@.len() + 3,
{
    let p = p_gmail();
    add_entry(v, "gmail.com", &p);
    add_entry(v, "googlemail.com", &p);
    add_entry(v, "google.com", &p);
}

/// Registers the domain keys of the gmx.net provider.
fn reg_gmx_net(v: &mut Vec<RegistryEntry>)
    ensures
        final(v)@.len() == old(v)@.len() + 9,
{
    let p = p_gmx_net();
    add_entry(v, "gmx.net", &p);
    add_entry(v, "gmx.de", &p);
    add_entry(v, "gmx.at", &p);
    add_entry(v, "gmx.ch", &p);
    add_entry(v, "gmx.org", &p);
    add_entry(v, "gmx.eu", &p);
    add_entry(v, "gmx.info", &p);
    add_entry(v, "gmx.biz", &p);
    add_entry(v, "gmx.com", &p);
}

/// Registers the domain keys of the hermes.radio provider.
fn reg_hermes_radio(v: &mut Vec<RegistryEntry>)
    ensures
        final(v)@.len() == old(v)@.len() + 2,
{
    let p = p_hermes_radio();
    add_entry(v, "*.hermes.radio", &p);
    add_entry(v, "*.aco-connexion.org", &p);
}

/// Registers the domain keys of the hey.com provider.
fn reg_hey_com(v: &mut Vec<RegistryEntry>)
    ensures
        final(v)@.len() == old(v)@.len() + 1,
{
    let p = p_hey_com();
    add_entry(v, "hey.com", &p);
}

/// Registers the domain keys of the i.ua provider.
fn reg_i_ua(v: &mut Vec<RegistryEntry>)
    ensures
        final(v)@.len() == old(v)@.len() + 1,
{
    let p = p_i_ua();
    add_entry(v, "i.ua", &p);
}

/// Registers the domain keys of the i3.net provider.
fn reg_i3_net(v: &mut Vec<RegistryEntry>)
    ensures
        final(v)@.len() == old(v)@.len() + 1,
{
    let p = p_i3_net();
    add_entry(v, "i3.net", &p);
}

/// Registers the domain keys of the icloud provider.
fn reg_icloud(v: &mut Vec<RegistryEntry>)
    ensures
        final(v)@.len() == old(v)@.len() + 3,
{
    let p = p_icloud();
    add_entry(v, "icloud.com", &p);
    add_entry(v, "me.com", &p);
    add_entry(v, "mac.com", &p);
}

/// Registers the domain keys of the infomaniak.com provider.
fn reg_infomaniak_com(v: &mut Vec<RegistryEntry>)
    ensures
        final(v)@.len() == old(v)@.len() + 1,
{
    let p = p_infomaniak_com();
    add_entry(v, "ik.me", &p);
}

/// Registers the domain keys of the kolst.com provider.
fn reg_kolst_com(v: &mut Vec<RegistryEntry>)
    ensures
        final(v)@.len() == old(v)@.len() + 1,
{
    let p = p_kolst_com();
    add_entry(v, "kolst.com", &p);
}

/// Registers the domain keys of the kontent.com provider.
fn reg_kontent_com(v: &mut Vec<RegistryEntry>)
    ensures
        final(v)@.len() == old(v)@.len() + 1,
{
    let p = p_kontent_com();
    add_entry(v, "kontent.com", &p);
}

/// Registers the domain keys of the mail.de provider.
fn reg_mail_de(v: &mut Vec<RegistryEntry>)
    ensures
        final(v)@.len() == old(v)@.len() + 1,
{
    let p = p_mail_de();
    add_entry(v, "mail.de", &p);
}

/// Registers the domain keys of the mail.ru provider.
fn reg_mail_ru(v: &mut Vec<RegistryEntry>)
    ensures
        final(v)@.len() == old(v)@.len() + 5,
{
    let p = p_mail_ru();
    add_entry(v, "mail.ru", &p);
    add_entry(v, "inbox.ru", &p);
    add_entry(v, "internet.ru", &p);
    add_entry(v, "bk.ru", &p);
    add_entry(v, "list.ru", &p);
}

/// Registers the domain keys of the mail2tor provider.
fn reg_mail2tor(v: &mut Vec<RegistryEntry>)
    ensures
        final(v)@.len() == old(v)@.len() + 1,
{
    let p = p_mail2tor();
    add_entry(v, "mail2tor.com", &p);
}

/// Registers the domain keys of the mailbox.org provider.
fn reg_mailbox_org(v: &mut Vec<RegistryEntry>)
    ensures
        final(v)@.len() == old(v)@.len() + 2,
{
    let p = p_mailbox_org();
    add_entry(v, "mailbox.org", &p);
    add_entry(v, "secure.mailbox.org", &p);
}

/// Registers the domain keys of the mailo.com provider.
fn reg_mailo_com(v: &mut Vec<RegistryEntry>)
    ensures
        final(v)@.len() == old(v)@.len() + 1,
{
    let p = p_mailo_com();
    add_entry(v, "mailo.com", &p);
}

/// Registers the domain keys of the nauta.cu provider.
fn reg_nauta_cu(v: &mut Vec<RegistryEntry>)
    ensures
        final(v)@.len() == old(v)@.len() + 1,
{
    let p = p_nauta_cu();
    add_entry(v, "nauta.cu", &p);
}

/// Registers the domain keys of the naver provider.
fn reg_naver(v: &mut Vec<RegistryEntry>)
    ensures
        final(v)@.len() == old(v)@.len() + 1,
{
    let p = p_naver();
    add_entry(v, "naver.com", &p);
}

/// Registers the domain keys of the nine.testrun.org provider.
fn reg_nine_testrun_org(v: &mut Vec<RegistryEntry>)
    ensures
        final(v)@.len() == old(v)@.len() + 1,
{
    let p = p_nine_testrun_org();
    add_entry(v, "nine.testrun.org", &p);
}

/// Registers the domain keys of the nubo.coop provider.
fn reg_nubo_coop(v: &mut Vec<RegistryEntry>)
    ensures
        final(v)@.len() == old(v)@.len() + 1,
{
    let p = p_nubo_coop();
    add_entry(v, "nubo.coop", &p);
}

/// Registers the domain keys of the outlook.com provider.
fn reg_outlook_com(v: &mut Vec<RegistryEntry>)
    ensures
        final(v)@.len() == old(v)@.len() + 6,
{
    let p = p_outlook_com();
    add_entry(v, "hotmail.com", &p);
    add_entry(v, "outlook.com", &p);
    add_entry(v, "office365.com", &p);
    add_entry(v, "outlook.com.tr", &p);
    add_entry(v, "live.com", &p);
    add_entry(v, "outlook.de", &p);
}

/// Registers the domain keys of the ouvaton.coop provider.
fn reg_ouvaton_coop(v: &mut Vec<RegistryEntry>)
    ensures
        final(v)@.len() == old(v)@.len() + 1,
{
    let p = p_ouvaton_coop();
    add_entry(v, "ouvaton.org", &p);
}

/// Registers the domain keys of the posteo provider.
fn reg_posteo(v: &mut Vec<RegistryEntry>)
    ensures
        final(v)@.len() == old(v)@.len() + 51,
{
    let p = p_posteo();
    add_entry(v, "posteo.de", &p);
    add_entry(v, "posteo.af", &p);
    add_entry(v, "posteo.at", &p);
    add_entry(v, "posteo.be", &p);
    add_entry(v, "posteo.ca", &p);
    add_entry(v, "posteo.ch", &p);
    add_entry(v, "posteo.cl", &p);
    add_entry(v, "posteo.co", &p);
    add_entry(v, "posteo.co.uk", &p);
    add_entry(v, "posteo.com.br", &p);
    add_entry(v, "posteo.cr", &p);
    add_entry(v, "posteo.cz", &p);
    add_entry(v, "posteo.dk", &p);
    add_entry(v, "posteo.ee", &p);
    add_entry(v, "posteo.es", &p);
    add_entry(v, "posteo.eu", &p);
    add_entry(v, "posteo.fi", &p);
    add_entry(v, "posteo.gl", &p);
    add_entry(v, "posteo.gr", &p);
    add_entry(v, "posteo.hn", &p);
    add_entry(v, "posteo.hr", &p);
    add_entry(v, "posteo.hu", &p);
    add_entry(v, "posteo.ie", &p);
    add_entry(v, "posteo.in", &p);
    add_entry(v, "posteo.is", &p);
    add_entry(v, "posteo.it", &p);
    add_entry(v, "posteo.jp", &p);
    add_entry(v, "posteo.la", &p);
    add_entry(v, "posteo.li", &p);
    add_entry(v, "posteo.lt", &p);
    add_entry(v, "posteo.lu", &p);
    add_entry(v, "posteo.me", &p);
    add_entry(v, "posteo.mx", &p);
    add_entry(v, "posteo.my", &p);
    add_entry(v, "posteo.net", &p);
    add_entry(v, "posteo.nl", &p);
    add_entry(v, "posteo.no", &p);
    add_entry(v, "posteo.nz", &p);
    add_entry(v, "posteo.org", &p);
    add_entry(v, "posteo.pe", &p);
    add_entry(v, "posteo.pl", &p);
    add_entry(v, "posteo.pm", &p);
    add_entry(v, "posteo.pt", &p);
    add_entry(v, "posteo.ro", &p);
    add_entry(v, "posteo.ru", &p);
    add_entry(v, "posteo.se", &p);
    add_entry(v, "posteo.sg", &p);
    add_entry(v, "posteo.si", &p);
    add_entry(v, "posteo.tn", &p);
    add_entry(v, "posteo.uk", &p);
    add_entry(v, "posteo.us", &p);
}

/// Registers the domain keys of the protonmail provider.
fn reg_protonmail(v: &mut Vec<RegistryEntry>)
    ensures
        final(v)@.len() == old(v)@.len() + 3,
{
    let p = p_protonmail();
    add_entry(v, "protonmail.com", &p);
    add_entry(v, "protonmail.ch", &p);
    add_entry(v, "pm.me", &p);
}

/// Registers the domain keys of the qq provider.
fn reg_qq(v: &mut Vec<RegistryEntry>)
    ensures
        final(v)@.len() == old(v)@.len() + 2,
{
    let p = p_qq();
    add_entry(v, "qq.com", &p);
    add_entry(v, "foxmail.com", &p);
}

/// Registers the domain keys of the riseup.net provider.
fn reg_riseup_net(v: &mut Vec<RegistryEntry>)
    ensures
        final(v)@.len() == old(v)@.len() + 1,
{
    let p = p_riseup_net();
    add_entry(v, "riseup.net", &p);
}

/// Registers the domain keys of the rogers.com provider.
fn reg_rogers_com(v: &mut Vec<RegistryEntry>)
    ensures
        final(v)@.len() == old(v)@.len() + 1,
{
    let p = p_rogers_com();
    add_entry(v, "rogers.com", &p);
}

/// Registers the domain keys of the sonic provider.
fn reg_sonic(v: &mut Vec<RegistryEntry>)
    ensures
        final(v)@.len() == old(v)@.len() + 1,
{
    let p = p_sonic();
    add_entry(v, "sonic.net", &p);
}

/// Registers the domain keys of the systemausfall.org provider.
fn reg_systemausfall_org(v: &mut Vec<RegistryEntry>)
    ensures
        final(v)@.len() == old(v)@.len() + 2,
{
    let p = p_systemausfall_org();
    add_entry(v, "systemausfall.org", &p);
    add_entry(v, "solidaris.me", &p);
}

/// Registers the domain keys of the systemli.org provider.
fn reg_systemli_org(v: &mut Vec<RegistryEntry>)
    ensures
        final(v)@.len() == old(v)@.len() + 1,
{
    let p = p_systemli_org();
    add_entry(v, "systemli.org", &p);
}

/// Registers the domain keys of the t-online provider.
fn reg_t_online(v: &mut Vec<RegistryEntry>)
    ensures
        final(v)@.len() == old(v)@.len() + 2,
{
    let p = p_t_online();
    add_entry(v, "t-online.de", &p);
    add_entry(v, "magenta.de", &p);
}

/// Registers the domain keys of the testrun provider.
fn reg_testrun(v: &mut Vec<RegistryEntry>)
    ensures
        final(v)@.len() == old(v)@.len() + 1,
{
    let p = p_testrun();
    add_entry(v, "testrun.org", &p);
}

/// Registers the domain keys of the tiscali.it provider.
fn reg_tiscali_it(v: &mut Vec<RegistryEntry>)
    ensures
        final(v)@.len() == old(v)@.len() + 1,
{
    let p = p_tiscali_it();
    add_entry(v, "tiscali.it", &p);
}

/// Registers the domain keys of the tutanota provider.
fn reg_tutanota(v: &mut Vec<RegistryEntry>)
    ensures
        final(v)@.len() == old(v)@.len() + 5,
{
    let p = p_tutanota();
    add_entry(v, "tutanota.com", &p);
    add_entry(v, "tutanota.de", &p);
    add_entry(v, "tutamail.com", &p);
    add_entry(v, "tuta.io", &p);
    add_entry(v, "keemail.me", &p);
}

/// Registers the domain keys of the ukr.net provider.
fn reg_ukr_net(v: &mut Vec<RegistryEntry>)
    ensures
        final(v)@.len() == old(v)@.len() + 1,
{
    let p = p_ukr_net();
    add_entry(v, "ukr.net", &p);
}

/// Registers the domain keys of the undernet.uy provider.
fn reg_undernet_uy(v: &mut Vec<RegistryEntry>)
    ensures
        final(v)@.len() == old(v)@.len() + 1,
{
    let p = p_undernet_uy();
    add_entry(v, "undernet.uy", &p);
}

/// Registers the domain keys of the vfemail provider.
fn reg_vfemail(v: &mut Vec<RegistryEntry>)
    ensures
        final(v)@.len() == old(v)@.len() + 1,
{
    let p = p_vfemail();
    add_entry(v, "vfemail.net", &p);
}

/// Registers the domain keys of the vivaldi provider.
fn reg_vivaldi(v: &mut Vec<RegistryEntry>)
    ensures
        final(v)@.len() == old(v)@.len() + 1,
{
    let p = p_vivaldi();
    add_entry(v, "vivaldi.net", &p);
}

/// Registers the domain keys of the vodafone.de provider.
fn reg_vodafone_de(v: &mut Vec<RegistryEntry>)
    ensures
        final(v)@.len() == old(v)@.len() + 2,
{
    let p = p_vodafone_de();
    add_entry(v, "vodafone.de", &p);
    add_entry(v, "vodafonemail.de", &p);
}

/// Registers the domain keys of the web.de provider.
fn reg_web_de(v: &mut Vec<RegistryEntry>)
    ensures
        final(v)@.len() == old(v)@.len() + 27,
{
    let p = p_web_de();
    add_entry(v, "web.de", &p);
    add_entry(v, "email.de", &p);
    add_entry(v, "flirt.ms", &p);
    add_entry(v, "hallo.ms", &p);
    add_entry(v, "kuss.ms", &p);
    add_entry(v, "love.ms", &p);
    add_entry(v, "magic.ms", &p);
    add_entry(v, "singles.ms", &p);
    add_entry(v, "cool.ms", &p);
    add_entry(v, "kanzler.ms", &p);
    add_entry(v, "okay.ms", &p);
    add_entry(v, "party.ms", &p);
    add_entry(v, "pop.ms", &p);
    add_entry(v, "stars.ms", &p);
    add_entry(v, "techno.ms", &p);
    add_entry(v, "clever.ms", &p);
    add_entry(v, "deutschland.ms", &p);
    add_entry(v, "genial.ms", &p);
    add_entry(v, "ich.ms", &p);
    add_entry(v, "online.ms", &p);
    add_entry(v, "smart.ms", &p);
    add_entry(v, "wichtig.ms", &p);
    add_entry(v, "action.ms", &p);
    add_entry(v, "fussball.ms", &p);
    add_entry(v, "joker.ms", &p);
    add_entry(v, "planet.ms", &p);
    add_entry(v, "power.ms", &p);
}

/// Registers the domain keys of the yahoo provider.
fn reg_yahoo(v: &mut Vec<RegistryEntry>)
    ensures
        final(v)@.len() == old(v)@.len() + 15,
{
    let p = p_yahoo();
    add_entry(v, "yahoo.com", &p);
    add_entry(v, "yahoo.de", &p);
    add_entry(v, "yahoo.it", &p);
    add_entry(v, "yahoo.fr", &p);
    add_entry(v, "yahoo.es", &p);
    add_entry(v, "yahoo.se", &p);
    add_entry(v, "yahoo.co.uk", &p);
    add_entry(v, "yahoo.co.nz", &p);
    add_entry(v, "yahoo.com.au", &p);
    add_entry(v, "yahoo.com.ar", &p);
    add_entry(v, "yahoo.com.br", &p);
    add_entry(v, "yahoo.com.mx", &p);
    add_entry(v, "ymail.com", &p);
    add_entry(v, "rocketmail.com", &p);
    add_entry(v, "yahoodns.net", &p);
}

/// Registers the domain keys of the yandex.ru provider.
fn reg_yandex_ru(v: &mut Vec<RegistryEntry>)
    ensures
        final(v)@.len() == old(v)@.len() + 7,
{
    let p = p_yandex_ru();
    add_entry(v, "yandex.com", &p);
    add_entry(v, "yandex.by", &p);
    add_entry(v, "yandex.kz", &p);
    add_entry(v, "yandex.ru", &p);
    add_entry(v, "yandex.ua", &p);
    add_entry(v, "ya.ru", &p);
    add_entry(v, "narod.ru", &p);
}

/// Registers the domain keys of the yggmail provider.
fn reg_yggmail(v: &mut Vec<RegistryEntry>)
    ensures
        final(v)@.len() == old(v)@.len() + 1,
{
    let p = p_yggmail();
    add_entry(v, "yggmail", &p);
}

/// Registers the domain keys of the ziggo.nl provider.
fn reg_ziggo_nl(v: &mut Vec<RegistryEntry>)
    ensures
        final(v)@.len() == old(v)@.len() + 1,
{
    let p = p_ziggo_nl();
    add_entry(v, "ziggo.nl", &p);
}

/// Registers the domain keys of the zoho provider.
fn reg_zoho(v: &mut Vec<RegistryEntry>)
    ensures
        final(v)@.len() == old(v)@.len() + 3,
{
    let p = p_zoho();
    add_entry(v, "zohomail.eu", &p);
    add_entry(v, "zohomail.com", &p);
    add_entry(v, "zoho.com", &p);
}

/// Builds the full built-in registry, in its fixed registration
/// order. Several domain keys alias the same provider.
pub fn built_in_registry() -> (r: Registry)
    ensures
        r@.entries.len() == 318,
{
    let mut v: Vec<RegistryEntry> = Vec::new();
    reg_163(&mut v);
    reg_aktivix_org(&mut v);
    reg_aol(&mut v);
    reg_arcor_de(&mut v);
    reg_autistici_org(&mut v);
    reg_blindzeln_org(&mut v);
    reg_bluewin_ch(&mut v);
    reg_buzon_uy(&mut v);
    reg_c1_testrun_org(&mut v);
    reg_c2_testrun_org(&mut v);
    reg_c3_testrun_org(&mut v);
    reg_chello_at(&mut v);
    reg_comcast(&mut v);
    reg_dismail_de(&mut v);
    reg_disroot(&mut v);
    reg_e_email(&mut v);
    reg_espiv_net(&mut v);
    reg_example_com(&mut v);
    reg_fastmail(&mut v);
    reg_firemail_de(&mut v);
    reg_five_chat(&mut v);
    reg_freenet_de(&mut v);
    reg_gmail(&mut v);
    reg_gmx_net(&mut v);
    reg_hermes_radio(&mut v);
    reg_hey_com(&mut v);
    reg_i_ua(&mut v);
    reg_i3_net(&mut v);
    reg_icloud(&mut v);
    reg_infomaniak_com(&mut v);
    reg_kolst_com(&mut v);
    reg_kontent_com(&mut v);
    reg_mail_de(&mut v);
    reg_mail_ru(&mut v);
    reg_mail2tor(&mut v);
    reg_mailbox_org(&mut v);
    reg_mailo_com(&mut v);
    reg_nauta_cu(&mut v);
    reg_naver(&mut v);
    reg_nine_testrun_org(&mut v);
    reg_nubo_coop(&mut v);
    reg_outlook_com(&mut v);
    reg_ouvaton_coop(&mut v);
    reg_posteo(&mut v);
    reg_protonmail(&mut v);
    reg_qq(&mut v);
    reg_riseup_net(&mut v);
    reg_rogers_com(&mut v);
    reg_sonic(&mut v);
    reg_systemausfall_org(&mut v);
    reg_systemli_org(&mut v);
    reg_t_online(&mut v);
    reg_testrun(&mut v);
    reg_tiscali_it(&mut v);
    reg_tutanota(&mut v);
    reg_ukr_net(&mut v);
    reg_undernet_uy(&mut v);
    reg_vfemail(&mut v);
    reg_vivaldi(&mut v);
    reg_vodafone_de(&mut v);
    reg_web_de(&mut v);
    reg_yahoo(&mut v);
    reg_yandex_ru(&mut v);
    reg_yggmail(&mut v);
    reg_ziggo_nl(&mut v);
    reg_zoho(&mut v);
    Registry::new(v)
}

} // verus!
